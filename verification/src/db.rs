use vstd::prelude::*;

use crate::password::{Password, RowView, StoredPassword};
use rusqlite::Connection;
use vstd::string::StringExecFns;

verus! {

/// The failure classes of the vault.
///
/// `AuthFailure` and `IOFailure` are fatal and arise while opening the
/// store; `WriteFailure` and `InvalidIndex` are recoverable and arise from
/// a rejected mutation.
#[derive(Clone, Copy, Debug, PartialEq, Eq, Structural)]
pub enum VaultError {
    /// The backing file exists but is not a valid encrypted container for
    /// the given passphrase: a wrong passphrase or a corrupted file.
    AuthFailure,
    /// A file could not be created, opened or read.
    IOFailure,
    /// The store rejected an insert, update or delete.
    WriteFailure,
    /// A delete addressed a position outside the current record list.
    InvalidIndex,
}

/// The line shown for each failure class.
pub open spec fn spec_describe(e: VaultError) -> Seq<char> {
    match e {
        VaultError::AuthFailure => "passphrase is not valid for this store"@,
        VaultError::IOFailure => "the store file could not be created or read"@,
        VaultError::WriteFailure => "the store rejected the change"@,
        VaultError::InvalidIndex => "no record stands at that position"@,
    }
}

impl VaultError {
    /// A short line for reporting the failure to the user.
    pub fn describe(&self) -> (r: String)
        ensures
            r@ == spec_describe(*self),
    {
        match self {
            VaultError::AuthFailure => String::from_str("passphrase is not valid for this store"),
            VaultError::IOFailure => String::from_str("the store file could not be created or read"),
            VaultError::WriteFailure => String::from_str("the store rejected the change"),
            VaultError::InvalidIndex => String::from_str("no record stands at that position"),
        }
    }
}

#[verifier::external_type_specification]
#[verifier::external_body]
pub struct ExConnection(Connection);

#[verifier::external_type_specification]
#[verifier::external_body]
pub struct ExSqlError(rusqlite::Error);

/// What the backing table behind an open connection holds: its rows in id
/// order. Every trusted operation below states how the call it makes
/// changes this model.
pub uninterp spec fn db_rows(conn: Connection) -> Seq<RowView>;

/// The encrypted record store: the bundled SQLCipher encrypts the backing
/// file under a key derived from the passphrase, so the file is unreadable
/// without it.
pub struct Database {
    conn: Connection,
}

impl View for Database {
    type V = Seq<RowView>;

    closed spec fn view(&self) -> Seq<RowView> {
        db_rows(self.conn)
    }
}

/// Whether the sequence holds some row with this id.
pub open spec fn contains_id(rows: Seq<RowView>, id: i64) -> bool {
    exists|k: int| 0 <= k < rows.len() && rows[k].id == id
}

/// The position of the row with this id, when one is there.
pub open spec fn idx_of_id(rows: Seq<RowView>, id: i64) -> int {
    choose|k: int| 0 <= k < rows.len() && rows[k].id == id
}

/// The sequence with the entry of the row with this id replaced.
pub open spec fn rows_updated(rows: Seq<RowView>, id: i64, entry: crate::password::PasswordView) -> Seq<RowView> {
    rows.map_values(|rv: RowView| if rv.id == id { RowView { id: id, entry: entry } } else { rv })
}

/// Inserting, then loading: a store that has just appended a record under
/// a fresh id — larger, as `insert` ensures, than every id it held —
/// yields on the next load a sequence that contains the inserted record,
/// and the fresh id differs from every id the store held before.
pub proof fn lemma_insert_then_load(rows: Seq<RowView>, entry: crate::password::PasswordView, id: i64)
    requires
        forall|i: int| 0 <= i < rows.len() ==> rows[i].id < id,
    ensures
        rows.push(RowView { id, entry }).contains(RowView { id, entry }),
        forall|i: int| 0 <= i < rows.len() ==> rows[i].id != id,
{
    let grown = rows.push(RowView { id, entry });
    assert(grown[rows.len() as int] == (RowView { id, entry }));
}

/// Deleting, then loading: removing the record at one position of a store
/// with strictly increasing ids yields on the next load a sequence one
/// shorter, in which the deleted id no longer occurs anywhere.
pub proof fn lemma_delete_then_load(rows: Seq<RowView>, i: int)
    requires
        0 <= i < rows.len(),
        forall|a: int, b: int| 0 <= a < b < rows.len() ==> rows[a].id < rows[b].id,
    ensures
        rows.remove(i).len() == rows.len() - 1,
        forall|j: int| 0 <= j < rows.remove(i).len() ==> rows.remove(i)[j].id != rows[i].id,
{
    rows.remove_ensures(i);
    let shrunk = rows.remove(i);
    assert forall|j: int| 0 <= j < shrunk.len() implies shrunk[j].id != rows[i].id by {
        if j < i {
            assert(shrunk[j] == rows[j]);
        } else {
            assert(shrunk[j] == rows[j + 1]);
        }
    }
}

impl Database {
    /// The store's invariant: ids strictly increase along the model, so
    /// every id is unique. The table's integer primary key guarantees
    /// uniqueness, and the model lists rows in id order.
    pub open spec fn wf(self) -> bool {
        forall|i: int, j: int| 0 <= i < j < self@.len() ==> self@[i].id < self@[j].id
    }

    /// Relies on `rusqlite::Connection::open`: opens (creating if absent)
    /// the SQLite database at this path. The model is the table's rows in
    /// id order; ids are unique by the integer primary key, so the model
    /// is strictly increasing in id.
    #[verifier::external_body]
    fn connect(path: &str) -> (r: Result<Database, rusqlite::Error>)
        ensures
            r matches Ok(db) ==> db.wf(),
    {
        match Connection::open(path) {
            Ok(conn) => Ok(Database { conn }),
            Err(e) => Err(e),
        }
    }

    /// Relies on `rusqlite::Connection::pragma_update`: issues
    /// `PRAGMA key` before any schema operation; the bundled SQLCipher
    /// derives the container's encryption key from the passphrase. Reads
    /// no rows and changes none.
    #[verifier::external_body]
    fn apply_key(&self, key: &str) -> (r: Result<(), rusqlite::Error>)
    {
        self.conn.pragma_update(None, "key", key)
    }

    /// Relies on `rusqlite::Connection::query_row`: one read of
    /// `sqlite_master`, the first statement to touch the file after the
    /// key is set. On a container that the key does not open — a wrong
    /// passphrase or a corrupted file — it fails with `NotADatabase`; it
    /// performs no schema or data operation and changes no row.
    #[verifier::external_body]
    fn check_key(&self) -> (r: Result<(), rusqlite::Error>)
    {
        self.conn.query_row("SELECT count(*) FROM sqlite_master", [], |_row| Ok(()))
    }

    /// Relies on `rusqlite::Connection::execute_batch`: runs one
    /// `CREATE TABLE IF NOT EXISTS`, which adds or removes no row, so the
    /// model is unchanged (the receiver is shared).
    #[verifier::external_body]
    fn create_table_raw(&self) -> (r: Result<(), rusqlite::Error>)
    {
        self.conn.execute_batch(
            "CREATE TABLE IF NOT EXISTS passwords(id INTEGER PRIMARY KEY AUTOINCREMENT, title TEXT NOT NULL, username TEXT NOT NULL, password TEXT NOT NULL, email TEXT NOT NULL, recovery_codes TEXT NOT NULL, access_tokens TEXT NOT NULL, notes TEXT NOT NULL)",
        )
    }

    /// Relies on `rusqlite::Statement::query_map` and `rusqlite::Row::get`:
    /// a `SELECT` ordered by id returns exactly the table's rows in id
    /// order, each mapped to a `StoredPassword` field for field.
    #[verifier::external_body]
    fn load_rows(&self) -> (r: Result<Vec<StoredPassword>, rusqlite::Error>)
        ensures
            r matches Ok(v) ==> v@.len() == db_rows(self.conn).len()
                && (forall|i: int| 0 <= i < v@.len() ==> v@[i]@ == db_rows(self.conn)[i]),
    {
        let mut stmt = self.conn.prepare(
            "SELECT id, title, username, password, email, recovery_codes, access_tokens, notes FROM passwords ORDER BY id",
        )?;
        let rows = stmt.query_map([], |row| Ok(StoredPassword::new(
            row.get(0)?,
            Password::new(row.get(1)?, row.get(2)?, row.get(3)?, row.get(4)?, row.get(5)?, row.get(6)?, row.get(7)?),
        )))?;
        rows.collect()
    }

    /// Relies on `rusqlite::Connection::execute` and
    /// `rusqlite::Connection::last_insert_rowid`: a successful `INSERT`
    /// adds exactly one row, whose rowid `last_insert_rowid` returns. With
    /// `AUTOINCREMENT` the new id is larger than every id the table has
    /// ever held, so the new row follows all others in id order. A failed
    /// `INSERT` adds no row.
    #[verifier::external_body]
    fn insert_row(&mut self, p: &Password) -> (r: Result<i64, rusqlite::Error>)
        ensures
            r matches Ok(id) ==> db_rows(final(self).conn) == db_rows(old(self).conn).push(RowView { id: id, entry: p@ })
                && (forall|i: int| 0 <= i < db_rows(old(self).conn).len() ==> db_rows(old(self).conn)[i].id < id),
            r is Err ==> db_rows(final(self).conn) == db_rows(old(self).conn),
    {
        self.conn.execute(
            "INSERT INTO passwords (title, username, password, email, recovery_codes, access_tokens, notes) VALUES (?1, ?2, ?3, ?4, ?5, ?6, ?7)",
            (&p.title, &p.username, &p.password, &p.email, &p.recovery_codes, &p.access_tokens, &p.notes),
        )?;
        Ok(self.conn.last_insert_rowid())
    }

    /// Relies on `rusqlite::Connection::execute`: a successful `DELETE`
    /// by id removes exactly the rows with that id — with unique ids, the
    /// one such row if it is there — and reports how many rows went. A
    /// failed `DELETE` removes none.
    #[verifier::external_body]
    fn delete_row(&mut self, id: i64) -> (r: Result<usize, rusqlite::Error>)
        requires
            old(self).wf(),
        ensures
            r matches Ok(n) ==> n <= 1
                && (n == 1 <==> contains_id(db_rows(old(self).conn), id))
                && (contains_id(db_rows(old(self).conn), id) ==> db_rows(final(self).conn) == db_rows(old(self).conn).remove(idx_of_id(db_rows(old(self).conn), id)))
                && (!contains_id(db_rows(old(self).conn), id) ==> db_rows(final(self).conn) == db_rows(old(self).conn)),
            r is Err ==> db_rows(final(self).conn) == db_rows(old(self).conn),
    {
        self.conn.execute("DELETE FROM passwords WHERE id=?1", (id,))
    }

    /// Relies on `rusqlite::Connection::execute`: a successful `UPDATE`
    /// by id rewrites every field of the rows with that id — with unique
    /// ids, the one such row if it is there — and reports how many rows
    /// changed. Ids stay as they were. A failed `UPDATE` changes none.
    #[verifier::external_body]
    fn update_row(&mut self, id: i64, p: &Password) -> (r: Result<usize, rusqlite::Error>)
        requires
            old(self).wf(),
        ensures
            r matches Ok(n) ==> n <= 1
                && (n == 1 <==> contains_id(db_rows(old(self).conn), id))
                && db_rows(final(self).conn) == rows_updated(db_rows(old(self).conn), id, p@),
            r is Err ==> db_rows(final(self).conn) == db_rows(old(self).conn),
    {
        self.conn.execute(
            "UPDATE passwords SET title=?1, username=?2, password=?3, email=?4, recovery_codes=?5, access_tokens=?6, notes=?7 WHERE id=?8",
            (&p.title, &p.username, &p.password, &p.email, &p.recovery_codes, &p.access_tokens, &p.notes, id),
        )
    }

    /// Relies on `rusqlite::Error::sqlite_error_code`: tells the error of
    /// an unreadable container (`NotADatabase`: a wrong passphrase or a
    /// corrupted file) from every other error.
    #[verifier::external_body]
    fn is_auth_error(e: &rusqlite::Error) -> bool {
        matches!(e.sqlite_error_code(), Some(rusqlite::ErrorCode::NotADatabase))
    }

    /// Maps an error met while opening the store onto the two fatal
    /// classes: an unreadable container is an authentication failure,
    /// anything else an I/O failure.
    fn classify_open_error(e: &rusqlite::Error) -> (r: VaultError)
        ensures
            r is AuthFailure || r is IOFailure,
    {
        if Self::is_auth_error(e) {
            VaultError::AuthFailure
        } else {
            VaultError::IOFailure
        }
    }

    /// Opens (creating if absent) the store at `path`, applies the
    /// passphrase as the encryption key and verifies it with one read —
    /// before any schema operation, so a rejected passphrase touches
    /// nothing — then ensures the `passwords` table exists.
    pub fn new(path: &str, key: &str) -> (r: Result<Database, VaultError>)
        ensures
            r matches Ok(db) ==> db.wf(),
            r matches Err(e) ==> e is AuthFailure || e is IOFailure,
    {
        let db = match Self::connect(path) {
            Ok(db) => db,
            Err(e) => return Err(Self::classify_open_error(&e)),
        };
        if let Err(e) = db.apply_key(key) {
            return Err(Self::classify_open_error(&e));
        }
        if let Err(e) = db.check_key() {
            return Err(Self::classify_open_error(&e));
        }
        match db.create_table() {
            Ok(()) => Ok(db),
            Err(e) => Err(e),
        }
    }

    /// Ensures the `passwords` table exists, idempotently; the store's
    /// rows are unchanged.
    pub fn create_table(&self) -> (r: Result<(), VaultError>)
        ensures
            r matches Err(e) ==> e is AuthFailure || e is IOFailure,
    {
        match self.create_table_raw() {
            Ok(()) => Ok(()),
            Err(e) => Err(Self::classify_open_error(&e)),
        }
    }

    /// Loads every record, in the store's id order.
    pub fn load_passwords(&self) -> (r: Result<Vec<StoredPassword>, VaultError>)
        ensures
            r matches Ok(v) ==> v@.len() == self@.len()
                && (forall|i: int| 0 <= i < v@.len() ==> v@[i]@ == self@[i]),
            r matches Err(e) ==> e is AuthFailure || e is IOFailure,
    {
        match self.load_rows() {
            Ok(v) => Ok(v),
            Err(e) => Err(Self::classify_open_error(&e)),
        }
    }

    /// Writes one new row holding this entry. On success the store has
    /// gained exactly that row, under a fresh id larger than every id the
    /// store held; on failure the store is unchanged.
    pub fn insert(&mut self, password: &Password) -> (r: Result<i64, VaultError>)
        requires
            old(self).wf(),
        ensures
            final(self).wf(),
            r matches Ok(id) ==> final(self)@ == old(self)@.push(RowView { id: id, entry: password@ })
                && (forall|i: int| 0 <= i < old(self)@.len() ==> old(self)@[i].id < id),
            r is Err ==> final(self)@ == old(self)@ && r->Err_0 is WriteFailure,
    {
        match self.insert_row(password) {
            Ok(id) => {
                proof {
                    let rows = old(self)@;
                    let grown = final(self)@;
                    assert forall|i: int, j: int| 0 <= i < j < grown.len() implies grown[i].id < grown[j].id by {
                        if j < rows.len() {
                            assert(grown[i] == rows[i] && grown[j] == rows[j]);
                        } else {
                            assert(grown[i] == rows[i] && grown[j].id == id);
                        }
                    }
                }
                Ok(id)
            },
            Err(_) => Err(VaultError::WriteFailure),
        }
    }

    /// Removes the row with this id, if one is there, and returns how many
    /// rows went (one or none). On failure the store is unchanged. A
    /// matching-nothing delete is success of zero rows here: the session
    /// layer validates existence first.
    pub fn delete(&mut self, id: i64) -> (r: Result<usize, VaultError>)
        requires
            old(self).wf(),
        ensures
            final(self).wf(),
            r matches Ok(n) ==> n <= 1
                && (n == 1 <==> contains_id(old(self)@, id))
                && (contains_id(old(self)@, id) ==> final(self)@ == old(self)@.remove(idx_of_id(old(self)@, id)))
                && (!contains_id(old(self)@, id) ==> final(self)@ == old(self)@),
            r is Err ==> final(self)@ == old(self)@ && r->Err_0 is WriteFailure,
    {
        match self.delete_row(id) {
            Ok(n) => {
                proof {
                    let rows = old(self)@;
                    if contains_id(rows, id) {
                        let k = idx_of_id(rows, id);
                        rows.remove_ensures(k);
                        let shrunk = final(self)@;
                        assert forall|i: int, j: int| 0 <= i < j < shrunk.len() implies shrunk[i].id < shrunk[j].id by {
                            assert(shrunk[i] == (if i < k { rows[i] } else { rows[i + 1] }));
                            assert(shrunk[j] == (if j < k { rows[j] } else { rows[j + 1] }));
                        }
                    }
                }
                Ok(n)
            },
            Err(_) => Err(VaultError::WriteFailure),
        }
    }

    /// Replaces every field of the row with this id. Fails when the id is
    /// absent from the store, and when the store rejects the write; on
    /// failure the store is unchanged.
    pub fn update(&mut self, id: i64, password: &Password) -> (r: Result<(), VaultError>)
        requires
            old(self).wf(),
        ensures
            final(self).wf(),
            r is Ok ==> contains_id(old(self)@, id)
                && final(self)@ == rows_updated(old(self)@, id, password@),
            !contains_id(old(self)@, id) ==> r is Err,
            r matches Err(e) ==> final(self)@ == old(self)@ && e is WriteFailure,
    {
        match self.update_row(id, password) {
            Ok(n) => {
                proof {
                    let rows = old(self)@;
                    let changed = final(self)@;
                    assert forall|i: int, j: int| 0 <= i < j < changed.len() implies changed[i].id < changed[j].id by {
                        assert(changed[i].id == rows[i].id && changed[j].id == rows[j].id);
                    }
                }
                if n == 1 {
                    Ok(())
                } else {
                    proof {
                        let rows = old(self)@;
                        assert forall|k: int| 0 <= k < rows.len() implies rows[k].id != id by {
                            if rows[k].id == id {
                                assert(contains_id(rows, id));
                            }
                        }
                        assert(rows_updated(rows, id, password@) =~= rows);
                    }
                    Err(VaultError::WriteFailure)
                }
            },
            Err(_) => Err(VaultError::WriteFailure),
        }
    }
}

} // verus!
