use vstd::prelude::*;
use vstd::pervasive::VecAdditionalExecFns;

use crate::db::{contains_id, idx_of_id, Database, VaultError};
use crate::password::{Password, RowView, StoredPassword};

verus! {

/// The mathematical value of a record list: each record's value, in order.
pub open spec fn rows_of(s: Seq<StoredPassword>) -> Seq<RowView> {
    s.map_values(|p: StoredPassword| p@)
}

pub proof fn lemma_rows_of_push(s: Seq<StoredPassword>, p: StoredPassword)
    ensures
        rows_of(s.push(p)) == rows_of(s).push(p@),
{
    assert(rows_of(s.push(p)) =~= rows_of(s).push(p@));
}

pub proof fn lemma_rows_of_remove(s: Seq<StoredPassword>, i: int)
    requires
        0 <= i < s.len(),
    ensures
        rows_of(s.remove(i)) == rows_of(s).remove(i),
{
    s.remove_ensures(i);
    rows_of(s).remove_ensures(i);
    assert(rows_of(s.remove(i)) =~= rows_of(s).remove(i));
}

/// The mirror position of the record carrying this durable id, scanning
/// from the front: the bridge from the id-based addressing that the store
/// keys and the user sees to the session's position-based mutations.
pub fn index_of_id(records: &Vec<StoredPassword>, id: i64) -> (r: Option<usize>)
    ensures
        r matches Some(i) ==> i < records@.len() && records@[i as int]@.id == id
            && (forall|j: int| 0 <= j < i ==> records@[j]@.id != id),
        r is None ==> forall|j: int| 0 <= j < records@.len() ==> records@[j]@.id != id,
{
    let mut i: usize = 0;
    while i < records.len()
        invariant
            i <= records@.len(),
            forall|j: int| 0 <= j < i ==> records@[j]@.id != id,
        decreases records@.len() - i,
    {
        if records[i].id == id {
            return Some(i);
        }
        i += 1;
    }
    None
}

/// The session: the open store together with the in-memory mirror of its
/// records. The mirror is the single in-memory copy; every mutation
/// commits to the store first and only then touches the mirror, so the
/// store stays the ground truth.
pub struct Helsafe {
    db: Database,
    passwords: Vec<StoredPassword>,
}

impl View for Helsafe {
    type V = Seq<RowView>;

    closed spec fn view(&self) -> Seq<RowView> {
        rows_of(self.passwords@)
    }
}

impl Helsafe {
    /// The session's invariant: the store is well-formed and the mirror
    /// holds exactly the store's rows, in the store's order.
    pub closed spec fn inv(self) -> bool {
        &&& self.db.wf()
        &&& rows_of(self.passwords@) == self.db@
    }

    /// Ids strictly increase along the mirror; this follows from the
    /// store's well-formedness and is all callers need of it.
    pub open spec fn ids_sorted(self) -> bool {
        forall|i: int, j: int| 0 <= i < j < self@.len() ==> self@[i].id < self@[j].id
    }

    pub proof fn lemma_inv_ids_sorted(self)
        requires
            self.inv(),
        ensures
            self.ids_sorted(),
    {
    }

    /// Opens (creating if absent) the store at `path` under the given
    /// passphrase and loads every record into the mirror.
    pub fn new(path: &str, key: &str) -> (r: Result<Helsafe, VaultError>)
        ensures
            r matches Ok(h) ==> h.inv(),
            r matches Err(e) ==> e is AuthFailure || e is IOFailure,
    {
        let db = match Database::new(path, key) {
            Ok(db) => db,
            Err(e) => return Err(e),
        };
        let passwords = match db.load_passwords() {
            Ok(v) => v,
            Err(e) => return Err(e),
        };
        proof {
            assert(rows_of(passwords@) =~= db@);
        }
        Ok(Helsafe { db, passwords })
    }

    /// Commits one new record to the store; only on success appends it,
    /// under its freshly assigned id, to the mirror. The fresh id is
    /// larger than every id the store held.
    pub fn insert(&mut self, password: &Password) -> (r: Result<i64, VaultError>)
        requires
            old(self).inv(),
        ensures
            final(self).inv(),
            r matches Ok(id) ==> final(self)@ == old(self)@.push(RowView { id: id, entry: password@ })
                && (forall|i: int| 0 <= i < old(self)@.len() ==> old(self)@[i].id < id),
            r matches Err(e) ==> final(self)@ == old(self)@ && e is WriteFailure,
    {
        match self.db.insert(password) {
            Ok(id) => {
                let stored = StoredPassword::new(id, password.duplicate());
                proof {
                    lemma_rows_of_push(self.passwords@, stored);
                }
                self.passwords.push(stored);
                Ok(id)
            },
            Err(e) => Err(e),
        }
    }

    /// Deletes the record at this mirror position. An out-of-range index
    /// fails with `InvalidIndex` before any store call; otherwise the
    /// record's id is deleted from the store and, only on success, the
    /// record leaves the mirror. The removed record is returned.
    pub fn delete(&mut self, index: usize) -> (r: Result<StoredPassword, VaultError>)
        requires
            old(self).inv(),
        ensures
            final(self).inv(),
            index < old(self)@.len() ==> (
                (r matches Ok(p) ==> final(self)@ == old(self)@.remove(index as int)
                    && p@ == old(self)@[index as int])
                && (r matches Err(e) ==> final(self)@ == old(self)@ && e is WriteFailure)
            ),
            index >= old(self)@.len() ==> final(self)@ == old(self)@
                && (r matches Err(e) && e is InvalidIndex),
    {
        if index >= self.passwords.len() {
            return Err(VaultError::InvalidIndex);
        }
        let id = self.passwords[index].id;
        proof {
            let rows = self.db@;
            assert(rows[index as int] == self.passwords@[index as int]@);
            assert(contains_id(rows, id));
            let k = idx_of_id(rows, id);
            assert(0 <= k < rows.len() && rows[k].id == id);
            if k < index as int {
                assert(rows[k].id < rows[index as int].id);
            }
            if k > index as int {
                assert(rows[index as int].id < rows[k].id);
            }
            assert(k == index as int);
        }
        match self.db.delete(id) {
            Ok(_) => {
                proof {
                    lemma_rows_of_remove(self.passwords@, index as int);
                }
                let p = self.passwords.remove(index);
                Ok(p)
            },
            Err(e) => Err(e),
        }
    }

    /// Rewrites every field of the record at this mirror position, both in
    /// the store and, only on success, in the mirror. The id stays.
    pub fn update(&mut self, index: usize, password: &Password) -> (r: Result<(), VaultError>)
        requires
            old(self).inv(),
        ensures
            final(self).inv(),
            index < old(self)@.len() ==> (
                (r is Ok ==> final(self)@ == old(self)@.update(
                    index as int,
                    RowView { id: old(self)@[index as int].id, entry: password@ },
                ))
                && (r matches Err(e) ==> final(self)@ == old(self)@ && e is WriteFailure)
            ),
            index >= old(self)@.len() ==> final(self)@ == old(self)@
                && (r matches Err(e) && e is InvalidIndex),
    {
        if index >= self.passwords.len() {
            return Err(VaultError::InvalidIndex);
        }
        let id = self.passwords[index].id;
        proof {
            let rows = self.db@;
            assert(rows[index as int] == self.passwords@[index as int]@);
            assert(contains_id(rows, id));
        }
        match self.db.update(id, password) {
            Ok(_) => {
                let stored = StoredPassword::new(id, password.duplicate());
                self.passwords.set(index, stored);
                proof {
                    let rows = old(self).db@;
                    assert forall|i: int, j: int| 0 <= i < j < rows.len() implies rows[i].id != rows[j].id by {
                        assert(rows[i].id < rows[j].id);
                    }
                    assert(rows_of(self.passwords@) =~= self.db@);
                    assert(self@ =~= old(self)@.update(
                        index as int,
                        RowView { id: old(self)@[index as int].id, entry: password@ },
                    ));
                }
                Ok(())
            },
            Err(e) => Err(e),
        }
    }

    /// Replaces the mirror with a fresh load of the store: the recovery
    /// path when drift between memory and store is suspected. On failure
    /// the mirror is left as it was.
    pub fn reload(&mut self) -> (r: Result<(), VaultError>)
        requires
            old(self).inv(),
        ensures
            final(self).inv(),
            final(self)@ == old(self)@,
            r matches Err(e) ==> e is AuthFailure || e is IOFailure,
    {
        match self.db.load_passwords() {
            Ok(v) => {
                proof {
                    assert(rows_of(v@) =~= self.db@);
                }
                self.passwords = v;
                Ok(())
            },
            Err(e) => Err(e),
        }
    }

    /// The current mirror: every record, in store order.
    pub fn get_passwords(&self) -> (r: &Vec<StoredPassword>)
        ensures
            rows_of(r@) == self@,
    {
        &self.passwords
    }

    /// How many records the session holds.
    pub fn len(&self) -> (r: usize)
        ensures
            r == self@.len(),
    {
        self.passwords.len()
    }
}

} // verus!
