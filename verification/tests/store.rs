use helsafe::{Database, Helsafe, Password, VaultError};

fn record(title: &str, username: &str, password: &str, email: &str) -> Password {
    Password::new(
        title.to_string(),
        username.to_string(),
        password.to_string(),
        email.to_string(),
        String::new(),
        String::new(),
        String::new(),
    )
}

#[test]
fn empty_store_insert_then_delete_scenario() {
    let mut session = Helsafe::new(":memory:", "hunter2").unwrap();
    assert_eq!(session.len(), 0);

    let id = session
        .insert(&record("Bank", "alice", "p1", ""))
        .unwrap();
    assert_eq!(id, 1);

    let loaded = session.get_passwords();
    assert_eq!(loaded.len(), 1);
    assert_eq!(loaded[0].id, 1);
    assert_eq!(loaded[0].entry.title, "Bank");
    assert_eq!(loaded[0].entry.username, "alice");
    assert_eq!(loaded[0].entry.password, "p1");
    assert_eq!(loaded[0].entry.email, "");

    let removed = session.delete(0).unwrap();
    assert_eq!(removed.id, 1);
    assert_eq!(removed.entry.title, "Bank");
    assert_eq!(session.get_passwords().len(), 0);
}

#[test]
fn insert_assigns_fresh_distinct_ids() {
    let mut db = Database::new(":memory:", "key").unwrap();
    let a = db.insert(&record("One", "u1", "s1", "e1")).unwrap();
    let b = db.insert(&record("Two", "u2", "s2", "e2")).unwrap();
    assert_ne!(a, b);

    let rows = db.load_passwords().unwrap();
    assert_eq!(rows.len(), 2);
    assert_eq!(rows[0].id, a);
    assert_eq!(rows[0].entry.title, "One");
    assert_eq!(rows[1].id, b);
    assert_eq!(rows[1].entry.title, "Two");
}

#[test]
fn fresh_id_distinct_even_after_delete() {
    let mut db = Database::new(":memory:", "key").unwrap();
    let a = db.insert(&record("One", "", "", "")).unwrap();
    let b = db.insert(&record("Two", "", "", "")).unwrap();
    let gone = db.delete(b).unwrap();
    assert_eq!(gone, 1);
    let c = db.insert(&record("Three", "", "", "")).unwrap();
    assert_ne!(c, a);
    assert_ne!(c, b);
    let rows = db.load_passwords().unwrap();
    assert_eq!(rows.len(), 2);
    assert_eq!(rows[0].id, a);
    assert_eq!(rows[1].id, c);
}

#[test]
fn delete_removes_exactly_the_addressed_record() {
    let mut session = Helsafe::new(":memory:", "key").unwrap();
    session.insert(&record("One", "", "", "")).unwrap();
    let middle = session.insert(&record("Two", "", "", "")).unwrap();
    session.insert(&record("Three", "", "", "")).unwrap();

    let removed = session.delete(1).unwrap();
    assert_eq!(removed.id, middle);

    let left = session.get_passwords();
    assert_eq!(left.len(), 2);
    assert!(left.iter().all(|p| p.id != middle));
    assert_eq!(left[0].entry.title, "One");
    assert_eq!(left[1].entry.title, "Three");
}

#[test]
fn delete_out_of_range_fails_and_changes_nothing() {
    let mut session = Helsafe::new(":memory:", "key").unwrap();
    session.insert(&record("Only", "u", "s", "e")).unwrap();

    let before: Vec<(i64, String)> = session
        .get_passwords()
        .iter()
        .map(|p| (p.id, p.entry.title.clone()))
        .collect();

    let r = session.delete(1);
    assert!(matches!(r, Err(VaultError::InvalidIndex)));

    session.reload().unwrap();
    let after: Vec<(i64, String)> = session
        .get_passwords()
        .iter()
        .map(|p| (p.id, p.entry.title.clone()))
        .collect();
    assert_eq!(before, after);
}

#[test]
fn update_replaces_fields_and_keeps_id() {
    let mut session = Helsafe::new(":memory:", "key").unwrap();
    let id = session.insert(&record("Old", "u", "s", "e")).unwrap();
    session
        .update(0, &record("New", "u2", "s2", "e2"))
        .unwrap();
    let rows = session.get_passwords();
    assert_eq!(rows.len(), 1);
    assert_eq!(rows[0].id, id);
    assert_eq!(rows[0].entry.title, "New");
    assert_eq!(rows[0].entry.username, "u2");

    let r = session.update(3, &record("X", "", "", ""));
    assert!(matches!(r, Err(VaultError::InvalidIndex)));
}

#[test]
fn reload_recovers_the_store_contents() {
    let mut session = Helsafe::new(":memory:", "key").unwrap();
    session.insert(&record("Keep", "u", "s", "e")).unwrap();
    session.reload().unwrap();
    let rows = session.get_passwords();
    assert_eq!(rows.len(), 1);
    assert_eq!(rows[0].entry.title, "Keep");
}

#[test]
fn opening_a_foreign_container_is_an_auth_failure() {
    // A plain text file is no valid container for any passphrase: the
    // key check must fail as an authentication failure, not as an I/O
    // failure, and the file is left untouched.
    let r = Database::new("/etc/os-release", "whatever");
    assert!(matches!(r, Err(VaultError::AuthFailure)));
}

#[test]
fn an_unopenable_path_is_an_io_failure() {
    let r = Database::new("/", "whatever");
    assert!(matches!(r, Err(VaultError::IOFailure)));
}

#[test]
fn reopening_with_the_wrong_passphrase_is_an_auth_failure() {
    let nanos = std::time::SystemTime::now()
        .duration_since(std::time::UNIX_EPOCH)
        .unwrap()
        .as_nanos();
    let path = format!("/tmp/helsafe_test_reopen_{}.db", nanos);

    {
        let mut session = Helsafe::new(&path, "right horse battery").unwrap();
        session.insert(&record("Bank", "alice", "p1", "")).unwrap();
    }

    // The wrong passphrase must fail as an authentication failure before
    // any schema or data operation, never as an I/O failure.
    let wrong = Helsafe::new(&path, "wrong passphrase");
    assert!(matches!(wrong, Err(VaultError::AuthFailure)));

    // The right passphrase still opens the store, record intact.
    let session = Helsafe::new(&path, "right horse battery").unwrap();
    assert_eq!(session.get_passwords().len(), 1);
    assert_eq!(session.get_passwords()[0].entry.title, "Bank");
}

#[test]
fn store_update_fails_when_the_id_is_absent() {
    let mut db = Database::new(":memory:", "key").unwrap();
    let id = db.insert(&record("One", "", "", "")).unwrap();

    let r = db.update(id + 1, &record("X", "", "", ""));
    assert!(matches!(r, Err(VaultError::WriteFailure)));
    let rows = db.load_passwords().unwrap();
    assert_eq!(rows.len(), 1);
    assert_eq!(rows[0].entry.title, "One");

    db.update(id, &record("New", "u2", "s2", "e2")).unwrap();
    let rows = db.load_passwords().unwrap();
    assert_eq!(rows[0].id, id);
    assert_eq!(rows[0].entry.title, "New");
    assert_eq!(rows[0].entry.username, "u2");
}

#[test]
fn each_failure_class_has_its_line() {
    assert_eq!(
        VaultError::AuthFailure.describe(),
        "passphrase is not valid for this store"
    );
    assert_eq!(
        VaultError::IOFailure.describe(),
        "the store file could not be created or read"
    );
    assert_eq!(
        VaultError::WriteFailure.describe(),
        "the store rejected the change"
    );
    assert_eq!(
        VaultError::InvalidIndex.describe(),
        "no record stands at that position"
    );
}

#[test]
fn empty_fields_are_valid_values() {
    let mut session = Helsafe::new(":memory:", "key").unwrap();
    let id = session.insert(&record("", "", "", "")).unwrap();
    assert_eq!(id, 1);
    let rows = session.get_passwords();
    assert_eq!(rows[0].entry.title, "");
    assert_eq!(rows[0].entry.notes, "");
}
