use pw::StoreError;
use pw::store::Store;

fn fresh_store() -> Store {
    Store::bootstrap(":memory:", false).unwrap()
}

#[test]
fn name_exists_tracks_insertion() {
    let mut s = fresh_store();
    assert!(!s.name_exists("n"));
    s.insert("n", "", "u", "p").unwrap();
    assert!(s.name_exists("n"));
}

#[test]
fn duplicate_insert_rejected() {
    let mut s = fresh_store();
    s.insert("n", "c", "u1", "p1").unwrap();
    let r = s.insert("n", "c2", "u2", "p2");
    assert!(matches!(r, Err(StoreError::DuplicateName)));
    let v = s.list(None).unwrap();
    assert_eq!(v.len(), 1);
    assert_eq!(v[0].name.as_str(), "n");
    let c = s.get_by_name("n").unwrap();
    assert_eq!(c.category.as_str(), "c");
    assert_eq!(c.username.as_str(), "u1");
    assert_eq!(c.password.as_str(), "p1");
}

#[test]
fn get_missing_not_found() {
    let s = fresh_store();
    assert!(matches!(s.get_by_name("absent"), Err(StoreError::NotFound)));
}

#[test]
fn round_trip() {
    let mut s = fresh_store();
    s.insert("foo", "work", "alice", "secret").unwrap();
    let c = s.get_by_name("foo").unwrap();
    assert_eq!(c.name.as_str(), "foo");
    assert_eq!(c.category.as_str(), "work");
    assert_eq!(c.username.as_str(), "alice");
    assert_eq!(c.password.as_str(), "secret");
}

#[test]
fn new_twice_keeps_one_row() {
    let mut s = fresh_store();
    // first invocation of the new command: the name is free, so input is
    // collected and the row is saved
    assert!(!s.name_exists("n"));
    s.insert("n", "", "u1", "p1").unwrap();
    // the second invocation stops at the existence gate: the handler prints
    // the duplicate-name message and performs no further store access
    assert!(s.name_exists("n"));
    let v = s.list(None).unwrap();
    assert_eq!(v.len(), 1);
    assert_eq!(v[0].name.as_str(), "n");
}

#[test]
fn storage_failure_without_schema() {
    // a store opened over a database whose schema was never created
    let mut s = Store::bootstrap(":memory:", true).unwrap();
    assert!(matches!(s.insert("n", "", "u", "p"), Err(StoreError::StorageFailure)));
    assert!(matches!(s.get_by_name("n"), Err(StoreError::StorageFailure)));
    assert!(matches!(s.list(None), Err(StoreError::StorageFailure)));
    // an unreadable store reports a name as taken, so the new command
    // declines to insert rather than trusting a failed check
    assert!(s.name_exists("n"));
}

#[test]
fn bootstrap_idempotent() {
    let path = "/tmp/pw_bootstrap_idempotent.sqlite";
    // start from a file without the schema, whatever an earlier run left
    let conn = rusqlite::Connection::open(path).unwrap();
    conn.execute("DROP TABLE IF EXISTS credentials", ()).unwrap();
    drop(conn);
    let mut s = Store::bootstrap(path, false).unwrap();
    s.insert("foo", "work", "alice", "secret").unwrap();
    drop(s);
    // a second bootstrap over the already-initialized file leaves the rows
    // as they were and does not recreate the table
    let s2 = Store::bootstrap(path, true).unwrap();
    let v = s2.list(None).unwrap();
    assert_eq!(v.len(), 1);
    assert_eq!(v[0].name.as_str(), "foo");
    let c = s2.get_by_name("foo").unwrap();
    assert_eq!(c.username.as_str(), "alice");
    assert_eq!(c.password.as_str(), "secret");
}
