use leveldb::db::OpenError;
use leveldb::Db;
use leveldb::Options;
use leveldb::ReadOptions;

fn message(text: &[u8]) -> leveldb::String {
    leveldb::String::try_from_ptr_len(Some(text), text.len()).unwrap()
}

#[test]
fn handles_keep_their_address() {
    assert_eq!(Options::new(0x10).as_raw(), 0x10);
    assert_eq!(ReadOptions::new(usize::MAX).as_raw(), usize::MAX);
}

#[test]
fn a_path_is_terminated_for_the_engine() {
    let opening = Db::open(b"./testdb", Options::new(0x10)).unwrap();
    assert_eq!(opening.path(), b"./testdb\0");
    assert_eq!(opening.options().as_raw(), 0x10);
    let opening = Db::open(b"", Options::new(0x10)).unwrap();
    assert_eq!(opening.path(), b"\0");
}

#[test]
fn a_path_with_a_zero_byte_is_invalid() {
    assert_eq!(Db::open(b"a\0b", Options::new(0x10)).unwrap_err(), OpenError::InvalidPath);
    assert_eq!(Db::open(b"\0", Options::new(0x10)).unwrap_err(), OpenError::InvalidPath);
    assert_eq!(Db::open(b"db\0", Options::new(0x10)).unwrap_err(), OpenError::InvalidPath);
}

#[test]
fn an_engine_error_is_handed_on_unchanged() {
    let opening = Db::open(b"./missing", Options::new(0x10)).unwrap();
    let result = opening.finish(0, Some(message(b"Invalid argument: does not exist")));
    assert_eq!(
        result.unwrap_err(),
        OpenError::Engine(message(b"Invalid argument: does not exist"))
    );
    let opening = Db::open(b"./locked", Options::new(0x10)).unwrap();
    let result = opening.finish(0x20, Some(message(b"IO error: lock")));
    assert_eq!(result.unwrap_err(), OpenError::Engine(message(b"IO error: lock")));
}

#[test]
fn an_opened_database_owns_its_connection() {
    let db = Db::open(b"./testdb", Options::new(0x10)).unwrap().finish(0x20, None).unwrap();
    assert_eq!(db.as_raw(), 0x20);
    assert_eq!(db.options().as_raw(), 0x10);
}

#[test]
fn a_lookup_tells_absent_from_failed() {
    let mut db = Db::open(b"./testdb", Options::new(0x10)).unwrap().finish(0x20, None).unwrap();
    assert_eq!(db.get(None, None), Ok(None));
    assert_eq!(db.get(Some(message(b"v\0w")), None), Ok(Some(message(b"v\0w"))));
    assert_eq!(db.get(None, Some(message(b"IO error"))), Err(message(b"IO error")));
    assert_eq!(
        db.get(Some(message(b"stale")), Some(message(b"Corruption"))),
        Err(message(b"Corruption"))
    );
    assert_eq!(db.as_raw(), 0x20);
}
