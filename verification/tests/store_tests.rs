//! Schema steps, keyring answers and sorted lists.
use notion_pomodoro_tracker::collate::{sorted_distinct, text_less};
use notion_pomodoro_tracker::infrastructure::secret_store::{
    delete_token, load_token, store_token, KeyringFailure, SecretError, SERVICE, USER,
};
use notion_pomodoro_tracker::infrastructure::sqlite::{migrations, progress_result, StoreError, SCHEMA_V2};

#[test]
fn migrations_by_version() {
    assert_eq!(migrations(0).len(), 2);
    assert_eq!(migrations(1), vec![SCHEMA_V2]);
    assert!(migrations(2).is_empty());
    let conn = rusqlite::Connection::open_in_memory().unwrap();
    for step in migrations(0) {
        conn.execute_batch(step).unwrap();
    }
    let version: i64 = conn.query_row("PRAGMA user_version", [], |r| r.get(0)).unwrap();
    assert_eq!(version, 2);
    assert!(migrations(version).is_empty());
}

#[test]
fn progress_on_missing_task_is_an_error() {
    assert!(progress_result("t", 1).is_ok());
    match progress_result("t", 0) {
        Err(StoreError::Corrupt(m)) => assert_eq!(m, "task t not found"),
        _ => panic!("expected an error"),
    }
}

#[test]
fn keyring_answers() {
    let r = store_token("  tok \n");
    assert_eq!((r.service, r.user, r.secret.as_str()), (SERVICE, USER, "tok"));
    assert!(matches!(load_token(Ok("t".into())), Ok(Some(t)) if t == "t"));
    assert!(matches!(load_token(Err(KeyringFailure::NoEntry)), Ok(None)));
    assert!(matches!(load_token(Err(KeyringFailure::Other("x".into()))), Err(SecretError::Keyring(m)) if m == "x"));
    assert!(delete_token(Err(KeyringFailure::NoEntry)).is_ok());
    assert!(delete_token(Err(KeyringFailure::Other("x".into()))).is_err());
    assert_eq!(SecretError::Keyring("x".into()).message(), "keyring error: x");
}

#[test]
fn sorting_matches_str_order() {
    let items: Vec<String> = ["b", "a", "B", "ab", "a", "é", ""].iter().map(|s| s.to_string()).collect();
    let mut expected = items.clone();
    expected.sort();
    expected.dedup();
    assert_eq!(sorted_distinct(&items), expected);
    assert!(text_less("a", "ab"));
    assert!(!text_less("ab", "ab"));
    assert!(text_less("Z", "a"));
}

#[test]
fn store_errors_read_as_text() {
    let io = StoreError::Io(std::io::Error::new(std::io::ErrorKind::NotFound, "gone"));
    assert_eq!(io.message(), "i/o error: gone");
    let sq = StoreError::Sqlite(rusqlite::Error::InvalidQuery);
    assert!(sq.message().starts_with("database error: "));
    assert!(sq.message().len() > "database error: ".len());
}
