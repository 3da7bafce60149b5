use kalgan_cache::cache::{check_key, open, Cache, Fatal};
use kalgan_cache::diagnostic::{Diagnostic, Level};
use kalgan_cache::store::{Del, Put, Read, StoreError};

const ADDRESS: &str = "redis://127.0.0.1/";

fn cache() -> Cache<()> {
    Cache::new(ADDRESS.to_string(), Ok(())).unwrap()
}

fn failure(category: &str, detail: &str) -> StoreError {
    StoreError { category: category.to_string(), detail: detail.to_string() }
}

fn open_line() -> Diagnostic {
    Diagnostic { level: Level::Error, message: "Could not open Redis Service.".to_string() }
}

fn connect_line() -> Diagnostic {
    Diagnostic { level: Level::Error, message: "Could not connect with Redis Service.".to_string() }
}

#[test]
fn new_makes_a_client_that_owns_the_connection() {
    let mut made = Cache::new(ADDRESS.to_string(), Ok(vec![7u8, 9u8])).unwrap();
    assert_eq!(*made.connection(), vec![7u8, 9u8]);
    made.connection().push(11);
    assert_eq!(*made.connection(), vec![7u8, 9u8, 11u8]);
}

#[test]
fn new_makes_no_client_where_the_store_was_not_reached() {
    let made: Result<Cache<()>, Fatal> = Cache::new(
        ADDRESS.to_string(),
        Err(failure("I/O error", "Connection refused (os error 111)")),
    );
    match made {
        Ok(_) => panic!("made"),
        Err(fatal) => {
            assert_eq!(fatal.note, connect_line());
            assert_eq!(fatal.reason, "Connection refused (os error 111)");
        }
    }
}

#[test]
fn new_makes_no_client_for_what_is_no_address() {
    match Cache::new("not an address".to_string(), Ok(())) {
        Ok(_) => panic!("made"),
        Err(fatal) => {
            assert_eq!(fatal.note, open_line());
            assert_eq!(fatal.reason, "Redis URL did not parse");
        }
    }
}

#[test]
fn new_reports_the_address_before_the_connection() {
    let made: Result<Cache<()>, Fatal> =
        Cache::new("http://127.0.0.1/".to_string(), Err(failure("I/O error", "timed out")));
    match made {
        Ok(_) => panic!("made"),
        Err(fatal) => {
            assert_eq!(fatal.note, open_line());
            assert_eq!(fatal.reason, "Redis URL did not parse");
        }
    }
}

#[test]
fn insert_asks_for_one_put() {
    assert_eq!(cache().insert("test", "1"), Put { key: "test".to_string(), value: "1" });
}

#[test]
fn insert_keeps_key_and_value_apart() {
    assert_eq!(
        cache().insert("", "value with spaces"),
        Put { key: String::new(), value: "value with spaces" }
    );
    assert_ne!(cache().insert("a", "b"), Put { key: "b".to_string(), value: "a" });
}

#[test]
fn insert_hands_on_a_value_of_any_type() {
    assert_eq!(cache().insert("n", 42), Put { key: "n".to_string(), value: 42 });
    assert_eq!(cache().insert("n", -7i64), Put { key: "n".to_string(), value: -7i64 });
    assert_eq!(
        cache().insert("s", "owned".to_string()),
        Put { key: "s".to_string(), value: "owned".to_string() }
    );
    assert_eq!(
        cache().insert("b", vec![0u8, 255u8]),
        Put { key: "b".to_string(), value: vec![0u8, 255u8] }
    );
}

#[test]
fn delete_asks_for_one_del() {
    assert_eq!(cache().delete("test"), Del { key: "test".to_string() });
}

#[test]
fn read_asks_for_the_key() {
    assert_eq!(cache().read("test"), Read { key: "test".to_string() });
}

#[test]
fn inserted_logs_success_at_debug() {
    assert_eq!(
        cache().inserted("test", Ok(())),
        Diagnostic { level: Level::Debug, message: "Key 'test' added to Redis.".to_string() }
    );
}

#[test]
fn inserted_logs_failure_category_at_error() {
    assert_eq!(
        cache().inserted("test", Err(failure("I/O error", "broken pipe"))),
        Diagnostic { level: Level::Error, message: "I/O error".to_string() }
    );
}

#[test]
fn deleted_logs_success_at_debug() {
    assert_eq!(
        cache().deleted("test", Ok(())),
        Diagnostic { level: Level::Debug, message: "Key 'test' delete from Redis.".to_string() }
    );
}

#[test]
fn deleted_logs_failure_category_at_error() {
    assert_eq!(
        cache().deleted("test", Err(failure("read-only", "READONLY: replica"))),
        Diagnostic { level: Level::Error, message: "read-only".to_string() }
    );
}

#[test]
fn key_exists_when_reply_shows_value() {
    assert_eq!(cache().key_exists("test", Ok(Some("1".to_string()))), (true, vec![]));
    assert_eq!(cache().key_exists("test", Ok(Some(String::new()))), (true, vec![]));
}

#[test]
fn key_does_not_exist_when_reply_shows_none() {
    assert_eq!(cache().key_exists("test", Ok(None)), (false, vec![]));
}

#[test]
fn key_does_not_exist_when_read_failed_and_warns_twice() {
    let (found, notes) = cache().key_exists("test", Err(failure("I/O error", "timed out")));
    assert!(!found);
    assert_eq!(
        notes,
        vec![
            Diagnostic { level: Level::Warn, message: "timed out".to_string() },
            Diagnostic { level: Level::Warn, message: "Key test Not found in Cache.".to_string() },
        ]
    );
}

#[test]
fn get_returns_value_without_notes() {
    let (value, notes) = cache().get("test", Ok(Some("1".to_string())));
    assert_eq!(value, Some("1".to_string()));
    assert!(notes.is_empty());
}

#[test]
fn get_returns_absence_without_notes() {
    let (value, notes) = cache().get("test", Ok(None));
    assert_eq!(value, None);
    assert!(notes.is_empty());
}

#[test]
fn get_takes_failed_read_for_absence_and_warns_twice() {
    let (value, notes) = cache().get("test", Err(failure("type error", "type error: not a string")));
    assert_eq!(value, None);
    assert_eq!(
        notes,
        vec![
            Diagnostic { level: Level::Warn, message: "type error: not a string".to_string() },
            Diagnostic { level: Level::Warn, message: "Key test Not found in Cache.".to_string() },
        ]
    );
}

#[test]
fn check_key_reports_found_and_not_found() {
    let conn = cache();
    assert_eq!(check_key(&conn, "test", Ok(Some("1".to_string()))), ("Key Found.", vec![]));
    assert_eq!(check_key(&conn, "test", Ok(None)), ("Key Not Found.", vec![]));
}

#[test]
fn check_key_reports_a_failed_read_as_not_found_and_hands_on_the_warnings() {
    let (report, notes) = check_key(&cache(), "test", Err(failure("I/O error", "reset")));
    assert_eq!(report, "Key Not Found.");
    assert_eq!(
        notes,
        vec![
            Diagnostic { level: Level::Warn, message: "reset".to_string() },
            Diagnostic { level: Level::Warn, message: "Key test Not found in Cache.".to_string() },
        ]
    );
}

#[test]
fn open_accepts_a_store_address() {
    assert!(open(ADDRESS).is_ok());
    assert!(open("redis://cache.example:6380/2").is_ok());
}

#[test]
fn open_refuses_what_is_no_address() {
    match open("not an address") {
        Ok(_) => panic!("accepted"),
        Err(fatal) => {
            assert_eq!(fatal.note, open_line());
            assert_eq!(fatal.reason, "Redis URL did not parse");
        }
    }
}

#[test]
fn open_refuses_another_scheme() {
    assert!(open("http://127.0.0.1/").is_err());
}

#[test]
fn refused_keeps_the_description() {
    assert_eq!(
        Fatal::refused(failure("invalid client config", "Missing hostname")),
        Fatal { note: open_line(), reason: "Missing hostname".to_string() }
    );
}

#[test]
fn unreachable_keeps_the_description() {
    assert_eq!(
        Fatal::unreachable(failure("I/O error", "Connection refused (os error 111)")),
        Fatal { note: connect_line(), reason: "Connection refused (os error 111)".to_string() }
    );
}

#[test]
fn get_connection_hands_on_a_connection_that_was_made() {
    assert_eq!(Cache::get_connection(Ok("live")), Ok("live"));
}

#[test]
fn get_connection_ends_on_failure() {
    let settled: Result<(), Fatal> =
        Cache::get_connection(Err(failure("I/O error", "Connection refused (os error 111)")));
    assert_eq!(
        settled,
        Err(Fatal { note: connect_line(), reason: "Connection refused (os error 111)".to_string() })
    );
}

#[test]
fn store_error_keeps_category_and_description() {
    let outside = redis::RedisError::from((redis::ErrorKind::TypeError, "not a string"));
    let error = StoreError::from_redis(&outside);
    assert_eq!(error.category, "type error");
    assert_eq!(error.detail, "not a string");
}

#[test]
fn store_error_keeps_detail_of_description() {
    let outside = redis::RedisError::from((
        redis::ErrorKind::ResponseError,
        "An error was signalled by the server",
        "WRONGTYPE".to_string(),
    ));
    let error = StoreError::from_redis(&outside);
    assert_eq!(error.category, "response error");
    assert_eq!(error.detail, "An error was signalled by the server: WRONGTYPE");
}
