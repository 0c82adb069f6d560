use tempcheck::collector::CollectorError;
use tempcheck::storage::StoreError;
use tempcheck::time::Timestamp;
use tempcheck::web::{history_request, history_window, map_collector_error, map_store_error, ApiStatus};

#[test]
fn history_validates_hours() {
    let err = history_request(Some(0)).unwrap_err();
    assert_eq!(err.status, ApiStatus::BadRequest);
    assert!(err.message.contains("hours must be between"));
    assert!(history_request(Some(721)).is_err());
    assert!(history_request(Some(-5)).is_err());
}

#[test]
fn history_window_spans_the_requested_hours() {
    let now = Timestamp::from_unix(10_000_000, 5).unwrap();
    let (from, to) = history_window(None, now).unwrap();
    assert_eq!(to, now);
    assert_eq!(from.unix_secs(), 10_000_000 - 24 * 3600);
    assert_eq!(from.subsec_nanos(), 5);
    let (from, _) = history_window(Some(720), now).unwrap();
    assert_eq!(from.unix_secs(), 10_000_000 - 720 * 3600);
    let (from, _) = history_window(Some(1), now).unwrap();
    assert_eq!(from.unix_secs(), 10_000_000 - 3600);
}

#[test]
fn history_request_ends_now() {
    let (from, to) = history_request(Some(6)).unwrap();
    assert!(from.is_before(&to));
    assert_eq!(to.unix_secs() - from.unix_secs(), 6 * 3600);
}

#[test]
fn store_errors_map_to_statuses() {
    let e = map_store_error(StoreError::InvalidRange);
    assert_eq!(e.status, ApiStatus::BadRequest);
    assert_eq!(e.message, "invalid time range: start must be before end");
    let e = map_store_error(StoreError::RowLimitExceeded);
    assert_eq!(e.status, ApiStatus::BadRequest);
    let e = map_store_error(StoreError::Db("locked".to_string()));
    assert_eq!(e.status, ApiStatus::InternalServerError);
    assert_eq!(e.message, "locked");
}

#[test]
fn current_returns_internal_error_on_collector_failure() {
    let e = map_collector_error(&CollectorError::Io("mock failure".to_string()));
    assert_eq!(e.status, ApiStatus::InternalServerError);
}
