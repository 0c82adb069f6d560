use tempcheck::time::{Timestamp, MAX_TIMESTAMP_SECS, MIN_TIMESTAMP_SECS};

#[test]
fn from_unix_checks_range_and_leap_seconds() {
    assert!(Timestamp::from_unix(MIN_TIMESTAMP_SECS, 0).is_some());
    assert!(Timestamp::from_unix(MIN_TIMESTAMP_SECS - 1, 0).is_none());
    assert!(Timestamp::from_unix(MAX_TIMESTAMP_SECS, 999_999_999).is_some());
    assert!(Timestamp::from_unix(MAX_TIMESTAMP_SECS + 1, 0).is_none());
    assert!(Timestamp::from_unix(59, 1_500_000_000).is_some());
    assert!(Timestamp::from_unix(58, 1_500_000_000).is_none());
    assert!(Timestamp::from_unix(-1, 1_000_000_000).is_some());
    assert!(Timestamp::from_unix(59, 2_000_000_000).is_none());
}

#[test]
fn bounds_agree_with_chrono_formatting() {
    let min = Timestamp::from_unix(MIN_TIMESTAMP_SECS, 0).unwrap();
    assert!(min.to_rfc3339().starts_with("-262143-01-01T00:00:00"));
    let max = Timestamp::from_unix(MAX_TIMESTAMP_SECS, 0).unwrap();
    assert!(max.to_rfc3339().starts_with("+262142-12-31T23:59:59"));
}

#[test]
fn parse_and_format_round_trip() {
    let t = Timestamp::parse_rfc3339("2025-06-15T12:30:45.5+02:00").unwrap();
    assert_eq!(t.to_rfc3339(), "2025-06-15T10:30:45.500+00:00");
    assert!(Timestamp::parse_rfc3339("2025-13-01T00:00:00Z").is_none());
}

#[test]
fn leap_second_is_kept_and_subtraction_leaves_it() {
    let t = Timestamp::parse_rfc3339("2016-12-31T23:59:60Z").unwrap();
    assert_eq!(t.subsec_nanos(), 1_000_000_000);
    assert_eq!(t.unix_secs() % 60, 59);
    let earlier = t.minus_hours(1);
    assert_eq!(earlier.unix_secs(), t.unix_secs() + 1 - 3600);
    assert_eq!(earlier.subsec_nanos(), 0);
    assert!(earlier.is_before(&t));
}

#[test]
fn now_is_after_the_epoch() {
    let now = Timestamp::now().unwrap();
    assert!(now.unix_secs() > 1_600_000_000);
    assert!(now.subsec_nanos() < 1_000_000_000);
}

#[test]
fn clock_readings_become_instants_within_range() {
    assert_eq!(Timestamp::from_clock(0, 0), Some(Timestamp::epoch()));
    assert_eq!(Timestamp::from_clock(59, 1_500_000_000).map(|t| t.subsec_nanos()), Some(1_500_000_000));
    assert!(Timestamp::from_clock(58, 1_500_000_000).is_none());
    assert!(Timestamp::from_clock(MAX_TIMESTAMP_SECS as u64, 0).is_some());
    assert!(Timestamp::from_clock(MAX_TIMESTAMP_SECS as u64 + 1, 0).is_none());
    assert!(Timestamp::from_clock(u64::MAX, 0).is_none());
}
