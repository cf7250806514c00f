use listenmoe_meta::time_parse::{parse_rfc3339_system_time, timestamp_from_reading};
use listenmoe_meta::timestamp::{Span, Timestamp};

fn at(secs: i64, nanos: u32) -> Timestamp {
    Timestamp::from_unix(secs, nanos).expect("representable")
}

fn parts(t: Timestamp) -> (i64, u32) {
    (t.unix_seconds(), t.subsec_nanos())
}

#[test]
fn epoch_is_zero() {
    assert_eq!(parts(Timestamp::epoch()), (0, 0));
}

#[test]
fn from_unix_keeps_parts() {
    assert_eq!(parts(at(1_704_067_200, 123_456_789)), (1_704_067_200, 123_456_789));
    assert_eq!(parts(at(-5, 250_000_000)), (-5, 250_000_000));
}

#[test]
fn from_unix_carries_whole_seconds_out_of_nanos() {
    assert_eq!(parts(at(10, 2_500_000_000)), (12, 500_000_000));
}

#[test]
fn from_unix_reports_overflow() {
    assert!(Timestamp::from_unix(i64::MAX, 999_999_999).is_some());
    assert!(Timestamp::from_unix(i64::MAX, 1_000_000_000).is_none());
    assert!(Timestamp::from_unix(i64::MIN, 0).is_some());
}

#[test]
fn from_epoch_offset_after_and_before() {
    assert_eq!(parts(Timestamp::from_epoch_offset(false, 7, 5)), (7, 5));
    // 1.25 s before the epoch is second -2 plus 0.75 s.
    assert_eq!(parts(Timestamp::from_epoch_offset(true, 1, 250_000_000)), (-2, 750_000_000));
    assert_eq!(parts(Timestamp::from_epoch_offset(true, 3, 0)), (-3, 0));
    assert_eq!(parts(Timestamp::from_epoch_offset(true, 0, 0)), (0, 0));
}

#[test]
fn from_epoch_offset_clamps() {
    assert_eq!(
        parts(Timestamp::from_epoch_offset(false, u64::MAX, 0)),
        (i64::MAX, 999_999_999)
    );
    assert_eq!(parts(Timestamp::from_epoch_offset(true, u64::MAX, 1)), (i64::MIN, 0));
    assert_eq!(
        parts(Timestamp::from_epoch_offset(true, (i64::MAX as u64) + 1, 0)),
        (i64::MIN, 0)
    );
    assert_eq!(
        parts(Timestamp::from_epoch_offset(true, i64::MAX as u64, 1)),
        (i64::MIN, 999_999_999)
    );
    assert_eq!(
        parts(Timestamp::from_epoch_offset(false, i64::MAX as u64, 999_999_999)),
        (i64::MAX, 999_999_999)
    );
}

#[test]
fn ordering_goes_by_the_instant() {
    let a = at(10, 5);
    let b = at(10, 6);
    let c = at(11, 0);
    let d = at(-1, 999_999_999);
    assert!(a.is_before(&b));
    assert!(b.is_before(&c));
    assert!(d.is_before(&a));
    assert!(!b.is_before(&a));
    assert!(!a.is_before(&a));
    assert!(a.is_at_or_before(&a));
    assert!(a.is_at_or_before(&b));
    assert!(!c.is_at_or_before(&b));
}

#[test]
fn add_millis_carries_into_seconds() {
    let t = at(100, 900_000_000);
    assert_eq!(parts(t.checked_add_millis(250).unwrap()), (101, 150_000_000));
    assert_eq!(parts(t.checked_add_millis(0).unwrap()), (100, 900_000_000));
    assert_eq!(parts(t.checked_add_millis(12_345).unwrap()), (113, 245_000_000));
}

#[test]
fn sub_millis_borrows_from_seconds() {
    let t = at(100, 100_000_000);
    assert_eq!(parts(t.checked_sub_millis(250).unwrap()), (99, 850_000_000));
    assert_eq!(parts(t.checked_sub_millis(100).unwrap()), (100, 0));
    assert_eq!(parts(t.checked_sub_millis(100_100).unwrap()), (0, 0));
    assert_eq!(parts(t.checked_sub_millis(101_000).unwrap()), (-1, 100_000_000));
}

#[test]
fn millis_arithmetic_reports_overflow() {
    let late = at(i64::MAX, 999_999_999);
    assert!(late.checked_add_millis(1).is_none());
    assert!(late.checked_add_millis(0).is_some());
    let early = at(i64::MIN, 0);
    assert!(early.checked_sub_millis(1).is_none());
    assert!(early.checked_sub_millis(0).is_some());
    let almost = at(i64::MAX, 0);
    assert_eq!(parts(almost.checked_add_millis(999).unwrap()), (i64::MAX, 999_000_000));
    assert!(almost.checked_add_millis(1_000).is_none());
    // The largest lag there is does not reach back past the first instant
    // from anywhere near the present.
    assert!(at(1_700_000_000, 0).checked_sub_millis(u64::MAX).is_some());
    assert!(at(i64::MIN + 1_000, 0).checked_sub_millis(u64::MAX).is_none());
}

#[test]
fn add_secs_reports_overflow() {
    let t = at(10, 7);
    assert_eq!(parts(t.checked_add_secs(240).unwrap()), (250, 7));
    assert!(t.checked_add_secs(u64::MAX).is_none());
    assert!(at(i64::MAX, 0).checked_add_secs(1).is_none());
    assert_eq!(parts(at(-10, 0).checked_add_secs(i64::MAX as u64).unwrap()), (i64::MAX - 10, 0));
}

#[test]
fn span_until_measures_forward_only() {
    let a = at(10, 900_000_000);
    let b = at(12, 100_000_000);
    assert_eq!(a.span_until(&b), Some(Span { secs: 1, nanos: 200_000_000 }));
    assert_eq!(a.span_until(&a), Some(Span { secs: 0, nanos: 0 }));
    assert_eq!(b.span_until(&a), None);
    let first = at(i64::MIN, 0);
    let last = at(i64::MAX, 999_999_999);
    assert_eq!(first.span_until(&last), Some(Span { secs: u64::MAX, nanos: 999_999_999 }));
}

#[test]
fn parses_utc_timestamp() {
    let t = parse_rfc3339_system_time("2024-01-01T00:00:00Z").unwrap();
    assert_eq!(parts(t), (1_704_067_200, 0));
}

#[test]
fn parses_the_epoch() {
    let t = parse_rfc3339_system_time("1970-01-01T00:00:00Z").unwrap();
    assert_eq!(parts(t), (0, 0));
}

#[test]
fn parses_fractional_seconds() {
    let t = parse_rfc3339_system_time("2024-01-01T00:00:00.123456789Z").unwrap();
    assert_eq!(parts(t), (1_704_067_200, 123_456_789));
    let t = parse_rfc3339_system_time("2024-01-01T00:00:00.5Z").unwrap();
    assert_eq!(parts(t), (1_704_067_200, 500_000_000));
}

#[test]
fn parses_offsets_to_the_same_instant() {
    let utc = parse_rfc3339_system_time("2024-01-01T00:00:00Z").unwrap();
    let east = parse_rfc3339_system_time("2024-01-01T09:00:00+09:00").unwrap();
    let west = parse_rfc3339_system_time("2023-12-31T19:00:00-05:00").unwrap();
    assert_eq!(parts(east), parts(utc));
    assert_eq!(parts(west), parts(utc));
}

#[test]
fn parses_timestamps_before_the_epoch() {
    let t = parse_rfc3339_system_time("1969-12-31T23:59:59.25Z").unwrap();
    assert_eq!(parts(t), (-1, 250_000_000));
}

#[test]
fn malformed_timestamps_give_no_value() {
    assert!(parse_rfc3339_system_time("").is_none());
    assert!(parse_rfc3339_system_time("not a time").is_none());
    assert!(parse_rfc3339_system_time("2024-01-01").is_none());
    assert!(parse_rfc3339_system_time("2024-01-01T00:00:00").is_none());
    assert!(parse_rfc3339_system_time("2024-13-01T00:00:00Z").is_none());
    assert!(parse_rfc3339_system_time("2024-01-32T00:00:00Z").is_none());
    assert!(parse_rfc3339_system_time("2024-01-01T25:00:00Z").is_none());
    assert!(parse_rfc3339_system_time("2024-01-01T00:00:00Z trailing").is_none());
    assert!(parse_rfc3339_system_time("1704067200").is_none());
}

#[test]
fn reading_becomes_timestamp() {
    assert_eq!(parts(timestamp_from_reading(Some((42, 7))).unwrap()), (42, 7));
    assert!(timestamp_from_reading(None).is_none());
    assert!(timestamp_from_reading(Some((i64::MAX, 1_000_000_000))).is_none());
}

#[test]
fn parsed_instant_survives_rebuilding_from_its_parts() {
    let t = parse_rfc3339_system_time("2024-06-15T12:34:56.789Z").unwrap();
    let again = Timestamp::from_unix(t.unix_seconds(), t.subsec_nanos()).unwrap();
    assert_eq!(parts(again), parts(t));
    assert_eq!(parts(t), (1_718_454_896, 789_000_000));
}
