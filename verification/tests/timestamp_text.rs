//! The stored timestamp text form: writing, reading, and their round trip.

use todo_store::timestamp::{ClockFields, Timestamp, format_rfc3339, parse_rfc3339};

fn ts(
    year: u16,
    month: u8,
    day: u8,
    hour: u8,
    minute: u8,
    second: u8,
    offset_minutes: i32,
) -> Timestamp {
    Timestamp { year, month, day, hour, minute, second, offset_minutes }
}

#[test]
fn format_positive_offset() {
    let t = ts(2024, 1, 2, 3, 4, 5, 540);
    assert_eq!(format_rfc3339(&t), "2024-01-02T03:04:05+09:00");
}

#[test]
fn format_negative_offset() {
    let t = ts(1999, 12, 31, 23, 59, 58, -330);
    assert_eq!(format_rfc3339(&t), "1999-12-31T23:59:58-05:30");
}

#[test]
fn format_zero_offset() {
    let t = ts(0, 1, 1, 0, 0, 0, 0);
    assert_eq!(format_rfc3339(&t), "0000-01-01T00:00:00+00:00");
}

#[test]
fn parse_recovers_written_value() {
    let t = ts(2024, 6, 15, 12, 30, 45, 120);
    let s = format_rfc3339(&t);
    assert_eq!(parse_rfc3339(&s), Some(t));
}

#[test]
fn parse_recovers_negative_offset() {
    let t = ts(2001, 2, 3, 4, 5, 6, -1439);
    let s = format_rfc3339(&t);
    assert_eq!(format_rfc3339(&t), "2001-02-03T04:05:06-23:59");
    assert_eq!(parse_rfc3339(&s), Some(t));
}

#[test]
fn parse_zulu_means_zero_offset() {
    let t = parse_rfc3339("2024-01-02T03:04:05Z").unwrap();
    assert_eq!(t, ts(2024, 1, 2, 3, 4, 5, 0));
}

#[test]
fn parse_explicit_numeric_offset() {
    let t = parse_rfc3339("2024-01-02T03:04:05-08:15").unwrap();
    assert_eq!(t, ts(2024, 1, 2, 3, 4, 5, -495));
}

#[test]
fn parse_rejects_malformed_text() {
    assert_eq!(parse_rfc3339(""), None);
    assert_eq!(parse_rfc3339("not a timestamp"), None);
    assert_eq!(parse_rfc3339("2024-01-02"), None);
    assert_eq!(parse_rfc3339("2024-01-02 03:04:05+09:00"), None);
    assert_eq!(parse_rfc3339("2024-01-02T03:04:05"), None);
    assert_eq!(parse_rfc3339("2024-01-02T03:04:05.123+09:00"), None);
    assert_eq!(parse_rfc3339("2024-01-02T03:04:05+0900"), None);
}

#[test]
fn parse_rejects_out_of_range_fields() {
    assert_eq!(parse_rfc3339("2024-13-02T03:04:05Z"), None);
    assert_eq!(parse_rfc3339("2024-00-02T03:04:05Z"), None);
    assert_eq!(parse_rfc3339("2024-01-32T03:04:05Z"), None);
    assert_eq!(parse_rfc3339("2024-01-00T03:04:05Z"), None);
    assert_eq!(parse_rfc3339("2024-01-02T24:04:05Z"), None);
    assert_eq!(parse_rfc3339("2024-01-02T03:60:05Z"), None);
    assert_eq!(parse_rfc3339("2024-01-02T03:04:60Z"), None);
    assert_eq!(parse_rfc3339("2024-01-02T03:04:05+24:00"), None);
    assert_eq!(parse_rfc3339("2024-01-02T03:04:05+09:60"), None);
}

#[test]
fn parse_respects_calendar_month_lengths() {
    assert!(parse_rfc3339("2024-02-29T00:00:00Z").is_some());
    assert!(parse_rfc3339("2000-02-29T00:00:00Z").is_some());
    assert_eq!(parse_rfc3339("2023-02-29T00:00:00Z"), None);
    assert_eq!(parse_rfc3339("1900-02-29T00:00:00Z"), None);
    assert_eq!(parse_rfc3339("2024-02-30T00:00:00Z"), None);
    assert_eq!(parse_rfc3339("2024-04-31T00:00:00Z"), None);
    assert!(parse_rfc3339("2024-04-30T00:00:00Z").is_some());
    assert!(parse_rfc3339("2024-12-31T00:00:00Z").is_some());
}

#[test]
fn clock_reading_in_range_converts() {
    let c = ClockFields {
        year: 2024,
        month: 6,
        day: 15,
        hour: 12,
        minute: 30,
        second: 45,
        offset_seconds: 9 * 3600,
    };
    let t = Timestamp::from_clock(&c).unwrap();
    assert_eq!(t, ts(2024, 6, 15, 12, 30, 45, 540));
}

#[test]
fn clock_reading_out_of_range_is_rejected() {
    let mut c = ClockFields {
        year: 10000,
        month: 6,
        day: 15,
        hour: 12,
        minute: 30,
        second: 45,
        offset_seconds: 0,
    };
    assert_eq!(Timestamp::from_clock(&c), None);
    c.year = -1;
    assert_eq!(Timestamp::from_clock(&c), None);
    c.year = 2024;
    c.month = 13;
    assert_eq!(Timestamp::from_clock(&c), None);
    c.month = 2;
    c.day = 30;
    assert_eq!(Timestamp::from_clock(&c), None);
    c.day = 29;
    assert!(Timestamp::from_clock(&c).is_some());
}

#[test]
fn clock_offset_truncates_toward_zero() {
    let c = ClockFields {
        year: 2024,
        month: 1,
        day: 1,
        hour: 0,
        minute: 0,
        second: 0,
        offset_seconds: -(5 * 3600 + 30 * 60 + 59),
    };
    let t = Timestamp::from_clock(&c).unwrap();
    assert_eq!(t.offset_minutes, -330);
}
