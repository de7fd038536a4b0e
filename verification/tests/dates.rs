use bookshelf::dates::{read_date, show_date};
use bookshelf::models::Timestamp;

#[test]
fn a_date_is_read_in_the_fixed_pattern() {
    assert_eq!(read_date("2024-01-01 00:00:00"), Some(Timestamp { secs: 1704067200, nanos: 0 }));
    assert_eq!(read_date("2015-09-05 23:56:04"), Some(Timestamp { secs: 1441497364, nanos: 0 }));
    assert_eq!(read_date("1970-01-01 00:00:00"), Some(Timestamp { secs: 0, nanos: 0 }));
    assert_eq!(read_date("1969-12-31 23:59:59"), Some(Timestamp { secs: -1, nanos: 0 }));
}

#[test]
fn what_is_no_date_reads_as_nothing() {
    assert_eq!(read_date(""), None);
    assert_eq!(read_date("yesterday"), None);
    assert_eq!(read_date("2024-01-01"), None);
    assert_eq!(read_date("2024-13-01 00:00:00"), None);
    assert_eq!(read_date("2024-02-30 00:00:00"), None);
    assert_eq!(read_date("2024-01-01 24:00:00"), None);
    assert_eq!(read_date("2024-01-01 00:00:00 and more"), None);
}

#[test]
fn a_date_is_shown_in_the_fixed_pattern() {
    assert_eq!(show_date(Some(Timestamp { secs: 1704067200, nanos: 0 })), "2024-01-01 00:00:00");
    assert_eq!(show_date(Some(Timestamp { secs: 1709209845, nanos: 0 })), "2024-02-29 12:30:45");
    assert_eq!(show_date(Some(Timestamp { secs: 1709209845, nanos: 999_999_999 })), "2024-02-29 12:30:45");
    assert_eq!(show_date(Some(Timestamp { secs: -1, nanos: 0 })), "1969-12-31 23:59:59");
}

#[test]
fn no_date_is_shown_as_nothing() {
    assert_eq!(show_date(None), "");
}

#[test]
fn a_time_beyond_the_calendar_is_shown_as_nothing() {
    assert_eq!(show_date(Some(Timestamp { secs: i64::MAX, nanos: 0 })), "");
    assert_eq!(show_date(Some(Timestamp { secs: 0, nanos: 2_000_000_000 })), "");
}

#[test]
fn what_is_shown_reads_back_as_the_same_date() {
    let at = Timestamp { secs: 1441497364, nanos: 0 };
    assert_eq!(read_date(&show_date(Some(at))), Some(at));
}

#[test]
fn timestamps_are_ordered_by_seconds_then_nanoseconds() {
    let a = Timestamp { secs: 5, nanos: 10 };
    let b = Timestamp { secs: 5, nanos: 11 };
    let c = Timestamp { secs: 6, nanos: 0 };
    assert!(a.is_not_after(&b));
    assert!(!b.is_not_after(&a));
    assert!(b.is_not_after(&c));
    assert!(!c.is_not_after(&a));
    assert!(a.is_not_after(&a));
}
