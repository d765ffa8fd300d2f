use nexus::natives::clock::{now_millis, sleep_millis};
use nexus::natives::stdio::strip_line_ending;

#[test]
fn sleep_only_for_positive_durations() {
    assert_eq!(sleep_millis(10), Some(10));
    assert_eq!(sleep_millis(0), None);
    assert_eq!(sleep_millis(-5), None);
}

#[test]
fn now_reports_millis_or_zero() {
    assert_eq!(now_millis(Some(1_725_029_869_000)), 1_725_029_869_000);
    assert_eq!(now_millis(None), 0);
    assert_eq!(now_millis(Some(u128::MAX)), u128::MAX as i64);
}

#[test]
fn read_line_strips_one_line_ending() {
    assert_eq!(strip_line_ending("abc\n"), "abc");
    assert_eq!(strip_line_ending("abc\r\n"), "abc");
    assert_eq!(strip_line_ending("abc"), "abc");
    assert_eq!(strip_line_ending("abc\r"), "abc\r");
    assert_eq!(strip_line_ending("a\n\n"), "a\n");
    assert_eq!(strip_line_ending(""), "");
}
