use counter_demo::digits::format_decimal;
use counter_demo::digits::increment_text;
use counter_demo::digits::parse_decimal;

#[test]
fn parse_counter_initial() {
    assert_eq!(parse_decimal("10000"), Some(10000));
}

#[test]
fn parse_zero() {
    assert_eq!(parse_decimal("0"), Some(0));
}

#[test]
fn parse_accepts_leading_zeros() {
    assert_eq!(parse_decimal("0019"), Some(19));
}

#[test]
fn parse_max() {
    assert_eq!(parse_decimal("2147483647"), Some(i32::MAX));
}

#[test]
fn parse_rejects_empty() {
    assert_eq!(parse_decimal(""), None);
}

#[test]
fn parse_rejects_non_digits() {
    assert_eq!(parse_decimal("12a4"), None);
    assert_eq!(parse_decimal("-5"), None);
    assert_eq!(parse_decimal(" 12"), None);
}

#[test]
fn parse_rejects_overflow() {
    assert_eq!(parse_decimal("2147483648"), None);
    assert_eq!(parse_decimal("99999999999999999999"), None);
}

#[test]
fn format_zero() {
    assert_eq!(format_decimal(0), "0");
}

#[test]
fn format_expected_round_result() {
    assert_eq!(format_decimal(20000), "20000");
}

#[test]
fn format_max() {
    assert_eq!(format_decimal(i32::MAX), "2147483647");
}

#[test]
fn format_then_parse_round_trips() {
    for n in [0, 1, 9, 10, 99, 100, 10000, 19999, 20000, i32::MAX] {
        assert_eq!(parse_decimal(&format_decimal(n)), Some(n));
    }
}

#[test]
fn increment_counter_text() {
    assert_eq!(increment_text("10000").as_deref(), Some("10001"));
}

#[test]
fn increment_canonicalizes() {
    assert_eq!(increment_text("0019").as_deref(), Some("20"));
}

#[test]
fn increment_rejects_non_numeric() {
    assert_eq!(increment_text("ten"), None);
    assert_eq!(increment_text(""), None);
}

#[test]
fn increment_rejects_max() {
    assert_eq!(increment_text("2147483647"), None);
}
