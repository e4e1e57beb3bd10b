use budget_tracker::digits::{format_value, parse_decimal};

#[test]
fn format_exact_values() {
    assert_eq!(format_value(0), "0");
    assert_eq!(format_value(7), "7");
    assert_eq!(format_value(10), "10");
    assert_eq!(format_value(42), "42");
    assert_eq!(format_value(100), "100");
    assert_eq!(format_value(201), "201");
    assert_eq!(format_value(255), "255");
}

#[test]
fn parse_valid_values() {
    assert_eq!(parse_decimal("0"), Some(0));
    assert_eq!(parse_decimal("10"), Some(10));
    assert_eq!(parse_decimal("255"), Some(255));
    assert_eq!(parse_decimal("007"), Some(7));
}

#[test]
fn parse_rejects_empty() {
    assert_eq!(parse_decimal(""), None);
}

#[test]
fn parse_rejects_out_of_range() {
    assert_eq!(parse_decimal("256"), None);
    assert_eq!(parse_decimal("300"), None);
    assert_eq!(parse_decimal("99999999999999999999"), None);
}

#[test]
fn parse_rejects_non_digits() {
    assert_eq!(parse_decimal("abc"), None);
    assert_eq!(parse_decimal("-1"), None);
    assert_eq!(parse_decimal("+5"), None);
    assert_eq!(parse_decimal(" 10"), None);
    assert_eq!(parse_decimal("10\n"), None);
    assert_eq!(parse_decimal("1x"), None);
}

#[test]
fn round_trip_every_value() {
    for v in 0..=255u8 {
        assert_eq!(parse_decimal(&format_value(v)), Some(v));
    }
}
