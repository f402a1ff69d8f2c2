use debug_gui::Num;

#[test]
fn format_integer_values() {
    assert_eq!(Num::from_milli(0).to_decimal(), "0");
    assert_eq!(Num::from_milli(1000).to_decimal(), "1");
    assert_eq!(Num::from_milli(-12_000).to_decimal(), "-12");
    assert_eq!(Num::from_milli(42_000).to_decimal(), "42");
}

#[test]
fn format_fractional_values() {
    assert_eq!(Num::from_milli(3500).to_decimal(), "3.5");
    assert_eq!(Num::from_milli(120).to_decimal(), "0.12");
    assert_eq!(Num::from_milli(1).to_decimal(), "0.001");
    assert_eq!(Num::from_milli(-500).to_decimal(), "-0.5");
    assert_eq!(Num::from_milli(2500).to_decimal(), "2.5");
    assert_eq!(Num::from_milli(1001).to_decimal(), "1.001");
}

#[test]
fn format_largest_value() {
    assert_eq!(
        Num::from_milli(999_999_999_999_999).to_decimal(),
        "999999999999.999"
    );
}

#[test]
fn parse_plain_numerals() {
    assert_eq!(Num::parse_decimal("3.5").unwrap().milli(), 3500);
    assert_eq!(Num::parse_decimal("-12").unwrap().milli(), -12_000);
    assert_eq!(Num::parse_decimal("0").unwrap().milli(), 0);
    assert_eq!(Num::parse_decimal("2.5").unwrap().milli(), 2500);
    assert_eq!(Num::parse_decimal("0.001").unwrap().milli(), 1);
}

#[test]
fn parse_tolerates_trailing_dot() {
    assert_eq!(Num::parse_decimal("3.").unwrap().milli(), 3000);
}

#[test]
fn parse_accepts_leading_dot() {
    assert_eq!(Num::parse_decimal(".5").unwrap().milli(), 500);
    assert_eq!(Num::parse_decimal("-.25").unwrap().milli(), -250);
}

#[test]
fn parse_truncates_extra_fraction_digits() {
    assert_eq!(Num::parse_decimal("3.14159").unwrap().milli(), 3141);
    assert_eq!(Num::parse_decimal("0.9999").unwrap().milli(), 999);
}

#[test]
fn parse_rejects_invalid_numerals() {
    assert!(Num::parse_decimal("").is_none());
    assert!(Num::parse_decimal("-").is_none());
    assert!(Num::parse_decimal("abc").is_none());
    assert!(Num::parse_decimal("1.2.3").is_none());
    assert!(Num::parse_decimal(".").is_none());
    assert!(Num::parse_decimal("1 2").is_none());
    assert!(Num::parse_decimal("--1").is_none());
}

#[test]
fn parse_rejects_out_of_range_integer_part() {
    assert!(Num::parse_decimal("1000000000000").is_none());
    assert_eq!(
        Num::parse_decimal("999999999999").unwrap().milli(),
        999_999_999_999_000
    );
}

#[test]
fn round_trip_examples() {
    for m in [0i64, 1, -1, 3500, -12_000, 2500, 999, 1_000_000, -987_654_321] {
        let s = Num::from_milli(m).to_decimal();
        assert_eq!(Num::parse_decimal(s.as_str()).unwrap().milli(), m);
    }
}
