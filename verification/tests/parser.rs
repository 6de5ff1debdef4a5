use scene_engine::decimal::parse_decimal_fx;
use scene_engine::FX_LIM;

fn parse(s: &str) -> Option<i64> {
    parse_decimal_fx(s.as_bytes())
}

#[test]
fn whole_numbers() {
    assert_eq!(parse("0"), Some(0));
    assert_eq!(parse("2"), Some(2_000_000));
    assert_eq!(parse("-90"), Some(-90_000_000));
    assert_eq!(parse("007"), Some(7_000_000));
}

#[test]
fn fractions() {
    assert_eq!(parse("2.0"), Some(2_000_000));
    assert_eq!(parse("1.5"), Some(1_500_000));
    assert_eq!(parse("-0.5"), Some(-500_000));
    assert_eq!(parse("0.000001"), Some(1));
    // below the resolution: truncated toward zero
    assert_eq!(parse("0.0000001"), Some(0));
    assert_eq!(parse("-0.0000001"), Some(0));
    assert_eq!(parse("3.1415926"), Some(3_141_592));
}

#[test]
fn exponents() {
    assert_eq!(parse("1e3"), Some(1_000_000_000));
    assert_eq!(parse("2.5e-2"), Some(25_000));
    assert_eq!(parse("2.5E2"), Some(250_000_000));
    assert_eq!(parse("1e+2"), Some(100_000_000));
    assert_eq!(parse("1e-8"), Some(0));
    assert_eq!(parse("5e-300"), Some(0));
}

#[test]
fn the_range_boundary() {
    // one thousand million whole units is the last representable value
    assert_eq!(parse("1000000000"), Some(FX_LIM));
    assert_eq!(parse("-1000000000"), Some(-FX_LIM));
    assert_eq!(parse("1000000001"), None);
    assert_eq!(parse("1e9"), Some(FX_LIM));
    assert_eq!(parse("1e10"), None);
}

#[test]
fn malformed_texts_are_rejected() {
    assert_eq!(parse(""), None);
    assert_eq!(parse("-"), None);
    assert_eq!(parse("abc"), None);
    assert_eq!(parse("1."), None);
    assert_eq!(parse(".5"), None);
    assert_eq!(parse("1e"), None);
    assert_eq!(parse("--1"), None);
    assert_eq!(parse("1.2.3"), None);
    assert_eq!(parse("1 "), None);
    assert_eq!(parse("+1"), None);
}

#[test]
fn long_digit_runs_truncate_exactly() {
    // a long integer part is simply a huge value: past the range
    assert_eq!(parse("123456789012345678"), None);
    // excess fraction precision truncates toward zero, never aborts
    assert_eq!(parse("0.123456789012345678"), Some(123_456));
    assert_eq!(parse("1.000000000000000000"), Some(1_000_000));
    assert_eq!(parse("1.2345678999"), Some(1_234_567));
    // long exponents follow the value they denote
    assert_eq!(parse("1e1000"), None);
    assert_eq!(parse("1e0005"), Some(100_000_000_000));
    assert_eq!(parse("1e-999"), Some(0));
    assert_eq!(parse("0.00000000000000001"), Some(0));
    // fraction digits shifted up by an exponent stay significant
    assert_eq!(parse("0.0000001e3"), Some(100));
}
