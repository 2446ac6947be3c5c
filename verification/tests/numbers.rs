use torznab::numbers::is_float_literal;
use torznab::numbers::parse_u16;
use torznab::numbers::parse_u32;
use torznab::numbers::parse_u64;

#[test]
fn parse_u64_accepts_plain_decimals() {
    assert_eq!(parse_u64("0"), Some(0));
    assert_eq!(parse_u64("6827927817"), Some(6827927817));
    assert_eq!(parse_u64("007"), Some(7));
    assert_eq!(parse_u64("+12"), Some(12));
    assert_eq!(parse_u64("18446744073709551615"), Some(u64::MAX));
}

#[test]
fn parse_u64_rejects_malformed_text() {
    assert_eq!(parse_u64(""), None);
    assert_eq!(parse_u64("+"), None);
    assert_eq!(parse_u64("-1"), None);
    assert_eq!(parse_u64("1.5"), None);
    assert_eq!(parse_u64("12a"), None);
    assert_eq!(parse_u64(" 12"), None);
    assert_eq!(parse_u64("18446744073709551616"), None);
    assert_eq!(parse_u64("99999999999999999999999999"), None);
}

#[test]
fn parse_u32_bounds() {
    assert_eq!(parse_u32("4294967295"), Some(u32::MAX));
    assert_eq!(parse_u32("4294967296"), None);
    assert_eq!(parse_u32("2045"), Some(2045));
    assert_eq!(parse_u32("x"), None);
}

#[test]
fn parse_u16_bounds() {
    assert_eq!(parse_u16("65535"), Some(u16::MAX));
    assert_eq!(parse_u16("65536"), None);
    assert_eq!(parse_u16("109"), Some(109));
    assert_eq!(parse_u16(""), None);
}

#[test]
fn float_literals_accepted() {
    for good in [
        "0", "1", "1.5", ".5", "5.", "+1.5", "-1.5", "1e5", "1E5", "1.5e-7", "-2.5E+10", "inf",
        "-inf", "INFINITY", "infinity", "nan", "NaN", "-NAN", "3.", "0.0",
    ] {
        assert!(is_float_literal(good), "expected accept: {good}");
    }
}

#[test]
fn float_literals_rejected() {
    for bad in [
        "", ".", "+", "-", "e5", "1e", "1e+", "1.2.3", "abc", "1,5", " 1.5", "1.5 ", "infi",
        "nanx", "--1", "1e5e2", "0x10",
    ] {
        assert!(!is_float_literal(bad), "expected reject: {bad}");
    }
}
