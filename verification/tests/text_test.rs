use tempcheck::text::{
    contains, decimal_string, hex_encode, parse_i64, starts_with, str_eq, str_less, trim,
};

#[test]
fn parse_i64_matches_std() {
    for s in [
        "0", "42000", "-42", "+5", "-", "+", "", "12a", " 1", "9223372036854775807",
        "9223372036854775808", "-9223372036854775808", "-9223372036854775809", "007", "+-1",
        "99999999999999999999999",
    ] {
        assert_eq!(parse_i64(s), s.parse::<i64>().ok(), "input {s:?}");
    }
}

#[test]
fn trim_matches_std() {
    for s in ["", "  ", " a b ", "\n42000\n", "\u{3000}x\u{a0}", "x", "\u{200b}x"] {
        assert_eq!(trim(s), s.trim(), "input {s:?}");
    }
}

#[test]
fn string_predicates() {
    assert!(starts_with("thermal_zone0", "thermal_zone"));
    assert!(!starts_with("thermal", "thermal_zone"));
    assert!(contains("row limit exceeded", "row limit"));
    assert!(!contains("row limi", "row limit"));
    assert!(contains("abc", ""));
    assert!(str_eq("secret", "secret"));
    assert!(!str_eq("secret", "secre"));
    assert!(str_less("a", "b"));
    assert!(str_less("ab", "abc"));
    assert!(!str_less("abc", "abc"));
    assert!(!str_less("b", "ab"));
}

#[test]
fn hex_encode_is_lowercase_two_digits_per_byte() {
    assert_eq!(hex_encode(&[0x00, 0x0f, 0xab, 0xff]), "000fabff");
    assert_eq!(hex_encode(&[]), "");
}

#[test]
fn decimal_string_matches_std() {
    for n in [0usize, 7, 9, 10, 99, 100, 10_000, 262_144, usize::MAX] {
        assert_eq!(decimal_string(n), n.to_string());
    }
}
