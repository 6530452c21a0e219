//! Decimal text for 64-bit integers.

use bungie_client::num::{i64_to_string, parse_u64, u64_to_string};

#[test]
fn maximum_value_parses_from_its_text() {
    assert_eq!(parse_u64("18446744073709551615"), Some(u64::MAX));
}

#[test]
fn maximum_value_prints_to_the_identical_text() {
    assert_eq!(u64_to_string(u64::MAX), "18446744073709551615");
}

#[test]
fn one_past_the_maximum_is_rejected() {
    assert_eq!(parse_u64("18446744073709551616"), None);
    assert_eq!(parse_u64("99999999999999999999999"), None);
}

#[test]
fn plain_values_round_trip() {
    for v in [0u64, 1, 9, 10, 42, 65535, 4294967296] {
        assert_eq!(parse_u64(&u64_to_string(v)), Some(v));
    }
}

#[test]
fn leading_plus_and_zeros_are_accepted() {
    assert_eq!(parse_u64("+5"), Some(5));
    assert_eq!(parse_u64("007"), Some(7));
}

#[test]
fn junk_is_rejected() {
    assert_eq!(parse_u64(""), None);
    assert_eq!(parse_u64("+"), None);
    assert_eq!(parse_u64("12a"), None);
    assert_eq!(parse_u64("-5"), None);
    assert_eq!(parse_u64(" 5"), None);
}

#[test]
fn signed_printing_carries_the_sign() {
    assert_eq!(i64_to_string(0), "0");
    assert_eq!(i64_to_string(-5), "-5");
    assert_eq!(i64_to_string(i64::MIN), "-9223372036854775808");
    assert_eq!(i64_to_string(i64::MAX), "9223372036854775807");
}
