use l1x_signer::errors::CoreError;
use l1x_signer::numeric::parse_u128_decimal;
use l1x_signer::numeric::u128_to_decimal;

#[test]
fn encodes_zero() {
    assert_eq!(u128_to_decimal(0), "0");
}

#[test]
fn encodes_max() {
    assert_eq!(u128_to_decimal(u128::MAX), "340282366920938463463374607431768211455");
}

#[test]
fn encodes_plain_values() {
    assert_eq!(u128_to_decimal(7), "7");
    assert_eq!(u128_to_decimal(10), "10");
    assert_eq!(u128_to_decimal(1_000_000), "1000000");
    assert_eq!(u128_to_decimal(90_071_992_547_409_915), "90071992547409915");
}

#[test]
fn round_trips_boundary_values() {
    for v in [0u128, 1, 9, 10, 255, 1 << 64, u128::MAX - 1, u128::MAX] {
        let s = u128_to_decimal(v);
        assert_eq!(parse_u128_decimal(&s), Ok(v));
    }
}

#[test]
fn parses_leading_zeros() {
    assert_eq!(parse_u128_decimal("007"), Ok(7));
    assert_eq!(parse_u128_decimal("000"), Ok(0));
}

#[test]
fn rejects_empty_string() {
    assert_eq!(parse_u128_decimal(""), Err(CoreError::InvalidNumericEncoding));
}

#[test]
fn rejects_leading_non_digits() {
    assert_eq!(parse_u128_decimal("+1"), Err(CoreError::InvalidNumericEncoding));
    assert_eq!(parse_u128_decimal("-1"), Err(CoreError::InvalidNumericEncoding));
    assert_eq!(parse_u128_decimal(" 1"), Err(CoreError::InvalidNumericEncoding));
    assert_eq!(parse_u128_decimal("a1"), Err(CoreError::InvalidNumericEncoding));
}

#[test]
fn rejects_embedded_whitespace_and_trailing_garbage() {
    assert_eq!(parse_u128_decimal("1 2"), Err(CoreError::InvalidNumericEncoding));
    assert_eq!(parse_u128_decimal("12 "), Err(CoreError::InvalidNumericEncoding));
    assert_eq!(parse_u128_decimal("12a"), Err(CoreError::InvalidNumericEncoding));
    assert_eq!(parse_u128_decimal("1.5"), Err(CoreError::InvalidNumericEncoding));
}

#[test]
fn rejects_non_ascii_digits() {
    assert_eq!(parse_u128_decimal("\u{FF11}\u{FF12}\u{FF13}"), Err(CoreError::InvalidNumericEncoding));
}

#[test]
fn rejects_overflow_past_128_bits() {
    assert_eq!(
        parse_u128_decimal("340282366920938463463374607431768211456"),
        Err(CoreError::InvalidNumericEncoding)
    );
    assert_eq!(
        parse_u128_decimal("999999999999999999999999999999999999999999"),
        Err(CoreError::InvalidNumericEncoding)
    );
}

#[test]
fn accepts_exact_max() {
    assert_eq!(
        parse_u128_decimal("340282366920938463463374607431768211455"),
        Ok(u128::MAX)
    );
}
