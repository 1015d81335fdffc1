use dao_primitives::scalar::{string_to_bytes, string_to_u128, u128_to_dec_bytes, ParseError};

#[test]
fn parses_simple_decimal() {
    assert_eq!(string_to_u128("45"), Ok(45));
    assert_eq!(string_to_u128("0"), Ok(0));
    assert_eq!(string_to_u128("1000"), Ok(1000));
}

#[test]
fn parses_leading_zeros() {
    assert_eq!(string_to_u128("007"), Ok(7));
    assert_eq!(string_to_u128("000"), Ok(0));
}

#[test]
fn parses_u128_max() {
    assert_eq!(
        string_to_u128("340282366920938463463374607431768211455"),
        Ok(u128::MAX)
    );
}

#[test]
fn rejects_value_above_u128_max() {
    assert_eq!(
        string_to_u128("340282366920938463463374607431768211456"),
        Err(ParseError::Overflow)
    );
    assert_eq!(
        string_to_u128("99999999999999999999999999999999999999999"),
        Err(ParseError::Overflow)
    );
}

#[test]
fn rejects_empty_string() {
    assert_eq!(string_to_u128(""), Err(ParseError::Empty));
}

#[test]
fn rejects_non_digit_characters() {
    assert_eq!(string_to_u128("12a"), Err(ParseError::NonDigit));
    assert_eq!(string_to_u128("-1"), Err(ParseError::NonDigit));
    assert_eq!(string_to_u128(" 1"), Err(ParseError::NonDigit));
    assert_eq!(string_to_u128("1.5"), Err(ParseError::NonDigit));
    assert_eq!(string_to_u128("x"), Err(ParseError::NonDigit));
}

#[test]
fn non_digit_wins_over_overflow() {
    // The all-digit check runs over the whole string before any value is
    // accumulated, so a huge digit prefix still reports the stray letter.
    assert_eq!(
        string_to_u128("340282366920938463463374607431768211456x"),
        Err(ParseError::NonDigit)
    );
}

#[test]
fn decimal_round_trips_through_value() {
    for s in ["0", "45", "86400000", "340282366920938463463374607431768211455"] {
        let v = string_to_u128(s).unwrap();
        let re = u128_to_dec_bytes(v);
        assert_eq!(re, s.as_bytes().to_vec());
        let re_str = String::from_utf8(re).unwrap();
        assert_eq!(string_to_u128(&re_str), Ok(v));
    }
}

#[test]
fn round_trip_drops_leading_zeros_only() {
    let v = string_to_u128("00045").unwrap();
    assert_eq!(u128_to_dec_bytes(v), b"45".to_vec());
}

#[test]
fn encodes_zero_as_single_digit() {
    assert_eq!(u128_to_dec_bytes(0), b"0".to_vec());
    assert_eq!(u128_to_dec_bytes(10), b"10".to_vec());
}

#[test]
fn string_to_bytes_is_utf8() {
    assert_eq!(string_to_bytes("Acme"), b"Acme".to_vec());
    assert_eq!(string_to_bytes(""), Vec::<u8>::new());
    assert_eq!(string_to_bytes("café"), "café".as_bytes().to_vec());
}
