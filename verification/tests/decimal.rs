use bill_notify::decimal::{char_is_digit, digit_of, Decimal, DecimalError};

fn dec(negative: bool, mantissa: u64, scale: usize) -> Decimal {
    Decimal { negative, mantissa, scale }
}

#[test]
fn parses_whole_numbers() {
    assert_eq!(Decimal::parse("0"), Ok(dec(false, 0, 0)));
    assert_eq!(Decimal::parse("150"), Ok(dec(false, 150, 0)));
    assert_eq!(Decimal::parse("007"), Ok(dec(false, 7, 0)));
}

#[test]
fn parses_fractions_without_rounding() {
    assert_eq!(Decimal::parse("123.45"), Ok(dec(false, 12345, 2)));
    assert_eq!(Decimal::parse("0.0001"), Ok(dec(false, 1, 4)));
    assert_eq!(Decimal::parse("10.990"), Ok(dec(false, 10990, 3)));
}

#[test]
fn parses_a_point_at_either_end() {
    assert_eq!(Decimal::parse("5."), Ok(dec(false, 5, 0)));
    assert_eq!(Decimal::parse(".5"), Ok(dec(false, 5, 1)));
}

#[test]
fn parses_signs() {
    assert_eq!(Decimal::parse("-1.5"), Ok(dec(true, 15, 1)));
    assert_eq!(Decimal::parse("+1.5"), Ok(dec(false, 15, 1)));
    assert_eq!(Decimal::parse("-0"), Ok(dec(true, 0, 0)));
}

#[test]
fn rejects_what_is_no_decimal() {
    for text in ["", ".", "-", "+", "-.", "1.2.3", "1..2", "abc", "1e3", "12a", " 1", "1 ", "--1", "inf", "NaN", "１"] {
        assert_eq!(Decimal::parse(text), Err(DecimalError::Malformed), "{:?}", text);
    }
}

#[test]
fn mantissa_holds_up_to_64_bits() {
    assert_eq!(Decimal::parse("18446744073709551615"), Ok(dec(false, u64::MAX, 0)));
    assert_eq!(Decimal::parse("1844674407370955.1615"), Ok(dec(false, u64::MAX, 4)));
    assert_eq!(Decimal::parse("18446744073709551616"), Err(DecimalError::TooLarge));
    assert_eq!(Decimal::parse("184467440737095516.16"), Err(DecimalError::TooLarge));
    assert_eq!(Decimal::parse("99999999999999999999999999"), Err(DecimalError::TooLarge));
}

#[test]
fn malformed_wins_over_too_large() {
    assert_eq!(Decimal::parse("99999999999999999999999999x"), Err(DecimalError::Malformed));
    assert_eq!(Decimal::parse("99999999999999999999.9.9"), Err(DecimalError::Malformed));
}

#[test]
fn long_fractions_of_zeros_are_taken() {
    let text = format!("0.{}1", "0".repeat(60));
    assert_eq!(Decimal::parse(&text), Ok(dec(false, 1, 61)));
}

#[test]
fn product_is_cut_off_not_rounded() {
    assert_eq!(dec(false, 1099, 2).times_truncated(&dec(false, 150, 0)), 1648);
    assert_eq!(dec(false, 12345, 2).times_truncated(&dec(false, 1500, 1)), 18517);
    assert_eq!(dec(false, 19, 1).times_truncated(&dec(false, 1, 0)), 1);
    assert_eq!(dec(false, 29, 2).times_truncated(&dec(false, 100, 0)), 29);
}

#[test]
fn product_is_cut_off_toward_zero() {
    assert_eq!(dec(true, 1099, 2).times_truncated(&dec(false, 150, 0)), -1648);
    assert_eq!(dec(true, 1, 3).times_truncated(&dec(false, 150, 0)), 0);
    assert_eq!(dec(true, 15, 1).times_truncated(&dec(true, 2, 0)), 3);
}

#[test]
fn product_is_held_to_the_bounds() {
    let big = dec(false, u64::MAX, 0);
    assert_eq!(big.times_truncated(&big), i64::MAX);
    assert_eq!(dec(true, u64::MAX, 0).times_truncated(&big), i64::MIN);
    assert_eq!(dec(false, 9_223_372_036_854_775_807, 0).times_truncated(&dec(false, 1, 0)), i64::MAX);
    assert_eq!(dec(false, 9_223_372_036_854_775_808, 0).times_truncated(&dec(false, 1, 0)), i64::MAX);
    assert_eq!(dec(true, 9_223_372_036_854_775_808, 0).times_truncated(&dec(false, 1, 0)), i64::MIN);
    assert_eq!(dec(true, 9_223_372_036_854_775_807, 0).times_truncated(&dec(false, 1, 0)), -i64::MAX);
}

#[test]
fn product_with_large_scales_is_zero() {
    assert_eq!(dec(false, u64::MAX, 39).times_truncated(&dec(false, u64::MAX, 0)), 0);
    assert_eq!(dec(false, u64::MAX, 20).times_truncated(&dec(false, u64::MAX, 19)), 0);
    assert_eq!(dec(false, u64::MAX, usize::MAX).times_truncated(&dec(false, u64::MAX, usize::MAX)), 0);
    assert_eq!(dec(false, u64::MAX, 19).times_truncated(&dec(false, u64::MAX, 19)), 3);
}

#[test]
fn digits_are_told_from_other_characters() {
    assert!(char_is_digit('0'));
    assert!(char_is_digit('9'));
    assert!(!char_is_digit('/'));
    assert!(!char_is_digit(':'));
    assert!(!char_is_digit('a'));
    assert_eq!(digit_of('0'), 0);
    assert_eq!(digit_of('7'), 7);
    assert_eq!(digit_of('9'), 9);
}
