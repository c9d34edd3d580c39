use bill_notify::decimal::{Decimal, DecimalError};
use bill_notify::exchange_rate::{
    convert_usd_to_jpy, get_exchange_rate, rate_from_number, ExchangeRate, RateError,
};

fn rate(value: f64) -> ExchangeRate {
    ExchangeRate::parse(&format!("{}", value)).unwrap()
}

#[test]
fn conversion_truncates_rather_than_rounds() {
    assert_eq!(convert_usd_to_jpy("10.99", &rate(150.0)), Ok(1648));
    assert_ne!(convert_usd_to_jpy("10.99", &rate(150.0)), Ok(1649));
}

#[test]
fn conversion_of_the_scenario_amounts() {
    let r = rate(150.0);
    assert_eq!(convert_usd_to_jpy("123.45", &r), Ok(18517));
    assert_eq!(convert_usd_to_jpy("100.00", &r), Ok(15000));
    assert_eq!(convert_usd_to_jpy("23.45", &r), Ok(3517));
    assert_eq!(convert_usd_to_jpy("0", &r), Ok(0));
}

#[test]
fn conversion_with_a_fractional_rate() {
    assert_eq!(convert_usd_to_jpy("1", &rate(149.99)), Ok(149));
    assert_eq!(convert_usd_to_jpy("2.5", &rate(0.5)), Ok(1));
    assert_eq!(convert_usd_to_jpy("-2.5", &rate(151.25)), Ok(-378));
}

#[test]
fn conversion_fails_on_what_is_no_amount() {
    let r = rate(150.0);
    assert_eq!(convert_usd_to_jpy("", &r), Err(DecimalError::Malformed));
    assert_eq!(convert_usd_to_jpy("ten", &r), Err(DecimalError::Malformed));
    assert_eq!(convert_usd_to_jpy("1e2", &r), Err(DecimalError::Malformed));
    assert_eq!(convert_usd_to_jpy("100000000000000000000", &r), Err(DecimalError::TooLarge));
}

#[test]
fn rate_must_be_positive() {
    assert_eq!(ExchangeRate::parse("0"), Err(RateError::NotPositive));
    assert_eq!(ExchangeRate::parse("0.000"), Err(RateError::NotPositive));
    assert_eq!(ExchangeRate::parse("-150"), Err(RateError::NotPositive));
    assert_eq!(ExchangeRate::parse("-0"), Err(RateError::NotPositive));
    assert_eq!(ExchangeRate::parse("abc"), Err(RateError::Unreadable));
    assert_eq!(ExchangeRate::parse("NaN"), Err(RateError::Unreadable));
    assert_eq!(ExchangeRate::parse("100000000000000000000"), Err(RateError::OutOfRange));
    assert!(ExchangeRate::parse("0.0001").is_ok());
}

#[test]
fn rate_from_a_decimal() {
    let value = Decimal { negative: false, mantissa: 15025, scale: 2 };
    assert_eq!(ExchangeRate::new(value).map(|r| r.value()), Some(value));
    assert_eq!(ExchangeRate::new(Decimal { negative: true, mantissa: 1, scale: 0 }), None);
    assert_eq!(ExchangeRate::new(Decimal { negative: false, mantissa: 0, scale: 3 }), None);
    assert_eq!(rate(150.25).value(), value);
}

#[test]
fn rate_from_the_number_of_a_reply() {
    assert_eq!(rate_from_number(None), Err(RateError::RateMissing));
    assert_eq!(rate_from_number(Some("150.5".to_string())), Ok(rate(150.5)));
    assert_eq!(rate_from_number(Some("0".to_string())), Err(RateError::NotPositive));
}

#[test]
fn rate_is_read_from_the_reply() {
    let body = "{\"base\":\"USD\",\"rates\":{\"EUR\":0.92,\"JPY\":150.25,\"USD\":1}}";
    assert_eq!(get_exchange_rate(body), Ok(rate(150.25)));
    assert_eq!(
        get_exchange_rate(body).map(|r| r.value()),
        Ok(Decimal { negative: false, mantissa: 15025, scale: 2 })
    );
}

#[test]
fn whole_rate_is_read_from_the_reply() {
    assert_eq!(
        get_exchange_rate("{\"rates\":{\"JPY\":150}}").map(|r| r.value()),
        Ok(Decimal { negative: false, mantissa: 150, scale: 0 })
    );
}

#[test]
fn reply_without_the_yen_gives_no_rate() {
    assert_eq!(get_exchange_rate("{\"rates\":{\"EUR\":0.92}}"), Err(RateError::RateMissing));
    assert_eq!(get_exchange_rate("{\"base\":\"USD\"}"), Err(RateError::RateMissing));
    assert_eq!(get_exchange_rate("{\"rates\":{\"JPY\":\"150\"}}"), Err(RateError::RateMissing));
    assert_eq!(get_exchange_rate("{\"rates\":{\"JPY\":null}}"), Err(RateError::RateMissing));
    assert_eq!(get_exchange_rate("[1,2]"), Err(RateError::RateMissing));
}

#[test]
fn reply_that_is_no_json_gives_no_rate() {
    assert_eq!(get_exchange_rate(""), Err(RateError::MalformedBody));
    assert_eq!(get_exchange_rate("<html>"), Err(RateError::MalformedBody));
    assert_eq!(get_exchange_rate("{\"rates\":{\"JPY\":150.25}"), Err(RateError::MalformedBody));
}

#[test]
fn rate_of_the_reply_must_be_positive_and_in_range() {
    assert_eq!(get_exchange_rate("{\"rates\":{\"JPY\":0}}"), Err(RateError::NotPositive));
    assert_eq!(get_exchange_rate("{\"rates\":{\"JPY\":0.0}}"), Err(RateError::NotPositive));
    assert_eq!(get_exchange_rate("{\"rates\":{\"JPY\":-150.5}}"), Err(RateError::NotPositive));
    assert_eq!(get_exchange_rate("{\"rates\":{\"JPY\":1e30}}"), Err(RateError::OutOfRange));
}
