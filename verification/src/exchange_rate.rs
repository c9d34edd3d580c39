//! The dollar-to-yen exchange rate: reading it from the rate service's
//! reply, and converting dollar amounts with it.

use vstd::prelude::*;
use crate::decimal::{
    clamp_i64, decimal_of, truncated_product, Decimal, DecimalError, DecimalValue,
};

verus! {

/// The error of `serde_json`'s parser. Nothing of it is read here.
#[verifier::external_type_specification]
#[verifier::external_body]
pub struct ExJsonError(serde_json::Error);

/// What `serde_json` finds in the JSON text `body` under the key `outer` and,
/// in what stands there, under the key `inner`: `None` where `body` is no
/// JSON text; `Some(None)` where it is, and no number stands at that place;
/// else the number, read as a 64-bit float and written out in decimal.
pub uninterp spec fn json_number_text(
    body: Seq<char>,
    outer: Seq<char>,
    inner: Seq<char>,
) -> Option<Option<Seq<char>>>;

/// Parses `body` with `serde_json::from_str`, indexes the value by `outer`
/// and then by `inner`, takes the result with `Value::as_f64`, and writes that
/// float out in decimal. The contract claims only that the outcome is the one
/// named `json_number_text` for the same three texts, and that an error comes
/// back exactly where the parser refuses `body`.
#[verifier::external_body]
fn json_number_at(body: &str, outer: &str, inner: &str) -> (r: Result<
    Option<String>,
    serde_json::Error,
>)
    ensures
        match r {
            Ok(number) => json_number_text(body@, outer@, inner@) == Some(number.deep_view()),
            Err(_) => json_number_text(body@, outer@, inner@) is None,
        },
{
    let value: serde_json::Value = serde_json::from_str(body)?;
    Ok(value[outer][inner].as_f64().map(|rate| rate.to_string()))
}

/// Why no exchange rate could be had.
#[derive(Clone, Copy, Debug, PartialEq, Eq, Structural)]
pub enum RateError {
    /// The call to the rate service failed before a reply was read.
    RequestFailed,
    /// The reply is no JSON text.
    MalformedBody,
    /// The reply holds no number for the yen.
    RateMissing,
    /// The number is not written as a plain decimal.
    Unreadable,
    /// The number has more digits than a rate can hold.
    OutOfRange,
    /// The number is zero or negative.
    NotPositive,
}

/// The key of the reply under which the rates stand.
pub open spec fn rates_key() -> Seq<char> {
    "rates"@
}

/// The key, among the rates, of the yen.
pub open spec fn yen_key() -> Seq<char> {
    "JPY"@
}

/// The rate that a number's text stands for, or the reason why it stands for
/// none. `None` is the reply without a number for the yen.
pub open spec fn rate_of_number(number: Option<Seq<char>>) -> Result<DecimalValue, RateError> {
    match number {
        None => Err(RateError::RateMissing),
        Some(text) => match decimal_of(text) {
            None => Err(RateError::Unreadable),
            Some(value) => if value.mantissa > u64::MAX {
                Err(RateError::OutOfRange)
            } else if value.negative || value.mantissa == 0 {
                Err(RateError::NotPositive)
            } else {
                Ok(value)
            },
        },
    }
}

/// The rate that the reply `body` of the rate service gives for the yen.
pub open spec fn rate_of_body(body: Seq<char>) -> Result<DecimalValue, RateError> {
    match json_number_text(body, rates_key(), yen_key()) {
        None => Err(RateError::MalformedBody),
        Some(number) => rate_of_number(number),
    }
}

/// The yen that `usd` dollars are worth at `rate`, fractions of a yen cut
/// off; or the reason why `usd` is no amount.
pub open spec fn yen_of(usd: Seq<char>, rate: DecimalValue) -> Result<int, DecimalError> {
    match decimal_of(usd) {
        None => Err(DecimalError::Malformed),
        Some(amount) => if amount.mantissa > u64::MAX {
            Err(DecimalError::TooLarge)
        } else {
            Ok(clamp_i64(truncated_product(amount, rate)))
        },
    }
}

/// A positive multiplier from dollars to yen, held as an exact decimal.
#[derive(Clone, Copy, Debug, PartialEq, Eq)]
pub struct ExchangeRate {
    value: Decimal,
}

impl View for ExchangeRate {
    type V = DecimalValue;

    closed spec fn view(&self) -> DecimalValue {
        self.value@
    }
}

impl DeepView for ExchangeRate {
    type V = DecimalValue;

    open spec fn deep_view(&self) -> DecimalValue {
        self@
    }
}

impl ExchangeRate {
    #[verifier::type_invariant]
    spec fn positive(self) -> bool {
        !self.value.negative && self.value.mantissa > 0
    }

    /// The rate `value`, where it is positive.
    pub fn new(value: Decimal) -> (r: Option<ExchangeRate>)
        ensures
            r is Some <==> !value.negative && value.mantissa > 0,
            r matches Some(rate) ==> rate@ == value@,
    {
        if !value.negative && value.mantissa > 0 {
            Some(ExchangeRate { value })
        } else {
            None
        }
    }

    /// The rate written as the decimal `text`.
    pub fn parse(text: &str) -> (r: Result<ExchangeRate, RateError>)
        ensures
            match r {
                Ok(rate) => rate_of_number(Some(text@)) == Ok::<DecimalValue, RateError>(rate@),
                Err(e) => rate_of_number(Some(text@)) == Err::<DecimalValue, RateError>(e),
            },
    {
        match Decimal::parse(text) {
            Err(DecimalError::Malformed) => Err(RateError::Unreadable),
            Err(DecimalError::TooLarge) => Err(RateError::OutOfRange),
            Ok(value) => {
                if !value.negative && value.mantissa > 0 {
                    Ok(ExchangeRate { value })
                } else {
                    Err(RateError::NotPositive)
                }
            },
        }
    }

    /// The rate as a decimal: never negative, never zero.
    pub fn value(&self) -> (d: Decimal)
        ensures
            d@ == self@,
            !d.negative,
            d.mantissa > 0,
    {
        proof {
            use_type_invariant(self);
        }
        self.value
    }
}

/// The rate for the number that the reply held, `None` being a reply
/// without one.
pub fn rate_from_number(number: Option<String>) -> (r: Result<ExchangeRate, RateError>)
    ensures
        match r {
            Ok(rate) => rate_of_number(number.deep_view()) == Ok::<DecimalValue, RateError>(rate@),
            Err(e) => rate_of_number(number.deep_view()) == Err::<DecimalValue, RateError>(e),
        },
{
    match number {
        None => Err(RateError::RateMissing),
        Some(text) => ExchangeRate::parse(text.as_str()),
    }
}

/// Reads the yen rate from the reply of the rate service.
pub fn get_exchange_rate(body: &str) -> (r: Result<ExchangeRate, RateError>)
    ensures
        match r {
            Ok(rate) => rate_of_body(body@) == Ok::<DecimalValue, RateError>(rate@),
            Err(e) => rate_of_body(body@) == Err::<DecimalValue, RateError>(e),
        },
{
    match json_number_at(body, "rates", "JPY") {
        Err(_) => Err(RateError::MalformedBody),
        Ok(number) => rate_from_number(number),
    }
}

/// Converts the dollar amount `usd` to yen at `jpy_rate`, cutting the
/// fraction off rather than rounding. A product beyond 64 bits is held to the
/// nearest bound. Fails where `usd` is no decimal, or one of too many digits.
pub fn convert_usd_to_jpy(usd: &str, jpy_rate: &ExchangeRate) -> (r: Result<i64, DecimalError>)
    ensures
        match r {
            Ok(yen) => yen_of(usd@, jpy_rate@) == Ok::<int, DecimalError>(yen as int),
            Err(e) => yen_of(usd@, jpy_rate@) == Err::<int, DecimalError>(e),
        },
{
    match Decimal::parse(usd) {
        Err(e) => Err(e),
        Ok(amount) => {
            let rate = jpy_rate.value();
            Ok(amount.times_truncated(&rate))
        },
    }
}

} // verus!
