//! Exact decimal numbers read from text.
//!
//! An amount such as `"123.45"` is read as the pair of an integer mantissa
//! (`12345`) and a scale (`2`): the number is the mantissa divided by ten to
//! the power of the scale. Nothing is rounded on the way in.

use vstd::prelude::*;
use crate::text::chars_of;

verus! {

/// Ten to the power `n`.
pub open spec fn pow10(n: nat) -> nat
    decreases n,
{
    if n == 0 {
        1
    } else {
        10 * pow10((n - 1) as nat)
    }
}

/// Whether `c` is one of the ten decimal digits.
pub open spec fn is_digit(c: char) -> bool {
    '0' <= c && c <= '9'
}

/// The number that the digit `c` stands for.
pub open spec fn digit_value(c: char) -> nat
    recommends
        is_digit(c),
{
    (c as nat - '0' as nat) as nat
}

/// Whether every character of `s` is a decimal digit.
pub open spec fn all_digits(s: Seq<char>) -> bool {
    forall|i: int| 0 <= i < s.len() ==> is_digit(#[trigger] s[i])
}

/// The number obtained by writing the digits of `s` behind those of `acc`.
pub open spec fn append_digits(acc: nat, s: Seq<char>) -> nat
    decreases s.len(),
{
    if s.len() == 0 {
        acc
    } else {
        append_digits(acc, s.drop_last()) * 10 + digit_value(s.last())
    }
}

/// The number that the digit string `s` denotes; zero for the empty string.
pub open spec fn digits_value(s: Seq<char>) -> nat {
    append_digits(0, s)
}

/// A decimal number as mathematics sees it: `mantissa / 10^scale`, negated
/// where `negative` holds.
pub ghost struct DecimalValue {
    pub negative: bool,
    pub mantissa: nat,
    pub scale: nat,
}

/// Whether `s` is digits, a point at index `k`, and digits again, with at
/// least one digit in all.
pub open spec fn point_at(s: Seq<char>, k: int) -> bool {
    &&& 0 <= k < s.len()
    &&& s[k] == '.'
    &&& s.len() > 1
    &&& all_digits(s.take(k))
    &&& all_digits(s.skip(k + 1))
}

/// The mantissa and scale of an unsigned decimal: one or more digits with at
/// most one point among them, before, between or behind the digits.
pub open spec fn unsigned_decimal_of(s: Seq<char>) -> Option<(nat, nat)> {
    if s.len() > 0 && all_digits(s) {
        Some((digits_value(s), 0nat))
    } else if exists|k: int| point_at(s, k) {
        let k = choose|k: int| point_at(s, k);
        Some((digits_value(s.take(k) + s.skip(k + 1)), (s.len() - k - 1) as nat))
    } else {
        None
    }
}

/// The decimal that the text `s` denotes: an optional sign, `+` or `-`, and
/// an unsigned decimal. `None` where `s` is no such text.
pub open spec fn decimal_of(s: Seq<char>) -> Option<DecimalValue> {
    if s.len() > 0 && (s[0] == '-' || s[0] == '+') {
        match unsigned_decimal_of(s.drop_first()) {
            Some((mantissa, scale)) => Some(
                DecimalValue { negative: s[0] == '-', mantissa, scale },
            ),
            None => None,
        }
    } else {
        match unsigned_decimal_of(s) {
            Some((mantissa, scale)) => Some(DecimalValue { negative: false, mantissa, scale }),
            None => None,
        }
    }
}

/// The integer part of the product of two decimals: the product with its
/// fraction cut off, so that the result lies no further from zero than the
/// product does.
pub open spec fn truncated_product(a: DecimalValue, b: DecimalValue) -> int {
    let magnitude = (a.mantissa * b.mantissa) / pow10(a.scale + b.scale);
    if a.negative != b.negative {
        -(magnitude as int)
    } else {
        magnitude as int
    }
}

/// `x` where it fits a signed 64-bit integer, else the nearest bound.
pub open spec fn clamp_i64(x: int) -> int {
    if x > i64::MAX {
        i64::MAX as int
    } else if x < i64::MIN {
        i64::MIN as int
    } else {
        x
    }
}

/// Why a text was not taken as a decimal.
#[derive(Clone, Copy, Debug, PartialEq, Eq, Structural)]
pub enum DecimalError {
    /// The text is not a sign, digits and at most one point.
    Malformed,
    /// The text is a decimal, but its digits do not fit the mantissa.
    TooLarge,
}

/// A decimal number whose mantissa fits 64 bits.
#[derive(Clone, Copy, Debug, PartialEq, Eq)]
pub struct Decimal {
    pub negative: bool,
    pub mantissa: u64,
    pub scale: usize,
}

impl View for Decimal {
    type V = DecimalValue;

    open spec fn view(&self) -> DecimalValue {
        DecimalValue {
            negative: self.negative,
            mantissa: self.mantissa as nat,
            scale: self.scale as nat,
        }
    }
}

/// Writing digits behind `acc` and then more digits is writing all of them.
pub proof fn lemma_append_digits_concat(acc: nat, a: Seq<char>, b: Seq<char>)
    ensures
        append_digits(acc, a + b) == append_digits(append_digits(acc, a), b),
    decreases b.len(),
{
    if b.len() == 0 {
        assert(a + b =~= a);
    } else {
        assert((a + b).drop_last() =~= a + b.drop_last());
        assert((a + b).last() == b.last());
        lemma_append_digits_concat(acc, a, b.drop_last());
    }
}

/// Writing digits behind a number never makes it smaller.
pub proof fn lemma_append_digits_grows(acc: nat, s: Seq<char>)
    ensures
        append_digits(acc, s) >= acc,
    decreases s.len(),
{
    if s.len() > 0 {
        lemma_append_digits_grows(acc, s.drop_last());
    }
}

/// Tells whether `c` is a decimal digit.
pub fn char_is_digit(c: char) -> (r: bool)
    ensures
        r == is_digit(c),
{
    '0' <= c && c <= '9'
}

/// The value of the digit `c`.
pub fn digit_of(c: char) -> (d: u8)
    requires
        is_digit(c),
    ensures
        d as nat == digit_value(c),
        d < 10,
{
    ((c as u32) - ('0' as u32)) as u8
}

/// A text has its point in one place only.
pub proof fn lemma_point_unique(s: Seq<char>, j: int, k: int)
    requires
        point_at(s, j),
        point_at(s, k),
    ensures
        j == k,
{
    if j < k {
        assert(s.take(k)[j] == s[j]);
    } else if k < j {
        assert(s.skip(k + 1)[j - k - 1] == s[j]);
    }
}

/// Where the point of the unsigned decimal `chars[start..]` stands: `None`
/// where that text is no decimal, `Some(None)` where it is digits only.
fn scan_unsigned(chars: &Vec<char>, start: usize) -> (r: Option<Option<usize>>)
    requires
        start <= chars.len(),
    ensures
        match r {
            None => unsigned_decimal_of(chars@.skip(start as int)) is None,
            Some(None) => chars.len() > start && all_digits(chars@.skip(start as int)),
            Some(Some(k)) => start <= k < chars.len() && point_at(
                chars@.skip(start as int),
                k - start,
            ),
        },
{
    let ghost body = chars@.skip(start as int);
    let n = chars.len();
    let mut point: Option<usize> = None;
    let mut i: usize = start;
    while i < n
        invariant
            start <= i <= n,
            n == chars.len(),
            body == chars@.skip(start as int),
            match point {
                None => all_digits(body.take(i - start)),
                Some(k) => {
                    &&& start <= k < i
                    &&& body[k - start] == '.'
                    &&& all_digits(body.take(k - start))
                    &&& all_digits(body.subrange(k - start + 1, i - start))
                },
            },
        decreases n - i,
    {
        let c = chars[i];
        assert(body[i - start] == c);
        if c == '.' {
            match point {
                Some(k) => {
                    proof {
                        // two points: no split of the text leaves digits only on both sides
                        assert forall|j: int| !point_at(body, j) by {
                            if point_at(body, j) {
                                if j < i - start {
                                    assert(body.skip(j + 1)[i - start - j - 1] == body[i - start]);
                                } else {
                                    assert(body.take(j)[k - start] == body[k - start]);
                                }
                            }
                        }
                        assert(!is_digit(body[i - start]));
                    }
                    return None;
                },
                None => {
                    point = Some(i);
                    assert(body.subrange(i - start + 1, i + 1 - start) =~= Seq::<char>::empty());
                },
            }
        } else if !char_is_digit(c) {
            proof {
                assert forall|j: int| !point_at(body, j) by {
                    if point_at(body, j) {
                        if j < i - start {
                            assert(body.skip(j + 1)[i - start - j - 1] == body[i - start]);
                        } else {
                            assert(body.take(j)[i - start] == body[i - start]);
                        }
                    }
                }
            }
            return None;
        } else {
            proof {
                match point {
                    None => {
                        assert forall|j: int| 0 <= j < i + 1 - start implies is_digit(
                            #[trigger] body.take(i + 1 - start)[j],
                        ) by {
                            if j < i - start {
                                assert(body.take(i - start)[j] == body[j]);
                            }
                        }
                    },
                    Some(k) => {
                        let before = body.subrange(k - start + 1, i - start);
                        let after = body.subrange(k - start + 1, i + 1 - start);
                        assert forall|j: int| 0 <= j < after.len() implies is_digit(
                            #[trigger] after[j],
                        ) by {
                            if j < before.len() {
                                assert(before[j] == after[j]);
                            }
                        }
                    },
                }
            }
        }
        i += 1;
    }
    match point {
        None => {
            proof {
                assert(body.take(n - start) =~= body);
                if n == start {
                    assert forall|j: int| !point_at(body, j) by {}
                }
            }
            if n == start {
                None
            } else {
                Some(None)
            }
        },
        Some(k) => {
            proof {
                assert(body.subrange(k - start + 1, n - start) =~= body.skip(k - start + 1));
            }
            if n - start == 1 {
                proof {
                    assert forall|j: int| !point_at(body, j) by {}
                    assert(!is_digit(body[0]));
                }
                None
            } else {
                Some(Some(k))
            }
        },
    }
}

/// Writes the digits `chars[from..to]` behind `acc`; `None` where the result
/// does not fit 64 bits.
fn accumulate(chars: &Vec<char>, from: usize, to: usize, acc: u64) -> (r: Option<u64>)
    requires
        from <= to <= chars.len(),
        all_digits(chars@.subrange(from as int, to as int)),
    ensures
        match r {
            Some(v) => v == append_digits(acc as nat, chars@.subrange(from as int, to as int)),
            None => append_digits(acc as nat, chars@.subrange(from as int, to as int)) > u64::MAX,
        },
{
    let ghost digits = chars@.subrange(from as int, to as int);
    let mut value: u64 = acc;
    let mut i: usize = from;
    while i < to
        invariant
            from <= i <= to <= chars.len(),
            digits == chars@.subrange(from as int, to as int),
            all_digits(digits),
            value == append_digits(acc as nat, digits.take(i - from)),
        decreases to - i,
    {
        let c = chars[i];
        assert(digits[i - from] == c);
        let d = digit_of(c);
        let ghost next = digits.take(i + 1 - from);
        proof {
            assert(next.drop_last() =~= digits.take(i - from));
            assert(next.last() == c);
            assert(append_digits(acc as nat, next) == value * 10 + d);
        }
        if value > (u64::MAX - d as u64) / 10 {
            proof {
                assert(digits =~= next + digits.skip(i + 1 - from));
                lemma_append_digits_concat(acc as nat, next, digits.skip(i + 1 - from));
                lemma_append_digits_grows(
                    append_digits(acc as nat, next),
                    digits.skip(i + 1 - from),
                );
            }
            return None;
        }
        value = value * 10 + d as u64;
        i += 1;
    }
    assert(digits.take(to - from) =~= digits);
    Some(value)
}

impl Decimal {
    /// Reads a decimal from text: an optional sign, then digits with at most
    /// one point among them. Fails with `Malformed` on any other text, and
    /// with `TooLarge` where the digits, the point left out, exceed 64 bits.
    pub fn parse(s: &str) -> (r: Result<Decimal, DecimalError>)
        ensures
            match r {
                Ok(d) => decimal_of(s@) == Some(d@),
                Err(DecimalError::Malformed) => decimal_of(s@) is None,
                Err(DecimalError::TooLarge) => decimal_of(s@) is Some && decimal_of(
                    s@,
                )->0.mantissa > u64::MAX,
            },
    {
        let chars = chars_of(s);
        let n = chars.len();
        let signed = n > 0 && (chars[0] == '-' || chars[0] == '+');
        let negative = n > 0 && chars[0] == '-';
        let start: usize = if signed {
            1
        } else {
            0
        };
        let ghost body = chars@.skip(start as int);
        proof {
            if signed {
                assert(body =~= s@.drop_first());
            } else {
                assert(body =~= s@);
            }
        }
        match scan_unsigned(&chars, start) {
            None => Err(DecimalError::Malformed),
            Some(None) => {
                proof {
                    assert(chars@.subrange(start as int, n as int) =~= body);
                }
                match accumulate(&chars, start, n, 0) {
                    Some(mantissa) => Ok(Decimal { negative, mantissa, scale: 0 }),
                    None => Err(DecimalError::TooLarge),
                }
            },
            Some(Some(k)) => {
                let ghost whole = body.take(k - start);
                let ghost fraction = body.skip(k - start + 1);
                proof {
                    assert(!is_digit(body[k - start]));
                    let j = choose|j: int| point_at(body, j);
                    lemma_point_unique(body, j, k - start);
                    assert(chars@.subrange(start as int, k as int) =~= whole);
                    assert(chars@.subrange(k + 1, n as int) =~= fraction);
                    lemma_append_digits_concat(0, whole, fraction);
                }
                match accumulate(&chars, start, k, 0) {
                    None => {
                        proof {
                            lemma_append_digits_grows(append_digits(0, whole), fraction);
                        }
                        Err(DecimalError::TooLarge)
                    },
                    Some(high) => match accumulate(&chars, k + 1, n, high) {
                        None => Err(DecimalError::TooLarge),
                        Some(mantissa) => Ok(Decimal { negative, mantissa, scale: n - k - 1 }),
                    },
                }
            },
        }
    }
}

/// Powers of ten grow with the exponent.
pub proof fn lemma_pow10_monotonic(a: nat, b: nat)
    requires
        a <= b,
    ensures
        pow10(a) <= pow10(b),
        pow10(a) > 0,
    decreases b,
{
    if a < b {
        lemma_pow10_monotonic(a, (b - 1) as nat);
    } else if a > 0 {
        lemma_pow10_monotonic((a - 1) as nat, (a - 1) as nat);
    }
}

/// The product is cut off, never rounded: counted in units of the last
/// decimal place of the exact product, the magnitude of the result does not
/// exceed the exact product and falls short of it by less than one whole. The
/// result lies on the same side of zero as the exact product.
pub proof fn lemma_truncated_product_bounds(a: DecimalValue, b: DecimalValue)
    ensures
        ({
            let magnitude = if truncated_product(a, b) < 0 {
                -truncated_product(a, b)
            } else {
                truncated_product(a, b)
            };
            magnitude * pow10(a.scale + b.scale) <= a.mantissa * b.mantissa < (magnitude + 1)
                * pow10(a.scale + b.scale)
        }),
        a.negative == b.negative ==> truncated_product(a, b) >= 0,
        a.negative != b.negative ==> truncated_product(a, b) <= 0,
{
    let exact = a.mantissa * b.mantissa;
    let unit = pow10(a.scale + b.scale);
    lemma_pow10_monotonic(a.scale + b.scale, a.scale + b.scale);
    assert(exact >= 0) by (nonlinear_arith)
        requires
            exact == a.mantissa * b.mantissa,
    ;
    assert((exact / unit) * unit <= exact < (exact / unit + 1) * unit && exact / unit >= 0)
        by (nonlinear_arith)
        requires
            unit > 0,
            exact >= 0,
    ;
}

/// Ten to the power 38, the largest power of ten below 2 to the power 128.
pub proof fn lemma_pow10_38()
    ensures
        pow10(38) == 100_000_000_000_000_000_000_000_000_000_000_000_000nat,
{
    reveal_with_fuel(pow10, 39);
}

/// Ten to the power `k`, for the exponents whose power fits 128 bits.
fn pow10_u128(k: usize) -> (p: u128)
    requires
        k <= 38,
    ensures
        p == pow10(k as nat),
{
    let mut p: u128 = 1;
    let mut i: usize = 0;
    while i < k
        invariant
            i <= k <= 38,
            p == pow10(i as nat),
        decreases k - i,
    {
        proof {
            lemma_pow10_monotonic((i + 1) as nat, 38);
            lemma_pow10_38();
        }
        p = p * 10;
        i += 1;
    }
    p
}

impl Decimal {
    /// The integer part of `self` times `other`, cut off toward zero, and
    /// held to the nearest bound where it does not fit 64 bits.
    pub fn times_truncated(&self, other: &Decimal) -> (r: i64)
        ensures
            r == clamp_i64(truncated_product(self@, other@)),
    {
        let product: u128 = {
            assert(self.mantissa * other.mantissa <= u64::MAX * u64::MAX) by (nonlinear_arith)
                requires
                    self.mantissa <= u64::MAX,
                    other.mantissa <= u64::MAX,
            ;
            (self.mantissa as u128) * (other.mantissa as u128)
        };
        let ghost shift = (self.scale + other.scale) as nat;
        let magnitude: u128 = if self.scale > 38 || other.scale > 38 || self.scale + other.scale
            > 38 {
            proof {
                lemma_pow10_38();
                lemma_pow10_monotonic(39, shift);
                assert(pow10(39) == 10 * pow10(38));
                assert(product < pow10(shift));
                assert(product as nat / pow10(shift) == 0) by (nonlinear_arith)
                    requires
                        product < pow10(shift),
                ;
            }
            0
        } else {
            let divisor = pow10_u128(self.scale + other.scale);
            proof {
                lemma_pow10_monotonic(shift, shift);
            }
            product / divisor
        };
        assert(magnitude == (self@.mantissa * other@.mantissa) / pow10(shift));
        if self.negative != other.negative {
            if magnitude > 9_223_372_036_854_775_807u128 {
                i64::MIN
            } else {
                -(magnitude as i64)
            }
        } else {
            if magnitude > 9_223_372_036_854_775_807u128 {
                i64::MAX
            } else {
                magnitude as i64
            }
        }
    }
}

} // verus!
