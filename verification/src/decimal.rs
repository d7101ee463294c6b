//! Exact decimal numbers as plain values: `mantissa × 10^-scale`, the
//! representation `rust_decimal::Decimal` exposes through `mantissa()` and
//! `scale()`. The arithmetic is `rust_decimal`'s.
use vstd::prelude::*;

verus! {

#[derive(Debug, Clone, Copy, PartialEq, Eq, Structural)]
pub struct DecimalValue {
    pub mantissa: i128,
    pub scale: u32,
}

/// The largest mantissa magnitude a `Decimal` holds (96 bits).
pub const MAX_MANTISSA: i128 = 79228162514264337593543950335;

/// The largest scale a `Decimal` holds.
pub const MAX_SCALE: u32 = 28;

pub open spec fn pow10(n: nat) -> int
    decreases n,
{
    if n == 0 {
        1
    } else {
        10 * pow10((n - 1) as nat)
    }
}

/// The larger of two scales.
pub open spec fn max_scale(a: DecimalValue, b: DecimalValue) -> nat {
    if a.scale >= b.scale {
        a.scale as nat
    } else {
        b.scale as nat
    }
}

impl DecimalValue {
    /// The value is greater than zero (its sign is the mantissa's).
    pub open spec fn spec_is_positive(self) -> bool {
        self.mantissa > 0
    }

    /// The value is below zero.
    pub open spec fn spec_is_negative(self) -> bool {
        self.mantissa < 0
    }

    /// A `Decimal` can hold the value exactly as written.
    pub open spec fn is_valid(self) -> bool {
        -MAX_MANTISSA <= self.mantissa <= MAX_MANTISSA && self.scale <= MAX_SCALE
    }

    /// The mantissa of the same value written with `scale` decimal places
    /// (`scale` at least the value's own).
    pub open spec fn at_scale(self, scale: nat) -> int {
        self.mantissa * pow10((scale - self.scale) as nat)
    }

    pub fn is_positive(&self) -> (r: bool)
        ensures
            r == self.spec_is_positive(),
    {
        self.mantissa > 0
    }

    pub fn is_negative(&self) -> (r: bool)
        ensures
            r == self.spec_is_negative(),
    {
        self.mantissa < 0
    }
}

/// Zero, `Decimal::ZERO`.
pub open spec fn spec_zero() -> DecimalValue {
    DecimalValue { mantissa: 0, scale: 0 }
}

/// `a` and `b` written with the larger of their scales, and their exact sum
/// (`sign_b` = -1 for a difference), all fit in 96 bits.
pub open spec fn sum_fits(a: DecimalValue, b: DecimalValue, sign_b: int) -> bool {
    let s = max_scale(a, b);
    &&& -MAX_MANTISSA <= a.at_scale(s) <= MAX_MANTISSA
    &&& -MAX_MANTISSA <= b.at_scale(s) <= MAX_MANTISSA
    &&& -MAX_MANTISSA <= a.at_scale(s) + sign_b * b.at_scale(s) <= MAX_MANTISSA
}

/// `x` is the exact value `a + sign_b × b`, written with at most the larger
/// scale of `a` and `b`.
pub open spec fn is_exact_sum(x: DecimalValue, a: DecimalValue, b: DecimalValue, sign_b: int) -> bool {
    let s = max_scale(a, b);
    x.scale <= s && x.at_scale(s) == a.at_scale(s) + sign_b * b.at_scale(s)
}

/// `r` holds the exact value `a + sign_b × b`.
pub open spec fn exact_result(r: Option<DecimalValue>, a: DecimalValue, b: DecimalValue, sign_b: int) -> bool {
    r matches Some(x) && is_exact_sum(x, a, b, sign_b)
}

/// What `Decimal::checked_add` returns for `a` and `b` (`None` also when a
/// `Decimal` cannot hold `a` or `b`).
pub uninterp spec fn decimal_checked_add(a: DecimalValue, b: DecimalValue) -> Option<DecimalValue>;

/// What `Decimal::checked_sub` returns for `a` and `b` (`None` also when a
/// `Decimal` cannot hold `a` or `b`).
pub uninterp spec fn decimal_checked_sub(a: DecimalValue, b: DecimalValue) -> Option<DecimalValue>;

/// What `Decimal::checked_mul` returns for `a` and `b` (`None` also when a
/// `Decimal` cannot hold `a` or `b`).
pub uninterp spec fn decimal_checked_mul(a: DecimalValue, b: DecimalValue) -> Option<DecimalValue>;

/// What `Decimal::round_dp` returns for `a` and `dp` (banker's rounding to
/// `dp` decimal places).
pub uninterp spec fn decimal_round_dp(a: DecimalValue, dp: u32) -> DecimalValue;

/// `Decimal::checked_add`. The source (`ops/add.rs`) aligns both operands to
/// the larger scale and adds exactly when that fits in 96 bits; a zero
/// operand gives the other operand back. Which rounded value or `None` comes
/// back when the aligned operands or the sum do not fit is left unsaid.
#[verifier::external_body]
pub(crate) fn checked_add(a: DecimalValue, b: DecimalValue) -> (r: Option<DecimalValue>)
    ensures
        r == decimal_checked_add(a, b),
        r matches Some(x) ==> x.is_valid(),
        !(a.is_valid() && b.is_valid()) ==> r is None,
        a.is_valid() && b.is_valid() && sum_fits(a, b, 1) ==> exact_result(r, a, b, 1),
{
    let x = rust_decimal::Decimal::try_from_i128_with_scale(a.mantissa, a.scale).ok()?;
    let y = rust_decimal::Decimal::try_from_i128_with_scale(b.mantissa, b.scale).ok()?;
    let s = x.checked_add(y)?;
    Some(DecimalValue { mantissa: s.mantissa(), scale: s.scale() })
}

/// `Decimal::checked_sub`, the same code as `checked_add` with `b` negated;
/// exact under the same condition.
#[verifier::external_body]
pub(crate) fn checked_sub(a: DecimalValue, b: DecimalValue) -> (r: Option<DecimalValue>)
    ensures
        r == decimal_checked_sub(a, b),
        r matches Some(x) ==> x.is_valid(),
        !(a.is_valid() && b.is_valid()) ==> r is None,
        a.is_valid() && b.is_valid() && sum_fits(a, b, -1) ==> exact_result(r, a, b, -1),
{
    let x = rust_decimal::Decimal::try_from_i128_with_scale(a.mantissa, a.scale).ok()?;
    let y = rust_decimal::Decimal::try_from_i128_with_scale(b.mantissa, b.scale).ok()?;
    let s = x.checked_sub(y)?;
    Some(DecimalValue { mantissa: s.mantissa(), scale: s.scale() })
}

/// `Decimal::checked_mul`. The source (`ops/mul.rs`) gives zero (scale 0)
/// when an operand is zero, and otherwise the product of the mantissas with
/// the sum of the scales when that fits in 96 bits and 28 places; what comes
/// back otherwise is left unsaid.
#[verifier::external_body]
pub(crate) fn checked_mul(a: DecimalValue, b: DecimalValue) -> (r: Option<DecimalValue>)
    ensures
        r == decimal_checked_mul(a, b),
        r matches Some(x) ==> x.is_valid(),
        !(a.is_valid() && b.is_valid()) ==> r is None,
        a.is_valid() && b.is_valid() && (a.mantissa == 0 || b.mantissa == 0) ==> r == Some(spec_zero()),
        a.is_valid() && b.is_valid() && a.mantissa != 0 && b.mantissa != 0 && a.scale + b.scale
            <= MAX_SCALE && -MAX_MANTISSA <= a.mantissa * b.mantissa <= MAX_MANTISSA ==> r == Some(
            DecimalValue { mantissa: (a.mantissa * b.mantissa) as i128, scale: (a.scale + b.scale) as u32 },
        ),
{
    let x = rust_decimal::Decimal::try_from_i128_with_scale(a.mantissa, a.scale).ok()?;
    let y = rust_decimal::Decimal::try_from_i128_with_scale(b.mantissa, b.scale).ok()?;
    let s = x.checked_mul(y)?;
    Some(DecimalValue { mantissa: s.mantissa(), scale: s.scale() })
}

/// `Decimal::round_dp`. Its source returns the value unchanged when it has at
/// most `dp` places, and otherwise divides the mantissa down to `dp` places,
/// which is exact when nothing but zeros is dropped.
#[verifier::external_body]
pub(crate) fn round_dp(a: DecimalValue, dp: u32) -> (r: DecimalValue)
    requires
        a.is_valid(),
    ensures
        r == decimal_round_dp(a, dp),
        r.is_valid(),
        a.scale <= dp ==> r == a,
        a.scale > dp && (a.mantissa as int) % pow10((a.scale - dp) as nat) == 0 ==> r == (DecimalValue {
            mantissa: ((a.mantissa as int) / pow10((a.scale - dp) as nat)) as i128,
            scale: dp,
        }),
{
    let x = rust_decimal::Decimal::from_i128_with_scale(a.mantissa, a.scale);
    let s = x.round_dp(dp);
    DecimalValue { mantissa: s.mantissa(), scale: s.scale() }
}

} // verus!
