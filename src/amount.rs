//! Decimal amounts.
//!
//! An [`Amount`] holds a decimal number as the pair `(mantissa, scale)`, the value
//! being `mantissa * 10^-scale`, exactly as `rust_decimal::Decimal` holds it. The
//! arithmetic itself is done by `rust_decimal`.
use vstd::arithmetic::power::pow;
use vstd::prelude::*;

verus! {

/// The largest mantissa magnitude a decimal can carry: `2^96 - 1`.
pub const MAX_MANTISSA: i128 = 0xFFFF_FFFF_FFFF_FFFF_FFFF_FFFF;

/// The largest number of digits after the decimal point.
pub const MAX_SCALE: u32 = 28;

pub open spec fn pow10(e: nat) -> int {
    pow(10, e)
}

/// `v`, a value in units of `10^-28`, written at `scale` digits after the point,
/// needs no more than 96 bits of mantissa.
pub open spec fn fits_at(v: int, scale: nat) -> bool {
    -(MAX_MANTISSA as int) * pow10((MAX_SCALE - scale) as nat) <= v
        <= (MAX_MANTISSA as int) * pow10((MAX_SCALE - scale) as nat)
}

/// The larger of two scales.
pub open spec fn max_scale(a: Amount, b: Amount) -> nat {
    if a.scale >= b.scale {
        a.scale as nat
    } else {
        b.scale as nat
    }
}

/// A sum or difference `v` of `a` and `b` is computed without rounding or clamping
/// when both operands and `v` fit at the larger of the two scales.
pub open spec fn exact(a: Amount, b: Amount, v: int) -> bool {
    let s = max_scale(a, b);
    fits_at(a.value(), s) && fits_at(b.value(), s) && fits_at(v, s)
}

/// The `(mantissa, scale)` that `rust_decimal`'s saturating addition gives.
pub uninterp spec fn decimal_saturating_add(a: (i128, u32), b: (i128, u32)) -> (i128, u32);

/// The `(mantissa, scale)` that `rust_decimal`'s saturating subtraction gives.
pub uninterp spec fn decimal_saturating_sub(a: (i128, u32), b: (i128, u32)) -> (i128, u32);

/// A decimal number `mantissa * 10^-scale`.
#[derive(Clone, Copy, Debug)]
pub struct Amount {
    pub mantissa: i128,
    pub scale: u32,
}

impl Amount {
    /// Representable as a decimal: at most 28 digits after the point and a
    /// 96-bit mantissa.
    pub open spec fn wf(self) -> bool {
        self.scale <= MAX_SCALE && -MAX_MANTISSA <= self.mantissa <= MAX_MANTISSA
    }

    /// The number, in units of `10^-28`.
    pub open spec fn value(self) -> int {
        self.mantissa * pow10((MAX_SCALE - self.scale) as nat)
    }

    pub open spec fn repr(self) -> (i128, u32) {
        (self.mantissa, self.scale)
    }

    pub open spec fn from_repr(r: (i128, u32)) -> Amount {
        Amount { mantissa: r.0, scale: r.1 }
    }

    /// `self + other`, as `rust_decimal` computes it.
    pub open spec fn add_spec(self, other: Amount) -> Amount {
        Amount::from_repr(decimal_saturating_add(self.repr(), other.repr()))
    }

    /// `self - other`, as `rust_decimal` computes it.
    pub open spec fn sub_spec(self, other: Amount) -> Amount {
        Amount::from_repr(decimal_saturating_sub(self.repr(), other.repr()))
    }

    /// The number `mantissa * 10^-scale`.
    pub fn new(mantissa: i128, scale: u32) -> (r: Amount)
        requires
            scale <= MAX_SCALE,
            -MAX_MANTISSA <= mantissa <= MAX_MANTISSA,
        ensures
            r.mantissa == mantissa,
            r.scale == scale,
            r.wf(),
    {
        Amount { mantissa, scale }
    }

    /// Whether the parts form a valid decimal.
    pub fn is_valid(&self) -> (r: bool)
        ensures
            r == self.wf(),
    {
        self.scale <= MAX_SCALE && -MAX_MANTISSA <= self.mantissa && self.mantissa <= MAX_MANTISSA
    }

    /// The number zero.
    pub fn zero() -> (r: Amount)
        ensures
            r == (Amount { mantissa: 0, scale: 0 }),
            r.wf(),
            r.value() == 0,
    {
        Amount { mantissa: 0, scale: 0 }
    }

    /// Whether the two amounts are the same number, whatever their scales.
    pub fn same_value(&self, other: &Amount) -> (r: bool)
        requires
            self.wf(),
            other.wf(),
        ensures
            r == (self.value() == other.value()),
    {
        match compare(*self, *other) {
            core::cmp::Ordering::Equal => true,
            _ => false,
        }
    }

    /// Whether `self < other` as numbers.
    pub fn less_than(&self, other: &Amount) -> (r: bool)
        requires
            self.wf(),
            other.wf(),
        ensures
            r == (self.value() < other.value()),
    {
        match compare(*self, *other) {
            core::cmp::Ordering::Less => true,
            _ => false,
        }
    }

    /// Whether the number is below zero.
    pub fn is_negative(&self) -> (r: bool)
        requires
            self.wf(),
        ensures
            r == (self.value() < 0),
    {
        self.less_than(&Amount::zero())
    }

    /// `self + other`, clamped at the largest or smallest representable decimal.
    pub fn saturating_add(self, other: Amount) -> (r: Amount)
        requires
            self.wf(),
            other.wf(),
        ensures
            r.wf(),
            r == self.add_spec(other),
            exact(self, other, self.value() + other.value()) ==> r.value() == self.value()
                + other.value(),
    {
        decimal_add(self, other)
    }

    /// `self - other`, clamped at the largest or smallest representable decimal.
    pub fn saturating_sub(self, other: Amount) -> (r: Amount)
        requires
            self.wf(),
            other.wf(),
        ensures
            r.wf(),
            r == self.sub_spec(other),
            exact(self, other, self.value() - other.value()) ==> r.value() == self.value()
                - other.value(),
    {
        decimal_sub(self, other)
    }
}

/// Equality of the numbers, as for decimals: `1.0 == 1.00`. Two values that are
/// not valid decimals are equal when their parts are.
impl PartialEq for Amount {
    fn eq(&self, other: &Amount) -> (r: bool) {
        if self.is_valid() && other.is_valid() {
            self.same_value(other)
        } else {
            self.mantissa == other.mantissa && self.scale == other.scale
        }
    }
}

impl vstd::std_specs::cmp::PartialEqSpecImpl for Amount {
    open spec fn obeys_eq_spec() -> bool {
        true
    }

    open spec fn eq_spec(&self, other: &Amount) -> bool {
        if self.wf() && other.wf() {
            self.value() == other.value()
        } else {
            self.mantissa == other.mantissa && self.scale == other.scale
        }
    }
}

/// An amount that is never below zero.
#[derive(Clone, Copy, Debug)]
pub struct NonNegativeDecimal(Amount);

impl View for NonNegativeDecimal {
    type V = Amount;

    closed spec fn view(&self) -> Amount {
        self.0
    }
}

impl NonNegativeDecimal {
    #[verifier::type_invariant]
    closed spec fn inv(self) -> bool {
        self.0.wf() && self.0.value() >= 0
    }

    /// The amount `a`, taken as not below zero.
    pub closed spec fn of(a: Amount) -> NonNegativeDecimal {
        NonNegativeDecimal(a)
    }

    /// What [`NonNegativeDecimal::of`] holds.
    pub broadcast proof fn lemma_of_view(a: Amount)
        ensures
            #[trigger] NonNegativeDecimal::of(a)@ == a,
    {
    }

    /// Zero.
    pub fn zero() -> (r: NonNegativeDecimal)
        ensures
            r@.value() == 0,
    {
        NonNegativeDecimal(Amount::zero())
    }

    /// Accepts `num` when it is a valid decimal that is not below zero.
    pub fn try_from(num: Amount) -> (r: Result<NonNegativeDecimal, AmountError>)
        ensures
            !num.wf() ==> r == Err::<NonNegativeDecimal, AmountError>(AmountError::OutOfRange),
            num.wf() && num.value() < 0 ==> r == Err::<NonNegativeDecimal, AmountError>(
                AmountError::Negative,
            ),
            num.wf() && num.value() >= 0 ==> r == Ok::<NonNegativeDecimal, AmountError>(
                NonNegativeDecimal::of(num),
            ),
    {
        if !num.is_valid() {
            Err(AmountError::OutOfRange)
        } else if num.is_negative() {
            Err(AmountError::Negative)
        } else {
            Ok(NonNegativeDecimal(num))
        }
    }

    /// The amount itself.
    pub fn into_inner(self) -> (r: Amount)
        ensures
            r == self@,
            r.wf(),
            r.value() >= 0,
    {
        proof {
            use_type_invariant(&self);
        }
        self.0
    }
}

/// Why an amount was refused.
#[derive(Clone, Copy, Debug, PartialEq, Eq, Structural)]
pub enum AmountError {
    /// The number is below zero.
    Negative,
    /// The number is not a valid decimal.
    OutOfRange,
}

/// Relies on rust_decimal's `Decimal::cmp`, which orders decimals by the numbers
/// they stand for, whatever their scales.
///
/// The operands are built with `Decimal::from_i128_with_scale`, which panics
/// on parts out of range (hence `wf`).
#[verifier::external_body]
fn compare(a: Amount, b: Amount) -> (r: core::cmp::Ordering)
    requires
        a.wf(),
        b.wf(),
    ensures
        (r == core::cmp::Ordering::Less) == (a.value() < b.value()),
        (r == core::cmp::Ordering::Equal) == (a.value() == b.value()),
        (r == core::cmp::Ordering::Greater) == (a.value() > b.value()),
{
    let x = rust_decimal::Decimal::from_i128_with_scale(a.mantissa, a.scale);
    let y = rust_decimal::Decimal::from_i128_with_scale(b.mantissa, b.scale);
    x.cmp(&y)
}

/// Relies on rust_decimal's `Decimal::saturating_add`: the result is a valid
/// decimal, determined by the two operands, and it is the exact sum whenever
/// the operands and the sum fit in 96 bits at the larger of the two scales.
///
/// The operands are built with `Decimal::from_i128_with_scale`, which panics
/// on parts out of range (hence `wf`), and the result is read back with
/// `Decimal::mantissa` and `Decimal::scale`.
#[verifier::external_body]
fn decimal_add(a: Amount, b: Amount) -> (r: Amount)
    requires
        a.wf(),
        b.wf(),
    ensures
        r.wf(),
        r.repr() == decimal_saturating_add(a.repr(), b.repr()),
        exact(a, b, a.value() + b.value()) ==> r.value() == a.value() + b.value(),
{
    let x = rust_decimal::Decimal::from_i128_with_scale(a.mantissa, a.scale);
    let y = rust_decimal::Decimal::from_i128_with_scale(b.mantissa, b.scale);
    let z = x.saturating_add(y);
    Amount { mantissa: z.mantissa(), scale: z.scale() }
}

/// Relies on rust_decimal's `Decimal::saturating_sub`: the result is a valid
/// decimal, determined by the two operands, and it is the exact difference
/// whenever the operands and the difference fit in 96 bits at the larger of the
/// two scales.
///
/// The operands are built with `Decimal::from_i128_with_scale`, which panics
/// on parts out of range (hence `wf`), and the result is read back with
/// `Decimal::mantissa` and `Decimal::scale`.
#[verifier::external_body]
fn decimal_sub(a: Amount, b: Amount) -> (r: Amount)
    requires
        a.wf(),
        b.wf(),
    ensures
        r.wf(),
        r.repr() == decimal_saturating_sub(a.repr(), b.repr()),
        exact(a, b, a.value() - b.value()) ==> r.value() == a.value() - b.value(),
{
    let x = rust_decimal::Decimal::from_i128_with_scale(a.mantissa, a.scale);
    let y = rust_decimal::Decimal::from_i128_with_scale(b.mantissa, b.scale);
    let z = x.saturating_sub(y);
    Amount { mantissa: z.mantissa(), scale: z.scale() }
}

} // verus!
