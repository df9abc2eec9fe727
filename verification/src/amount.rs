//! Monetary amounts.
//!
//! An `Amount` is a decimal number `mantissa * 10^-scale`, with the same range as
//! `rust_decimal::Decimal`: a mantissa of at most 96 bits and a scale of at most 28.
//! All arithmetic and comparisons are carried out by `rust_decimal`; this module holds
//! the value as plain integers so that contracts can speak of it.
use vstd::prelude::*;
use vstd::arithmetic::power::{pow, lemma_pow_positive};
use vstd::arithmetic::mul::lemma_mul_inequality;
use rust_decimal::Decimal;

verus! {

/// Largest magnitude of a mantissa: `2^96 - 1`.
pub open spec fn max_mantissa() -> int {
    79_228_162_514_264_337_593_543_950_335
}

/// Largest scale (number of fractional digits).
pub open spec fn max_scale() -> nat {
    28
}

/// How many places the scale `s` lies below the largest scale (zero beyond it).
pub open spec fn scale_gap(s: nat) -> nat {
    if s <= max_scale() {
        (max_scale() - s) as nat
    } else {
        0
    }
}

/// A decimal amount of money.
#[derive(Clone, Copy, Debug)]
pub struct Amount {
    mantissa: i128,
    scale: u32,
}

impl Amount {
    /// Every amount is in the range of `rust_decimal::Decimal`.
    #[verifier::type_invariant]
    pub closed spec fn is_valid(self) -> bool {
        &&& self.scale <= max_scale()
        &&& -max_mantissa() <= self.mantissa <= max_mantissa()
    }

    /// The mantissa.
    pub closed spec fn mantissa_spec(self) -> int {
        self.mantissa as int
    }

    /// The number of fractional digits.
    pub closed spec fn scale_spec(self) -> nat {
        self.scale as nat
    }

    /// The value of the amount in units of `10^-28`, an exact integer.
    pub open spec fn units(self) -> int {
        self.mantissa_spec() * pow(10, scale_gap(self.scale_spec()))
    }

    /// The amount zero, with scale zero.
    pub closed spec fn zero_spec() -> Amount {
        Amount { mantissa: 0, scale: 0 }
    }

    /// Builds `num * 10^-scale`.
    pub fn new(num: i64, scale: u32) -> (r: Amount)
        requires
            scale <= max_scale(),
        ensures
            r.mantissa_spec() == num,
            r.scale_spec() == scale,
    {
        Amount { mantissa: num as i128, scale }
    }

    /// Builds `mantissa * 10^-scale`, or `None` when that is outside the range of a decimal.
    pub fn from_parts(mantissa: i128, scale: u32) -> (r: Option<Amount>)
        ensures
            r is Some <==> (scale <= max_scale() && -max_mantissa() <= mantissa <= max_mantissa()),
            r matches Some(a) ==> a.mantissa_spec() == mantissa && a.scale_spec() == scale,
    {
        if scale <= 28 && -79_228_162_514_264_337_593_543_950_335i128 <= mantissa
            && mantissa <= 79_228_162_514_264_337_593_543_950_335i128 {
            Some(Amount { mantissa, scale })
        } else {
            None
        }
    }

    /// The amount zero.
    pub fn zero() -> (r: Amount)
        ensures
            r == Amount::zero_spec(),
    {
        Amount { mantissa: 0, scale: 0 }
    }

    /// The mantissa.
    pub fn mantissa(&self) -> (m: i128)
        ensures
            m == self.mantissa_spec(),
            -max_mantissa() <= m <= max_mantissa(),
    {
        proof {
            use_type_invariant(self);
        }
        self.mantissa
    }

    /// The number of fractional digits.
    pub fn scale(&self) -> (s: u32)
        ensures
            s == self.scale_spec(),
            s <= max_scale(),
    {
        proof {
            use_type_invariant(self);
        }
        self.scale
    }

    /// Zero has mantissa, scale and value zero.
    pub proof fn lemma_zero()
        ensures
            Amount::zero_spec().mantissa_spec() == 0,
            Amount::zero_spec().scale_spec() == 0,
            Amount::zero_spec().units() == 0,
    {
    }

    /// Adding a valid amount to zero is exact.
    pub proof fn lemma_zero_adds_exactly(a: Amount)
        requires
            a.is_valid(),
        ensures
            adds_exactly(Amount::zero_spec(), a),
    {
        let p = pow(10, scale_gap(a.scale_spec()));
        lemma_pow_positive(10, scale_gap(a.scale_spec()));
        lemma_mul_inequality(a.mantissa_spec(), max_mantissa(), p);
        lemma_mul_inequality(-max_mantissa(), a.mantissa_spec(), p);
        assert((-max_mantissa()) * p == -(max_mantissa() * p)) by (nonlinear_arith);
        assert(max_scale_of(Amount::zero_spec(), a) == a.scale_spec());
        Amount::lemma_zero();
    }

    /// `self + other`, or `None` on overflow.
    pub fn checked_add(self, other: Amount) -> (r: Option<Amount>)
        ensures
            r == decimal_checked_add(self, other),
            add_fact(self, other),
    {
        proof {
            use_type_invariant(self);
            use_type_invariant(other);
        }
        decimal_add(self, other)
    }

    /// `self - other`, or `None` on overflow.
    pub fn checked_sub(self, other: Amount) -> (r: Option<Amount>)
        ensures
            r == decimal_checked_sub(self, other),
            sub_fact(self, other),
    {
        proof {
            use_type_invariant(self);
            use_type_invariant(other);
        }
        decimal_sub(self, other)
    }

    /// Whether `self >= other` as numbers.
    pub fn at_least(&self, other: &Amount) -> (b: bool)
        ensures
            b == (self.units() >= other.units()),
    {
        proof {
            use_type_invariant(self);
            use_type_invariant(other);
        }
        decimal_ge(self, other)
    }
}

/// The larger of the two scales.
pub open spec fn max_scale_of(a: Amount, b: Amount) -> nat {
    if a.scale_spec() >= b.scale_spec() {
        a.scale_spec()
    } else {
        b.scale_spec()
    }
}

/// Bound on the value (in units of `10^-28`) of an exact result at scale `s`.
pub open spec fn exact_bound(s: nat) -> int {
    max_mantissa() * pow(10, scale_gap(s))
}

/// The exact sum of `a` and `b` fits a 96-bit mantissa at the larger of their scales.
pub open spec fn adds_exactly(a: Amount, b: Amount) -> bool {
    -exact_bound(max_scale_of(a, b)) <= a.units() + b.units() <= exact_bound(max_scale_of(a, b))
}

/// The exact difference of `a` and `b` fits a 96-bit mantissa at the larger of their scales.
pub open spec fn subs_exactly(a: Amount, b: Amount) -> bool {
    -exact_bound(max_scale_of(a, b)) <= a.units() - b.units() <= exact_bound(max_scale_of(a, b))
}

/// `a` itself fits a 96-bit mantissa at scale `s`.
pub open spec fn fits_at(a: Amount, s: nat) -> bool {
    -exact_bound(s) <= a.units() <= exact_bound(s)
}

/// The shape of an exact decimal sum `r` of `a` and `b`: its value is the sum; adding to
/// zero gives the other operand unchanged; otherwise it has the larger of the two scales.
pub open spec fn exact_sum_shape(a: Amount, b: Amount, r: Amount) -> bool {
    &&& r.units() == a.units() + b.units()
    &&& a.mantissa_spec() == 0 ==> r == b
    &&& (a.mantissa_spec() != 0 && b.mantissa_spec() == 0) ==> r == a
    &&& (a.mantissa_spec() != 0 && b.mantissa_spec() != 0) ==> r.scale_spec() == max_scale_of(
        a,
        b,
    )
}

/// The shape of an exact decimal difference `r` of `a` and `b`: its value is the
/// difference; `0 - 0` gives `b`, `0 - b` has the scale of `b`, `a - 0` gives `a`;
/// otherwise it has the larger of the two scales.
pub open spec fn exact_difference_shape(a: Amount, b: Amount, r: Amount) -> bool {
    &&& r.units() == a.units() - b.units()
    &&& (a.mantissa_spec() == 0 && b.mantissa_spec() == 0) ==> r == b
    &&& (a.mantissa_spec() == 0 && b.mantissa_spec() != 0) ==> r.scale_spec() == b.scale_spec()
    &&& (a.mantissa_spec() != 0 && b.mantissa_spec() == 0) ==> r == a
    &&& (a.mantissa_spec() != 0 && b.mantissa_spec() != 0) ==> r.scale_spec() == max_scale_of(
        a,
        b,
    )
}

/// Where the sum fits, the decimal sum is computed without rounding.
pub open spec fn add_fact(a: Amount, b: Amount) -> bool {
    adds_exactly(a, b) ==> {
        &&& decimal_checked_add(a, b) is Some
        &&& exact_sum_shape(a, b, decimal_checked_add(a, b).unwrap())
    }
}

/// Where the difference fits, the decimal difference is computed without rounding; and
/// the difference of `a >= b`, rounded or not, is never negative.
pub open spec fn sub_fact(a: Amount, b: Amount) -> bool {
    &&& subs_exactly(a, b) ==> {
        &&& decimal_checked_sub(a, b) is Some
        &&& exact_difference_shape(a, b, decimal_checked_sub(a, b).unwrap())
    }
    &&& (a.units() >= b.units() && decimal_checked_sub(a, b) is Some) ==> decimal_checked_sub(
        a,
        b,
    ).unwrap().units() >= 0
}

/// An exact sum has at most the larger of the two scales.
pub proof fn lemma_sum_scale(a: Amount, b: Amount, r: Amount)
    requires
        exact_sum_shape(a, b, r),
    ensures
        r.scale_spec() <= max_scale_of(a, b),
{
}

/// An exact difference has at most the larger of the two scales.
pub proof fn lemma_difference_scale(a: Amount, b: Amount, r: Amount)
    requires
        exact_difference_shape(a, b, r),
    ensures
        r.scale_spec() <= max_scale_of(a, b),
{
}

/// A smaller scale leaves room for larger values.
pub proof fn lemma_exact_bound_decreases(s1: nat, s2: nat)
    requires
        s1 <= s2,
    ensures
        exact_bound(s2) <= exact_bound(s1),
{
    vstd::arithmetic::power::lemma_pow_increases(10, scale_gap(s2), scale_gap(s1));
    lemma_mul_inequality(pow(10, scale_gap(s2)), pow(10, scale_gap(s1)), max_mantissa());
    assert(pow(10, scale_gap(s2)) * max_mantissa() == exact_bound(s2)) by (nonlinear_arith);
    assert(pow(10, scale_gap(s1)) * max_mantissa() == exact_bound(s1)) by (nonlinear_arith);
}

/// What `rust_decimal::Decimal::checked_add` returns for the decimals that `a` and `b` stand for.
pub uninterp spec fn decimal_checked_add(a: Amount, b: Amount) -> Option<Amount>;

/// What `rust_decimal::Decimal::checked_sub` returns for the decimals that `a` and `b` stand for.
pub uninterp spec fn decimal_checked_sub(a: Amount, b: Amount) -> Option<Amount>;

/// Calls `rust_decimal::Decimal::checked_add`.
///
/// Claimed of it: the result is the named `decimal_checked_add(a, b)`, and, when the exact
/// sum fits 96 bits at the larger of the two scales, it is `Some` and equals the exact sum
/// (the crate rounds, by reducing the scale, only when the aligned sum overflows 96 bits):
/// adding to zero returns the other operand as it is, and otherwise the result has the
/// larger of the two scales. What it returns where it rounds, and when it overflows, is
/// left to the name.
#[verifier::external_body]
fn decimal_add(a: Amount, b: Amount) -> (r: Option<Amount>)
    requires
        a.is_valid(),
        b.is_valid(),
    ensures
        r == decimal_checked_add(a, b),
        adds_exactly(a, b) ==> (r is Some && exact_sum_shape(a, b, r.unwrap())),
{
    let x = Decimal::from_i128_with_scale(a.mantissa, a.scale);
    let y = Decimal::from_i128_with_scale(b.mantissa, b.scale);
    match x.checked_add(y) {
        Some(s) => Some(Amount { mantissa: s.mantissa(), scale: s.scale() }),
        None => None,
    }
}

/// Calls `rust_decimal::Decimal::checked_sub`.
///
/// Claimed of it: the result is the named `decimal_checked_sub(a, b)`; when the exact
/// difference fits 96 bits at the larger of the two scales, it is `Some` and equals the exact
/// difference, with the shape that `exact_difference_shape` gives (zero operands are passed
/// through, otherwise the larger scale); and when `a >= b`, a result, rounded or not, is not
/// negative (the crate rounds the magnitude to nearest and keeps the sign of the exact
/// difference). What it returns where it rounds, and when it overflows, is otherwise left to
/// the name.
#[verifier::external_body]
fn decimal_sub(a: Amount, b: Amount) -> (r: Option<Amount>)
    requires
        a.is_valid(),
        b.is_valid(),
    ensures
        r == decimal_checked_sub(a, b),
        subs_exactly(a, b) ==> (r is Some && exact_difference_shape(a, b, r.unwrap())),
        (a.units() >= b.units() && r is Some) ==> r.unwrap().units() >= 0,
{
    let x = Decimal::from_i128_with_scale(a.mantissa, a.scale);
    let y = Decimal::from_i128_with_scale(b.mantissa, b.scale);
    match x.checked_sub(y) {
        Some(s) => Some(Amount { mantissa: s.mantissa(), scale: s.scale() }),
        None => None,
    }
}

/// Calls `>=` of `rust_decimal::Decimal` (its `PartialOrd`).
///
/// Claimed of it: it compares the two numbers exactly, whatever their scales.
#[verifier::external_body]
fn decimal_ge(a: &Amount, b: &Amount) -> (r: bool)
    requires
        a.is_valid(),
        b.is_valid(),
    ensures
        r == (a.units() >= b.units()),
{
    Decimal::from_i128_with_scale(a.mantissa, a.scale) >= Decimal::from_i128_with_scale(
        b.mantissa,
        b.scale,
    )
}

/// Calls `==` of `rust_decimal::Decimal` (its `PartialEq`).
///
/// Claimed of it: it holds exactly when the two numbers are equal, whatever their scales.
#[verifier::external_body]
fn decimal_eq(a: &Amount, b: &Amount) -> (r: bool)
    requires
        a.is_valid(),
        b.is_valid(),
    ensures
        r == (a.units() == b.units()),
{
    Decimal::from_i128_with_scale(a.mantissa, a.scale) == Decimal::from_i128_with_scale(
        b.mantissa,
        b.scale,
    )
}

impl PartialEq for Amount {
    fn eq(&self, other: &Amount) -> (r: bool) {
        proof {
            use_type_invariant(self);
            use_type_invariant(other);
        }
        decimal_eq(self, other)
    }
}

impl vstd::std_specs::cmp::PartialEqSpecImpl for Amount {
    open spec fn obeys_eq_spec() -> bool {
        true
    }

    open spec fn eq_spec(&self, other: &Amount) -> bool {
        self.units() == other.units()
    }
}

} // verus!
