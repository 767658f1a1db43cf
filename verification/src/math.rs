//! Shared fixed-point primitives.
//!
//! Every monetary or ratio quantity in the engine is an integer scaled by
//! a fixed exponent.  Multiply-then-divide steps compute the product at
//! full `u128` width and fail loudly (`Errors::MathError`) if it does not
//! fit, rather than wrapping.  The single rounding rule is: the magnitude
//! of a quotient rounds down (round toward zero for signed quantities).
//! Division by a zero denominator is a programming-invariant violation
//! and is excluded by precondition, not reported as a business error.

use vstd::arithmetic::div_mod::{
    lemma_div_is_ordered, lemma_div_multiples_vanish, lemma_div_nonincreasing, lemma_div_pos_is_pos,
};
use vstd::arithmetic::mul::{lemma_mul_inequality, lemma_mul_nonnegative};
use vstd::prelude::*;

use crate::errors::Errors;

verus! {

/// Prices are integers scaled by this factor: a stored value of
/// `1_000_000` denotes a price of 1.0.
pub const MARK_PRICE_PRECISION: u128 = 1_000_000;

/// Margin ratios and margin thresholds are expressed in basis points.
pub const MARGIN_PRECISION: u128 = 10_000;

/// Divisor that turns a mark/oracle TWAP spread into a per-period
/// funding rate.
pub const FUNDING_RATE_NORMALIZER: u128 = 24;

/// Truncating signed division: the magnitude of the quotient rounds
/// down, so the result rounds toward zero.
pub open spec fn tdiv(a: int, d: int) -> int
    recommends
        d > 0,
{
    if a >= 0 {
        a / d
    } else {
        -((-a) / d)
    }
}

/// Checked `u128` addition; overflow fails loudly.
pub fn add_u128(a: u128, b: u128) -> (r: Result<u128, Errors>)
    ensures
        a + b <= u128::MAX ==> r == Ok::<u128, Errors>((a + b) as u128),
        a + b > u128::MAX ==> r == Err::<u128, Errors>(Errors::MathError),
{
    match a.checked_add(b) {
        Some(v) => Ok(v),
        None => Err(Errors::MathError),
    }
}

/// Checked `u128` multiplication; overflow fails loudly.
pub fn mul_u128(a: u128, b: u128) -> (r: Result<u128, Errors>)
    ensures
        a * b <= u128::MAX ==> r == Ok::<u128, Errors>((a * b) as u128),
        a * b > u128::MAX ==> r == Err::<u128, Errors>(Errors::MathError),
{
    match a.checked_mul(b) {
        Some(v) => Ok(v),
        None => Err(Errors::MathError),
    }
}

/// Multiply then divide, rounding down: `a * b / d`.  The product is
/// formed at full width before the division; a product beyond `u128`
/// fails loudly.
pub fn mul_div_u128(a: u128, b: u128, d: u128) -> (r: Result<u128, Errors>)
    requires
        d > 0,
    ensures
        a * b <= u128::MAX ==> r == Ok::<u128, Errors>((a * b / (d as int)) as u128),
        a * b > u128::MAX ==> r == Err::<u128, Errors>(Errors::MathError),
{
    match a.checked_mul(b) {
        Some(p) => Ok(p / d),
        None => Err(Errors::MathError),
    }
}

/// Checked application of a signed delta to an unsigned accumulator;
/// leaving `u128` in either direction fails loudly.
pub fn add_signed_u128(a: u128, b: i128) -> (r: Result<u128, Errors>)
    ensures
        0 <= a + b <= u128::MAX ==> r == Ok::<u128, Errors>((a + b) as u128),
        !(0 <= a + b <= u128::MAX) ==> r == Err::<u128, Errors>(Errors::MathError),
{
    match a.checked_add_signed(b) {
        Some(v) => Ok(v),
        None => Err(Errors::MathError),
    }
}

/// Signed division by a positive divisor, rounding toward zero.
pub fn div_to_zero_i128(a: i128, d: u128) -> (r: i128)
    requires
        d > 0,
        d <= i128::MAX,
        a > i128::MIN,
    ensures
        r == tdiv(a as int, d as int),
{
    if a >= 0 {
        let q: u128 = (a as u128) / d;
        proof {
            lemma_div_nonincreasing(a as int, d as int);
        }
        q as i128
    } else {
        let m: u128 = ((-a) as u128) / d;
        proof {
            lemma_div_nonincreasing((-a) as int, d as int);
        }
        -(m as i128)
    }
}

/// Applying a ratio `num / den` with `num <= den` to a non-negative
/// quantity, rounding down, yields a result between zero and the
/// quantity itself: discounts and penalties never exceed their base.
pub proof fn lemma_ratio_le(x: int, num: int, den: int)
    requires
        x >= 0,
        den > 0,
        0 <= num <= den,
    ensures
        0 <= (x * num) / den <= x,
{
    lemma_mul_nonnegative(x, num);
    lemma_div_pos_is_pos(x * num, den);
    lemma_mul_inequality(num, den, x);
    assert(num * x <= den * x);
    assert(x * num == num * x) by (nonlinear_arith);
    assert(x * den == den * x) by (nonlinear_arith);
    lemma_div_is_ordered(x * num, den * x, den);
    lemma_div_multiples_vanish(x, den);
}

/// Truncating division by a positive divisor is monotone.
pub proof fn lemma_tdiv_monotone(a: int, b: int, d: int)
    requires
        a <= b,
        d > 0,
    ensures
        tdiv(a, d) <= tdiv(b, d),
{
    if a >= 0 {
        lemma_div_is_ordered(a, b, d);
    } else if b < 0 {
        lemma_div_is_ordered(-b, -a, d);
    } else {
        lemma_div_pos_is_pos(-a, d);
        lemma_div_pos_is_pos(b, d);
    }
}

} // verus!
