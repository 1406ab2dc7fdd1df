//! Checked arithmetic on unsigned 64-bit quantities.
//!
//! Amounts are counted in the smallest unit of the asset and rates are scaled
//! by [`SCALE`]. No operation wraps: a result that does not fit is an error.

use vstd::prelude::*;
use crate::error::ErrorCode;

verus! {

/// One whole unit, in the smallest denomination; also the scale of the
/// exchange rate.
pub const SCALE: u64 = 1_000_000_000;

/// The number of basis points in the whole.
pub const BPS_DENOMINATOR: u64 = 10_000;

/// `a * b / d` rounded down, as a mathematical integer.
pub open spec fn mul_div_floor(a: u64, b: u64, d: u64) -> int {
    (a * b) / (d as int)
}

/// Whether `a * b / d` can be computed in 64 bits: the product fits and the
/// divisor is not zero.
pub open spec fn mul_div_fits(a: u64, b: u64, d: u64) -> bool {
    a * b <= u64::MAX && d != 0
}

/// The sum of `a` and `b`, or `ArithmeticOverflow` if it does not fit.
pub fn add_checked(a: u64, b: u64) -> (r: Result<u64, ErrorCode>)
    ensures
        a + b <= u64::MAX ==> r == Ok::<u64, ErrorCode>((a + b) as u64),
        a + b > u64::MAX ==> r == Err::<u64, ErrorCode>(ErrorCode::ArithmeticOverflow),
{
    match a.checked_add(b) {
        Some(s) => Ok(s),
        None => Err(ErrorCode::ArithmeticOverflow),
    }
}

/// The difference of `a` and `b`, or `ArithmeticUnderflow` if `b` exceeds `a`.
pub fn sub_checked(a: u64, b: u64) -> (r: Result<u64, ErrorCode>)
    ensures
        b <= a ==> r == Ok::<u64, ErrorCode>((a - b) as u64),
        b > a ==> r == Err::<u64, ErrorCode>(ErrorCode::ArithmeticUnderflow),
{
    match a.checked_sub(b) {
        Some(d) => Ok(d),
        None => Err(ErrorCode::ArithmeticUnderflow),
    }
}

/// The product of `a` and `b`, or `ArithmeticOverflow` if it does not fit.
pub fn mul_checked(a: u64, b: u64) -> (r: Result<u64, ErrorCode>)
    ensures
        a * b <= u64::MAX ==> r == Ok::<u64, ErrorCode>((a * b) as u64),
        a * b > u64::MAX ==> r == Err::<u64, ErrorCode>(ErrorCode::ArithmeticOverflow),
{
    match a.checked_mul(b) {
        Some(p) => Ok(p),
        None => Err(ErrorCode::ArithmeticOverflow),
    }
}

/// The quotient of `a` by `d` rounded down, or `ArithmeticOverflow` if `d` is
/// zero.
pub fn div_checked(a: u64, d: u64) -> (r: Result<u64, ErrorCode>)
    ensures
        d != 0 ==> r == Ok::<u64, ErrorCode>(a / d),
        d == 0 ==> r == Err::<u64, ErrorCode>(ErrorCode::ArithmeticOverflow),
{
    match a.checked_div(d) {
        Some(q) => Ok(q),
        None => Err(ErrorCode::ArithmeticOverflow),
    }
}

/// `a * b / d` rounded down, with the product taken in 64 bits:
/// `ArithmeticOverflow` if the product does not fit or `d` is zero.
pub fn mul_div(a: u64, b: u64, d: u64) -> (r: Result<u64, ErrorCode>)
    ensures
        mul_div_fits(a, b, d) ==> r == Ok::<u64, ErrorCode>(mul_div_floor(a, b, d) as u64),
        mul_div_fits(a, b, d) ==> mul_div_floor(a, b, d) <= a * b,
        !mul_div_fits(a, b, d) ==> r == Err::<u64, ErrorCode>(ErrorCode::ArithmeticOverflow),
{
    let p: u64 = match mul_checked(a, b) {
        Ok(p) => p,
        Err(e) => { return Err(e); },
    };
    let q: u64 = match div_checked(p, d) {
        Ok(q) => q,
        Err(e) => { return Err(e); },
    };
    proof {
        lemma_quotient_at_most_dividend(p as int, d as int);
    }
    Ok(q)
}

/// A quotient by a positive divisor is between zero and the dividend.
pub proof fn lemma_quotient_at_most_dividend(x: int, d: int)
    requires
        0 <= x,
        0 < d,
    ensures
        0 <= x / d <= x,
{
    vstd::arithmetic::div_mod::lemma_div_pos_is_pos(x, d);
    vstd::arithmetic::div_mod::lemma_div_is_ordered_by_denominator(x, 1, d);
}

/// A quotient rounded down, times the divisor, is at most the dividend.
pub proof fn lemma_floor_times_divisor(x: int, d: int)
    requires
        0 <= x,
        0 < d,
    ensures
        d * (x / d) <= x,
{
    vstd::arithmetic::div_mod::lemma_fundamental_div_mod(x, d);
    vstd::arithmetic::div_mod::lemma_mod_pos_bound(x, d);
}

/// Whatever stays within `x` when multiplied by `d` is at most the quotient
/// of `x` by `d`.
pub proof fn lemma_bounded_by_floor(a: int, x: int, d: int)
    requires
        0 < d,
        a * d <= x,
    ensures
        a <= x / d,
{
    vstd::arithmetic::div_mod::lemma_div_is_ordered(a * d, x, d);
    vstd::arithmetic::div_mod::lemma_div_multiples_vanish(a, d);
    vstd::arithmetic::mul::lemma_mul_is_commutative(a, d);
}

} // verus!
