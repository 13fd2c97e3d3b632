//! Checked arithmetic primitives.
//!
//! Every product of two 64-bit quantities is taken in a 128-bit intermediate
//! and checked back down to 64 bits. An operation that would overflow or
//! underflow its width fails with an explicit error; nothing saturates and
//! nothing wraps.

use crate::errors::AmmError;
use vstd::arithmetic::div_mod::{lemma_div_by_multiple, lemma_div_is_ordered};
use vstd::prelude::*;

verus! {

/// `a / d` rounded towards positive infinity, for a non-negative numerator
/// and a positive denominator.
pub open spec fn ceil_div(a: int, d: int) -> int
    recommends
        0 <= a,
        0 < d,
{
    (a + d - 1) / d
}

/// The product of two 64-bit values always fits in 128 bits.
proof fn lemma_u64_product_fits_u128(a: int, b: int)
    by (nonlinear_arith)
    requires
        0 <= a <= 0xffff_ffff_ffff_ffff,
        0 <= b <= 0xffff_ffff_ffff_ffff,
    ensures
        a * b <= 0xffff_ffff_ffff_fffe_0000_0000_0000_0001,
{
}

/// Multiplies two 64-bit values in a 128-bit intermediate; never overflows.
pub fn wide_mul(a: u64, b: u64) -> (r: u128)
    ensures
        r == a * b,
{
    proof {
        lemma_u64_product_fits_u128(a as int, b as int);
    }
    (a as u128) * (b as u128)
}

/// `a + b`, or `Overflow` when the sum exceeds the 64-bit range.
pub fn checked_add_u64(a: u64, b: u64) -> (r: Result<u64, AmmError>)
    ensures
        r is Ok <==> a + b <= u64::MAX,
        r is Ok ==> r->Ok_0 == a + b,
        r is Err ==> r->Err_0 == AmmError::Overflow,
{
    if a <= u64::MAX - b {
        Ok(a + b)
    } else {
        Err(AmmError::Overflow)
    }
}

/// `a - b`, or `Underflow` when the difference would fall below zero.
pub fn checked_sub_u64(a: u64, b: u64) -> (r: Result<u64, AmmError>)
    ensures
        r is Ok <==> b <= a,
        r is Ok ==> r->Ok_0 == a - b,
        r is Err ==> r->Err_0 == AmmError::Underflow,
{
    if b <= a {
        Ok(a - b)
    } else {
        Err(AmmError::Underflow)
    }
}

/// `floor(a * b / d)` through a 128-bit intermediate, or `Overflow` when the
/// quotient exceeds the 64-bit range.
pub fn mul_div_floor(a: u64, b: u64, d: u64) -> (r: Result<u64, AmmError>)
    requires
        0 < d,
    ensures
        r is Ok <==> a * b / (d as int) <= u64::MAX,
        r is Ok ==> r->Ok_0 == a * b / (d as int),
        r is Err ==> r->Err_0 == AmmError::Overflow,
{
    let prod: u128 = wide_mul(a, b);
    let q: u128 = prod / (d as u128);
    if q <= u64::MAX as u128 {
        Ok(q as u64)
    } else {
        Err(AmmError::Overflow)
    }
}

/// `ceil(a * b / d)` through a 128-bit intermediate, or `Overflow` when the
/// quotient exceeds the 64-bit range.
pub fn mul_div_ceil(a: u64, b: u64, d: u64) -> (r: Result<u64, AmmError>)
    requires
        0 < d,
    ensures
        r is Ok <==> ceil_div(a * b, d as int) <= u64::MAX,
        r is Ok ==> r->Ok_0 == ceil_div(a * b, d as int),
        r is Err ==> r->Err_0 == AmmError::Overflow,
{
    let prod: u128 = wide_mul(a, b);
    proof {
        lemma_u64_product_fits_u128(a as int, b as int);
    }
    let q: u128 = (prod + (d as u128 - 1)) / (d as u128);
    if q <= u64::MAX as u128 {
        Ok(q as u64)
    } else {
        Err(AmmError::Overflow)
    }
}

/// `floor(a * b / 10000)` is at most `a` whenever `b` is at most 10000: a
/// basis-point share never exceeds the whole.
pub proof fn lemma_bps_share_le_whole(a: int, b: int)
    requires
        0 <= a,
        0 <= b <= 10000,
    ensures
        a * b / 10000 <= a,
{
    assert(a * b <= a * 10000) by (nonlinear_arith)
        requires
            0 <= a,
            0 <= b <= 10000,
    ;
    lemma_div_is_ordered(a * b, a * 10000, 10000);
    lemma_div_by_multiple(a, 10000);
}

} // verus!
