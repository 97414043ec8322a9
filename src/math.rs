//! Overflow-checked integer kernel: multiply-then-divide with an explicit
//! rounding direction, and the integer square root.
use vstd::prelude::*;
use crate::errors::AmmError;

verus! {

/// `a * b / c`, rounded towards zero.
pub open spec fn mul_div_floor_spec(a: int, b: int, c: int) -> int {
    (a * b) / c
}

/// `a * b / c`, rounded away from zero (for non-negative operands).
pub open spec fn mul_div_ceil_spec(a: int, b: int, c: int) -> int {
    (a * b + c - 1) / c
}

/// `r` is the floor of the square root of `n`.
pub open spec fn is_floor_sqrt(n: int, r: int) -> bool {
    0 <= r && r * r <= n && n < (r + 1) * (r + 1)
}

/// The product of two `u64` values always fits a `u128`.
pub proof fn lemma_u64_product_fits(a: u64, b: u64)
    ensures
        0 <= (a as int) * (b as int) <= (u64::MAX as int) * (u64::MAX as int),
        (u64::MAX as int) * (u64::MAX as int) + (u64::MAX as int) <= u128::MAX,
{
    assert(0 <= (a as int) * (b as int) <= (u64::MAX as int) * (u64::MAX as int)) by (nonlinear_arith);
    assert((u64::MAX as int) * (u64::MAX as int) + (u64::MAX as int) <= u128::MAX);
}

/// Checked `a * b / c`, rounded down: what the pool pays out.
pub fn mul_div_floor(a: u64, b: u64, c: u64) -> (r: Result<u64, AmmError>)
    ensures
        c == 0 ==> r == Err::<u64, AmmError>(AmmError::DivisionByZero),
        c != 0 && mul_div_floor_spec(a as int, b as int, c as int) > u64::MAX
            ==> r == Err::<u64, AmmError>(AmmError::Overflow),
        c != 0 && mul_div_floor_spec(a as int, b as int, c as int) <= u64::MAX
            ==> r == Ok::<u64, AmmError>(mul_div_floor_spec(a as int, b as int, c as int) as u64),
{
    if c == 0 {
        return Err(AmmError::DivisionByZero);
    }
    proof {
        lemma_u64_product_fits(a, b);
    }
    let p: u128 = (a as u128) * (b as u128);
    let q: u128 = p / (c as u128);
    if q > u64::MAX as u128 {
        Err(AmmError::Overflow)
    } else {
        Ok(q as u64)
    }
}

/// Checked `a * b / c`, rounded up: what a user pays in.
pub fn mul_div_ceil(a: u64, b: u64, c: u64) -> (r: Result<u64, AmmError>)
    ensures
        c == 0 ==> r == Err::<u64, AmmError>(AmmError::DivisionByZero),
        c != 0 && mul_div_ceil_spec(a as int, b as int, c as int) > u64::MAX
            ==> r == Err::<u64, AmmError>(AmmError::Overflow),
        c != 0 && mul_div_ceil_spec(a as int, b as int, c as int) <= u64::MAX
            ==> r == Ok::<u64, AmmError>(mul_div_ceil_spec(a as int, b as int, c as int) as u64),
{
    if c == 0 {
        return Err(AmmError::DivisionByZero);
    }
    proof {
        lemma_u64_product_fits(a, b);
    }
    let p: u128 = (a as u128) * (b as u128);
    let q: u128 = (p + (c as u128) - 1) / (c as u128);
    if q > u64::MAX as u128 {
        Err(AmmError::Overflow)
    } else {
        Ok(q as u64)
    }
}

/// Floor of the square root of `n`, by bisection.
pub fn isqrt(n: u128) -> (r: u64)
    ensures
        is_floor_sqrt(n as int, r as int),
{
    // Invariant: lo * lo <= n < hi * hi.
    let mut lo: u128 = 0;
    let mut hi: u128 = 0x1_0000_0000_0000_0000;
    assert(n < 0x1_0000_0000_0000_0000int * 0x1_0000_0000_0000_0000int);
    while hi - lo > 1
        invariant
            lo < hi <= 0x1_0000_0000_0000_0000,
            lo * lo <= n,
            (n as int) < (hi as int) * (hi as int),
        decreases hi - lo,
    {
        let mid: u128 = lo + (hi - lo) / 2;
        assert(mid < 0x1_0000_0000_0000_0000);
        assert((mid as int) * (mid as int) < 0x1_0000_0000_0000_0000int * 0x1_0000_0000_0000_0000int)
            by (nonlinear_arith)
            requires
                0 <= mid < 0x1_0000_0000_0000_0000int,
        ;
        assert(0x1_0000_0000_0000_0000int * 0x1_0000_0000_0000_0000int == u128::MAX + 1);
        if mid * mid <= n {
            lo = mid;
        } else {
            hi = mid;
        }
    }
    assert(hi == lo + 1);
    lo as u64
}

} // verus!
