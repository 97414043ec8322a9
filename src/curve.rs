//! Stateless constant-product curve engine. Every function takes the current
//! reserves (and share supply) plus the operation's inputs, and returns the
//! amounts to move or an error; none of them has side effects.
use vstd::prelude::*;
use crate::errors::AmmError;
use crate::math::{
    lemma_u64_product_fits, mul_div_ceil, mul_div_ceil_spec, mul_div_floor,
    mul_div_floor_spec,
};

verus! {

/// Fee rates are in basis points of this denominator.
pub const BPS_DENOMINATOR: u64 = 10000;

/// An amount of asset X together with an amount of asset Y.
#[derive(Clone, Copy, Debug, PartialEq, Eq, Structural)]
pub struct PairAmounts {
    pub x: u64,
    pub y: u64,
}

/// What a swap moves: `deposit` units of the sold asset into the pool and
/// `withdraw` units of the bought asset out of it.
#[derive(Clone, Copy, Debug, PartialEq, Eq, Structural)]
pub struct SwapResult {
    pub deposit: u64,
    pub withdraw: u64,
}

/// Amount of one reserve a depositor pays for `shares` new shares (rounded up).
pub open spec fn deposit_amount(reserve: int, supply: int, shares: int) -> int {
    mul_div_ceil_spec(shares, reserve, supply)
}

/// Amount of one reserve paid out for burning `shares` shares (rounded down).
pub open spec fn withdraw_amount(reserve: int, supply: int, shares: int) -> int {
    mul_div_floor_spec(shares, reserve, supply)
}

/// The input left after the fee haircut, rounded down.
pub open spec fn effective_input(amount_in: int, fee_bps: int) -> int {
    mul_div_floor_spec(amount_in, BPS_DENOMINATOR - fee_bps, BPS_DENOMINATOR as int)
}

/// Denominator of the swap formula: the input reserve plus the effective input.
pub open spec fn swap_denominator(reserve_in: int, fee_bps: int, amount_in: int) -> int {
    reserve_in + effective_input(amount_in, fee_bps)
}

/// The output reserve that stays in the pool after an exact-input swap,
/// `reserve_in * reserve_out / (reserve_in + effective_input)`, rounded down.
pub open spec fn swap_remaining(reserve_in: int, reserve_out: int, fee_bps: int, amount_in: int) -> int {
    (reserve_in * reserve_out) / swap_denominator(reserve_in, fee_bps, amount_in)
}

/// Output of an exact-input swap.
pub open spec fn swap_output(reserve_in: int, reserve_out: int, fee_bps: int, amount_in: int) -> int {
    reserve_out - swap_remaining(reserve_in, reserve_out, fee_bps, amount_in)
}

/// What `deposit_amounts_from_shares` returns.
pub open spec fn deposit_quote(reserve_x: u64, reserve_y: u64, supply: u64, shares: u64) -> Result<PairAmounts, AmmError> {
    let x = deposit_amount(reserve_x as int, supply as int, shares as int);
    let y = deposit_amount(reserve_y as int, supply as int, shares as int);
    if shares == 0 {
        Err(AmmError::ZeroAmount)
    } else if supply == 0 {
        Err(AmmError::DivisionByZero)
    } else if x > u64::MAX || y > u64::MAX {
        Err(AmmError::Overflow)
    } else {
        Ok(PairAmounts { x: x as u64, y: y as u64 })
    }
}

/// What `withdraw_amounts_from_shares` returns.
pub open spec fn withdraw_quote(reserve_x: u64, reserve_y: u64, supply: u64, shares: u64) -> Result<PairAmounts, AmmError> {
    let x = withdraw_amount(reserve_x as int, supply as int, shares as int);
    let y = withdraw_amount(reserve_y as int, supply as int, shares as int);
    if shares == 0 {
        Err(AmmError::ZeroAmount)
    } else if supply == 0 {
        Err(AmmError::DivisionByZero)
    } else if x > u64::MAX || y > u64::MAX {
        Err(AmmError::Overflow)
    } else {
        Ok(PairAmounts { x: x as u64, y: y as u64 })
    }
}

/// What `swap_exact_input` returns.
pub open spec fn swap_quote(reserve_in: u64, reserve_out: u64, fee_bps: u16, amount_in: u64) -> Result<SwapResult, AmmError> {
    let out = swap_output(reserve_in as int, reserve_out as int, fee_bps as int, amount_in as int);
    if amount_in == 0 {
        Err(AmmError::ZeroAmount)
    } else if fee_bps >= BPS_DENOMINATOR {
        Err(AmmError::InvalidFee)
    } else if swap_denominator(reserve_in as int, fee_bps as int, amount_in as int) == 0 {
        Err(AmmError::DivisionByZero)
    } else if out >= reserve_out {
        Err(AmmError::ReserveExhausted)
    } else {
        Ok(SwapResult { deposit: amount_in, withdraw: out as u64 })
    }
}

/// Amounts of X and Y a depositor pays for `shares` new shares of a pool that
/// already has `supply > 0` shares: each is `ceil(shares * reserve / supply)`.
pub fn deposit_amounts_from_shares(reserve_x: u64, reserve_y: u64, supply: u64, shares: u64) -> (r:
    Result<PairAmounts, AmmError>)
    ensures
        r == deposit_quote(reserve_x, reserve_y, supply, shares),
{
    if shares == 0 {
        return Err(AmmError::ZeroAmount);
    }
    let x = mul_div_ceil(shares, reserve_x, supply)?;
    let y = mul_div_ceil(shares, reserve_y, supply)?;
    Ok(PairAmounts { x, y })
}

/// Amounts of X and Y paid out for burning `shares` of a pool with `supply`
/// shares: each is `floor(shares * reserve / supply)`.
pub fn withdraw_amounts_from_shares(reserve_x: u64, reserve_y: u64, supply: u64, shares: u64) -> (r:
    Result<PairAmounts, AmmError>)
    ensures
        r == withdraw_quote(reserve_x, reserve_y, supply, shares),
{
    if shares == 0 {
        return Err(AmmError::ZeroAmount);
    }
    let x = mul_div_floor(shares, reserve_x, supply)?;
    let y = mul_div_floor(shares, reserve_y, supply)?;
    Ok(PairAmounts { x, y })
}

/// The fee haircut never makes the input negative nor larger than it was.
pub proof fn lemma_effective_input_bounded(amount_in: int, fee_bps: int)
    requires
        0 <= amount_in,
        0 <= fee_bps <= BPS_DENOMINATOR,
    ensures
        0 <= effective_input(amount_in, fee_bps) <= amount_in,
{
    assert(0 <= amount_in * (BPS_DENOMINATOR - fee_bps) <= amount_in * BPS_DENOMINATOR) by (nonlinear_arith)
        requires
            0 <= fee_bps <= BPS_DENOMINATOR,
            0 <= amount_in,
    ;
    vstd::arithmetic::div_mod::lemma_div_multiples_vanish(amount_in, BPS_DENOMINATOR as int);
    vstd::arithmetic::div_mod::lemma_div_is_ordered(
        amount_in * (BPS_DENOMINATOR - fee_bps), amount_in * BPS_DENOMINATOR, BPS_DENOMINATOR as int);
    vstd::arithmetic::div_mod::lemma_div_pos_is_pos(amount_in * (BPS_DENOMINATOR - fee_bps), BPS_DENOMINATOR as int);
}

/// When the input reserve is non-empty, what stays of the output reserve
/// after a swap is at most the whole output reserve.
pub proof fn lemma_remaining_bounded(reserve_in: int, reserve_out: int, fee_bps: int, amount_in: int)
    requires
        0 < reserve_in,
        0 <= reserve_out,
        0 <= amount_in,
        0 <= fee_bps <= BPS_DENOMINATOR,
    ensures
        0 <= swap_remaining(reserve_in, reserve_out, fee_bps, amount_in) <= reserve_out,
{
    let e = effective_input(amount_in, fee_bps);
    assert(0 <= amount_in * (BPS_DENOMINATOR - fee_bps)) by (nonlinear_arith)
        requires
            0 <= amount_in,
            0 <= BPS_DENOMINATOR - fee_bps,
    ;
    assert(e >= 0);
    let d = reserve_in + e;
    assert((reserve_in * reserve_out) / d <= (reserve_in * reserve_out) / reserve_in) by {
        assert(0 <= reserve_in * reserve_out) by (nonlinear_arith)
            requires
                0 < reserve_in,
                0 <= reserve_out,
        ;
        vstd::arithmetic::div_mod::lemma_div_is_ordered_by_denominator(reserve_in * reserve_out, reserve_in, d);
    }
    assert((reserve_in * reserve_out) / reserve_in == reserve_out) by {
        vstd::arithmetic::div_mod::lemma_div_multiples_vanish(reserve_out, reserve_in);
    }
    assert(0 <= (reserve_in * reserve_out) / d) by (nonlinear_arith)
        requires
            0 < reserve_in,
            0 <= reserve_out,
            0 < d,
    ;
}

/// Exact-input swap with a fee of `fee_bps` basis points: the fee is taken
/// from the input (`effective = floor(amount_in * (10000 - fee_bps) / 10000)`)
/// and stays in the pool; the output is
/// `reserve_out - floor(reserve_in * reserve_out / (reserve_in + effective))`.
/// A swap that would take the whole output reserve is rejected.
pub fn swap_exact_input(reserve_in: u64, reserve_out: u64, fee_bps: u16, amount_in: u64) -> (r:
    Result<SwapResult, AmmError>)
    ensures
        r == swap_quote(reserve_in, reserve_out, fee_bps, amount_in),
        r matches Ok(s) ==> s.deposit == amount_in && s.withdraw < reserve_out,
        amount_in != 0 && fee_bps < BPS_DENOMINATOR
            && swap_denominator(reserve_in as int, fee_bps as int, amount_in as int) != 0
            && swap_output(reserve_in as int, reserve_out as int, fee_bps as int, amount_in as int)
            >= reserve_out ==> r == Err::<SwapResult, AmmError>(AmmError::ReserveExhausted),
{
    if amount_in == 0 {
        return Err(AmmError::ZeroAmount);
    }
    if fee_bps as u64 >= BPS_DENOMINATOR {
        return Err(AmmError::InvalidFee);
    }
    let effective = match mul_div_floor(amount_in, BPS_DENOMINATOR - fee_bps as u64, BPS_DENOMINATOR) {
        Ok(e) => e,
        Err(e) => {
            proof {
                lemma_effective_input_bounded(amount_in as int, fee_bps as int);
            }
            return Err(e);
        },
    };
    let denominator: u128 = reserve_in as u128 + effective as u128;
    if denominator == 0 {
        return Err(AmmError::DivisionByZero);
    }
    proof {
        lemma_u64_product_fits(reserve_in, reserve_out);
    }
    let product: u128 = (reserve_in as u128) * (reserve_out as u128);
    let remaining: u128 = product / denominator;
    if remaining == 0 {
        return Err(AmmError::ReserveExhausted);
    }
    proof {
        if reserve_in == 0 {
            assert((reserve_in as int) * (reserve_out as int) == 0) by (nonlinear_arith)
                requires
                    reserve_in == 0,
            ;
        }
        lemma_remaining_bounded(reserve_in as int, reserve_out as int, fee_bps as int, amount_in as int);
    }
    Ok(SwapResult { deposit: amount_in, withdraw: (reserve_out as u128 - remaining) as u64 })
}

/// Rounding never lets a provider take out more than they put in: for a pool
/// with shares outstanding, burning the shares just bought pays at most what
/// was paid for them, both at the price before the deposit and once the
/// deposit has landed in the reserves and the supply.
pub proof fn lemma_deposit_then_withdraw_no_gain(reserve: int, supply: int, shares: int)
    requires
        0 <= reserve,
        0 < supply,
        0 <= shares,
    ensures
        withdraw_amount(reserve, supply, shares) <= deposit_amount(reserve, supply, shares),
        withdraw_amount(reserve + deposit_amount(reserve, supply, shares), supply + shares, shares)
            <= deposit_amount(reserve, supply, shares),
{
    let p = shares * reserve;
    let a = deposit_amount(reserve, supply, shares);
    assert(0 <= shares * reserve) by (nonlinear_arith)
        requires
            0 <= reserve,
            0 <= shares,
    ;
    vstd::arithmetic::div_mod::lemma_div_is_ordered(p, p + supply - 1, supply);
    // a * supply >= shares * reserve
    vstd::arithmetic::div_mod::lemma_fundamental_div_mod(p + supply - 1, supply);
    vstd::arithmetic::div_mod::lemma_mod_bound(p + supply - 1, supply);
    assert(supply * a >= p);
    // shares * (reserve + a) <= a * (supply + shares)
    assert(shares * (reserve + a) <= a * (supply + shares)) by (nonlinear_arith)
        requires
            supply * a >= shares * reserve,
    ;
    vstd::arithmetic::div_mod::lemma_div_is_ordered(shares * (reserve + a), a * (supply + shares), supply + shares);
    vstd::arithmetic::div_mod::lemma_div_multiples_vanish(a, supply + shares);
    assert(a * (supply + shares) == (supply + shares) * a) by (nonlinear_arith);
}

/// Withdrawal never asks for more than the vault holds, whenever the shares
/// burnt are at most the outstanding supply.
pub proof fn lemma_withdraw_within_reserve(reserve: int, supply: int, shares: int)
    requires
        0 <= reserve,
        0 < supply,
        0 <= shares <= supply,
    ensures
        0 <= withdraw_amount(reserve, supply, shares) <= reserve,
{
    assert(0 <= shares * reserve <= supply * reserve) by (nonlinear_arith)
        requires
            0 <= reserve,
            0 <= shares <= supply,
    ;
    vstd::arithmetic::div_mod::lemma_div_is_ordered(shares * reserve, supply * reserve, supply);
    vstd::arithmetic::div_mod::lemma_div_multiples_vanish(reserve, supply);
    vstd::arithmetic::div_mod::lemma_div_pos_is_pos(shares * reserve, supply);
}

/// A larger input never buys a smaller output, with the reserves and the fee
/// held fixed.
pub proof fn lemma_swap_output_monotonic(
    reserve_in: int,
    reserve_out: int,
    fee_bps: int,
    amount_small: int,
    amount_large: int,
)
    requires
        0 <= reserve_in,
        0 <= reserve_out,
        0 <= fee_bps < BPS_DENOMINATOR,
        0 <= amount_small <= amount_large,
        swap_denominator(reserve_in, fee_bps, amount_small) > 0,
    ensures
        swap_output(reserve_in, reserve_out, fee_bps, amount_small)
            <= swap_output(reserve_in, reserve_out, fee_bps, amount_large),
{
    let m = BPS_DENOMINATOR - fee_bps;
    vstd::arithmetic::mul::lemma_mul_inequality(amount_small, amount_large, m);
    vstd::arithmetic::div_mod::lemma_div_is_ordered(amount_small * m, amount_large * m, BPS_DENOMINATOR as int);
    let k = reserve_in * reserve_out;
    assert(0 <= reserve_in * reserve_out) by (nonlinear_arith)
        requires
            0 <= reserve_in,
            0 <= reserve_out,
    ;
    vstd::arithmetic::div_mod::lemma_div_is_ordered_by_denominator(
        k,
        swap_denominator(reserve_in, fee_bps, amount_small),
        swap_denominator(reserve_in, fee_bps, amount_large),
    );
}

/// The product of the reserves never falls by as much as one unit of the
/// output asset valued at the swap's denominator: after a swap,
/// `(reserve_in + amount_in) * remaining + (reserve_in + effective) > reserve_in * reserve_out`.
/// With no fee this is the whole of the rounding loss.
pub proof fn lemma_swap_product_tolerance(reserve_in: int, reserve_out: int, fee_bps: int, amount_in: int)
    requires
        0 <= reserve_in,
        0 <= reserve_out,
        0 <= fee_bps < BPS_DENOMINATOR,
        0 <= amount_in,
        swap_denominator(reserve_in, fee_bps, amount_in) > 0,
    ensures
        (reserve_in + amount_in) * swap_remaining(reserve_in, reserve_out, fee_bps, amount_in)
            + swap_denominator(reserve_in, fee_bps, amount_in) > reserve_in * reserve_out,
{
    let d = swap_denominator(reserve_in, fee_bps, amount_in);
    let k = reserve_in * reserve_out;
    let q = swap_remaining(reserve_in, reserve_out, fee_bps, amount_in);
    lemma_effective_input_bounded(amount_in, fee_bps);
    vstd::arithmetic::div_mod::lemma_fundamental_div_mod(k, d);
    vstd::arithmetic::div_mod::lemma_mod_bound(k, d);
    assert(0 <= reserve_in * reserve_out) by (nonlinear_arith)
        requires
            0 <= reserve_in,
            0 <= reserve_out,
    ;
    vstd::arithmetic::div_mod::lemma_div_pos_is_pos(k, d);
    assert((reserve_in + amount_in) * q >= d * q) by (nonlinear_arith)
        requires
            reserve_in + amount_in >= d,
            q >= 0,
    ;
}

/// With a fee, the product of the reserves does not fall, provided the fee
/// kept, valued at the output reserve left, covers the rounding of the
/// remaining reserve: `fee_kept * remaining + 1 >= reserve_in + effective`,
/// where `fee_kept = amount_in - effective`. A swap of 2 into reserves
/// (1000, 2) at 30 basis points fails that proviso, and there the product
/// does fall (from 2000 to 1002).
pub proof fn lemma_swap_product_non_decreasing(reserve_in: int, reserve_out: int, fee_bps: int, amount_in: int)
    requires
        0 <= reserve_in,
        0 <= reserve_out,
        0 < fee_bps < BPS_DENOMINATOR,
        0 <= amount_in,
        swap_denominator(reserve_in, fee_bps, amount_in) > 0,
        (amount_in - effective_input(amount_in, fee_bps)) * swap_remaining(reserve_in, reserve_out, fee_bps, amount_in)
            + 1 >= swap_denominator(reserve_in, fee_bps, amount_in),
    ensures
        (reserve_in + amount_in) * swap_remaining(reserve_in, reserve_out, fee_bps, amount_in)
            >= reserve_in * reserve_out,
{
    let d = swap_denominator(reserve_in, fee_bps, amount_in);
    let k = reserve_in * reserve_out;
    let q = swap_remaining(reserve_in, reserve_out, fee_bps, amount_in);
    let f = amount_in - effective_input(amount_in, fee_bps);
    vstd::arithmetic::div_mod::lemma_fundamental_div_mod(k, d);
    vstd::arithmetic::div_mod::lemma_mod_bound(k, d);
    assert(reserve_in + amount_in == d + f);
    assert((d + f) * q == d * q + f * q) by (nonlinear_arith);
}

} // verus!
