//! State-transition core of a two-asset constant-product market maker:
//! checked fixed-point arithmetic, the curve engine, the pool configuration,
//! and the decisions of the initialize / deposit / withdraw / swap operations.
//!
//! The library never touches a ledger. Each operation reads a snapshot of the
//! pool (configuration, vault balances, share supply) and returns either a
//! typed error or the exact transfers, mints and burns to request, in order.
use vstd::prelude::*;

pub mod errors;
pub mod math;
pub mod curve;
pub mod state;
pub mod deposit;
pub mod withdraw;
pub mod swap;

pub use crate::curve::{PairAmounts, SwapResult};
pub use crate::deposit::{Deposit, DepositPlan};
pub use crate::errors::AmmError;
pub use crate::state::{initialize, AccountId, Config};
pub use crate::swap::{Swap, SwapPlan};
pub use crate::withdraw::{Withdraw, WithdrawPlan};

verus! {

/// Entry point of a deposit: see `Deposit::deposit`.
pub fn deposit(ctx: &Deposit, amount: u64, max_x: u64, max_y: u64) -> (r: Result<DepositPlan, AmmError>)
    ensures
        amount != 0 && ctx.config.spec_holds_assets(ctx.mint_x, ctx.mint_y) && !ctx.config.locked
            && !ctx.is_empty_pool() ==> r == crate::deposit::proportional_deposit(
            ctx.vault_x,
            ctx.vault_y,
            ctx.lp_supply,
            amount,
            max_x,
            max_y,
        ),
        amount == 0 ==> r == Err::<DepositPlan, AmmError>(AmmError::ZeroAmount),
        amount != 0 && !ctx.config.spec_holds_assets(ctx.mint_x, ctx.mint_y)
            ==> r == Err::<DepositPlan, AmmError>(AmmError::AssetMismatch),
        amount != 0 && ctx.config.spec_holds_assets(ctx.mint_x, ctx.mint_y) && ctx.config.locked
            ==> r == Err::<DepositPlan, AmmError>(AmmError::PoolLocked),
        amount != 0 && ctx.config.spec_holds_assets(ctx.mint_x, ctx.mint_y) && !ctx.config.locked
            && ctx.is_empty_pool() ==> match r {
            Ok(p) => p.amount_x == max_x && p.amount_y == max_y && p.shares > 0
                && crate::math::is_floor_sqrt(max_x * max_y, p.shares as int),
            Err(e) => e == AmmError::ZeroAmount && max_x * max_y == 0,
        },
{
    ctx.deposit(amount, max_x, max_y)
}

/// Entry point of a withdrawal: see `Withdraw::withdraw`.
pub fn withdraw(ctx: &Withdraw, amount: u64, min_x: u64, min_y: u64) -> (r: Result<WithdrawPlan, AmmError>)
    ensures
        r == ctx.outcome(amount, min_x, min_y),
{
    ctx.withdraw(amount, min_x, min_y)
}

/// Entry point of a swap: see `Swap::swap`.
pub fn swap(ctx: &Swap, amount: u64, is_x: bool, min: u64) -> (r: Result<SwapPlan, AmmError>)
    ensures
        r == ctx.outcome(is_x, amount, min),
{
    ctx.swap(is_x, amount, min)
}

} // verus!
