//! Swap: a trader sells an exact amount of one asset for the other.
use vstd::prelude::*;
use crate::curve::{swap_exact_input, swap_quote, SwapResult};
use crate::errors::AmmError;
use crate::state::{AccountId, Config};

verus! {

/// What a swap reads: the pool's configuration, the assets the caller named,
/// and the live vault balances and share supply.
#[derive(Clone, Copy, Debug)]
pub struct Swap {
    pub config: Config,
    pub mint_x: AccountId,
    pub mint_y: AccountId,
    pub vault_x: u64,
    pub vault_y: u64,
    pub lp_supply: u64,
}

/// The requests a swap issues, in this order: move `amount_in` of the sold
/// asset (X when `is_x`) from the trader to its vault, then `amount_out` of
/// the other asset from its vault to the trader.
#[derive(Clone, Copy, Debug, PartialEq, Eq, Structural)]
pub struct SwapPlan {
    pub is_x: bool,
    pub amount_in: u64,
    pub amount_out: u64,
}

impl Swap {
    /// Reserve of the asset sold.
    pub open spec fn reserve_in(&self, is_x: bool) -> u64 {
        if is_x { self.vault_x } else { self.vault_y }
    }

    /// Reserve of the asset bought.
    pub open spec fn reserve_out(&self, is_x: bool) -> u64 {
        if is_x { self.vault_y } else { self.vault_x }
    }

    /// What `swap` decides.
    pub open spec fn outcome(&self, is_x: bool, amount: u64, min: u64) -> Result<SwapPlan, AmmError> {
        if amount == 0 {
            Err(AmmError::ZeroAmount)
        } else if !self.config.spec_holds_assets(self.mint_x, self.mint_y) {
            Err(AmmError::AssetMismatch)
        } else if self.config.locked {
            Err(AmmError::PoolLocked)
        } else {
            match swap_quote(self.reserve_in(is_x), self.reserve_out(is_x), self.config.fee, amount) {
                Err(e) => Err(e),
                Ok(s) => if min <= s.withdraw {
                    Ok(SwapPlan { is_x, amount_in: s.deposit, amount_out: s.withdraw })
                } else {
                    Err(AmmError::SlippageExceeded)
                },
            }
        }
    }

    /// Decide the sale of exactly `amount` of X (or of Y when `!is_x`) for
    /// at least `min` of the other asset, at the pool's fee.
    pub fn swap(&self, is_x: bool, amount: u64, min: u64) -> (r: Result<SwapPlan, AmmError>)
        ensures
            r == self.outcome(is_x, amount, min),
            r matches Ok(p) ==> p.amount_in == amount && p.amount_out < self.reserve_out(is_x),
    {
        if amount == 0 {
            return Err(AmmError::ZeroAmount);
        }
        if !self.config.holds_assets(&self.mint_x, &self.mint_y) {
            return Err(AmmError::AssetMismatch);
        }
        if self.config.locked {
            return Err(AmmError::PoolLocked);
        }
        let (reserve_in, reserve_out) = if is_x {
            (self.vault_x, self.vault_y)
        } else {
            (self.vault_y, self.vault_x)
        };
        let s: SwapResult = swap_exact_input(reserve_in, reserve_out, self.config.fee, amount)?;
        if min > s.withdraw {
            return Err(AmmError::SlippageExceeded);
        }
        Ok(SwapPlan { is_x, amount_in: s.deposit, amount_out: s.withdraw })
    }
}

} // verus!
