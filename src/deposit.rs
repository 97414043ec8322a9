//! Deposit: a liquidity provider pays in both assets and receives shares.
use vstd::prelude::*;
use crate::curve::{deposit_amounts_from_shares, deposit_quote, PairAmounts};
use crate::errors::AmmError;
use crate::math::{is_floor_sqrt, isqrt, lemma_u64_product_fits};
use crate::state::{AccountId, Config};

verus! {

/// What a deposit reads: the pool's configuration, the assets the caller
/// named, and the live vault balances and share supply.
#[derive(Clone, Copy, Debug)]
pub struct Deposit {
    pub config: Config,
    pub mint_x: AccountId,
    pub mint_y: AccountId,
    pub vault_x: u64,
    pub vault_y: u64,
    pub lp_supply: u64,
}

/// The requests a deposit issues, in this order: move `amount_x` of X and
/// `amount_y` of Y from the provider to the vaults, then mint `shares` to the
/// provider.
#[derive(Clone, Copy, Debug, PartialEq, Eq, Structural)]
pub struct DepositPlan {
    pub amount_x: u64,
    pub amount_y: u64,
    pub shares: u64,
}

/// Deposit into a pool that already has shares: pay the rounded-up
/// proportional amounts, provided they stay within the caller's maximums.
pub open spec fn proportional_deposit(
    vault_x: u64,
    vault_y: u64,
    lp_supply: u64,
    shares: u64,
    max_x: u64,
    max_y: u64,
) -> Result<DepositPlan, AmmError> {
    match deposit_quote(vault_x, vault_y, lp_supply, shares) {
        Err(e) => Err(e),
        Ok(a) => if a.x <= max_x && a.y <= max_y {
            Ok(DepositPlan { amount_x: a.x, amount_y: a.y, shares })
        } else {
            Err(AmmError::SlippageExceeded)
        },
    }
}

impl Deposit {
    /// No shares and both vaults empty: the first deposit sets the price.
    pub open spec fn is_empty_pool(&self) -> bool {
        self.vault_x == 0 && self.vault_y == 0 && self.lp_supply == 0
    }

    /// Decide a deposit of `amount` shares, paying at most `max_x` of X and
    /// `max_y` of Y. Into an empty pool the maximums are the deposit and the
    /// shares minted are `floor(sqrt(max_x * max_y))`; otherwise `amount`
    /// shares are minted for the rounded-up proportional amounts.
    pub fn deposit(&self, amount: u64, max_x: u64, max_y: u64) -> (r: Result<DepositPlan, AmmError>)
        ensures
            amount == 0 ==> r == Err::<DepositPlan, AmmError>(AmmError::ZeroAmount),
            amount != 0 && !self.config.spec_holds_assets(self.mint_x, self.mint_y)
                ==> r == Err::<DepositPlan, AmmError>(AmmError::AssetMismatch),
            amount != 0 && self.config.spec_holds_assets(self.mint_x, self.mint_y) && self.config.locked
                ==> r == Err::<DepositPlan, AmmError>(AmmError::PoolLocked),
            amount != 0 && self.config.spec_holds_assets(self.mint_x, self.mint_y) && !self.config.locked
                && self.is_empty_pool() ==> match r {
                Ok(p) => p.amount_x == max_x && p.amount_y == max_y && p.shares > 0
                    && is_floor_sqrt(max_x * max_y, p.shares as int),
                Err(e) => e == AmmError::ZeroAmount && max_x * max_y == 0,
            },
            amount != 0 && self.config.spec_holds_assets(self.mint_x, self.mint_y) && !self.config.locked
                && !self.is_empty_pool() ==> r == proportional_deposit(
                self.vault_x,
                self.vault_y,
                self.lp_supply,
                amount,
                max_x,
                max_y,
            ),
    {
        if amount == 0 {
            return Err(AmmError::ZeroAmount);
        }
        if !self.config.holds_assets(&self.mint_x, &self.mint_y) {
            return Err(AmmError::AssetMismatch);
        }
        if self.config.locked {
            return Err(AmmError::PoolLocked);
        }
        if self.vault_x == 0 && self.vault_y == 0 && self.lp_supply == 0 {
            proof {
                lemma_u64_product_fits(max_x, max_y);
            }
            let shares = isqrt((max_x as u128) * (max_y as u128));
            if shares == 0 {
                assert(max_x * max_y == 0) by (nonlinear_arith)
                    requires
                        max_x * max_y < (shares + 1) * (shares + 1),
                        shares == 0,
                        max_x * max_y >= 0,
                ;
                return Err(AmmError::ZeroAmount);
            }
            return Ok(DepositPlan { amount_x: max_x, amount_y: max_y, shares });
        }
        let a: PairAmounts = deposit_amounts_from_shares(self.vault_x, self.vault_y, self.lp_supply, amount)?;
        if a.x > max_x || a.y > max_y {
            return Err(AmmError::SlippageExceeded);
        }
        Ok(DepositPlan { amount_x: a.x, amount_y: a.y, shares: amount })
    }
}

} // verus!
