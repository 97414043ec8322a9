//! Withdraw: a liquidity provider burns shares and receives both assets.
use vstd::prelude::*;
use crate::curve::{withdraw_amounts_from_shares, withdraw_quote, PairAmounts};
use crate::errors::AmmError;
use crate::state::{AccountId, Config};

verus! {

/// What a withdrawal reads: the pool's configuration, the assets the caller
/// named, and the live vault balances and share supply.
#[derive(Clone, Copy, Debug)]
pub struct Withdraw {
    pub config: Config,
    pub mint_x: AccountId,
    pub mint_y: AccountId,
    pub vault_x: u64,
    pub vault_y: u64,
    pub lp_supply: u64,
}

/// The requests a withdrawal issues, in this order: move `amount_x` of X and
/// `amount_y` of Y from the vaults to the provider, then burn `shares` from
/// the provider.
#[derive(Clone, Copy, Debug, PartialEq, Eq, Structural)]
pub struct WithdrawPlan {
    pub amount_x: u64,
    pub amount_y: u64,
    pub shares: u64,
}

impl Withdraw {
    /// What `withdraw` decides. A locked pool still lets providers leave.
    pub open spec fn outcome(&self, amount: u64, min_x: u64, min_y: u64) -> Result<WithdrawPlan, AmmError> {
        if amount == 0 {
            Err(AmmError::ZeroAmount)
        } else if !self.config.spec_holds_assets(self.mint_x, self.mint_y) {
            Err(AmmError::AssetMismatch)
        } else {
            match withdraw_quote(self.vault_x, self.vault_y, self.lp_supply, amount) {
                Err(e) => Err(e),
                Ok(a) => if min_x <= a.x && min_y <= a.y {
                    Ok(WithdrawPlan { amount_x: a.x, amount_y: a.y, shares: amount })
                } else {
                    Err(AmmError::SlippageExceeded)
                },
            }
        }
    }

    /// Decide a withdrawal of `amount` shares for at least `min_x` of X and
    /// `min_y` of Y, each paid out as `floor(amount * vault / supply)`.
    pub fn withdraw(&self, amount: u64, min_x: u64, min_y: u64) -> (r: Result<WithdrawPlan, AmmError>)
        ensures
            r == self.outcome(amount, min_x, min_y),
            r matches Ok(p) ==> p.shares == amount && (amount <= self.lp_supply ==> p.amount_x
                <= self.vault_x && p.amount_y <= self.vault_y),
    {
        if amount == 0 {
            return Err(AmmError::ZeroAmount);
        }
        if !self.config.holds_assets(&self.mint_x, &self.mint_y) {
            return Err(AmmError::AssetMismatch);
        }
        let a: PairAmounts = withdraw_amounts_from_shares(self.vault_x, self.vault_y, self.lp_supply, amount)?;
        if min_x > a.x || min_y > a.y {
            return Err(AmmError::SlippageExceeded);
        }
        proof {
            if amount <= self.lp_supply {
                crate::curve::lemma_withdraw_within_reserve(self.vault_x as int, self.lp_supply as int, amount as int);
                crate::curve::lemma_withdraw_within_reserve(self.vault_y as int, self.lp_supply as int, amount as int);
            }
        }
        Ok(WithdrawPlan { amount_x: a.x, amount_y: a.y, shares: amount })
    }
}

} // verus!
