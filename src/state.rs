//! The durable pool configuration and the identities it refers to.
use vstd::prelude::*;
use crate::curve::BPS_DENOMINATOR;
use crate::errors::AmmError;

verus! {

/// Identity of a ledger account or token class: 32 opaque bytes.
#[derive(Clone, Copy, Debug)]
pub struct AccountId {
    pub bytes: [u8; 32],
}

impl AccountId {
    pub fn new(bytes: [u8; 32]) -> (r: AccountId)
        ensures
            r.bytes == bytes,
    {
        AccountId { bytes }
    }

    /// Whether two identities are the same, byte for byte.
    pub fn same(&self, other: &AccountId) -> (r: bool)
        ensures
            r == (self.bytes@ == other.bytes@),
    {
        let mut i: usize = 0;
        while i < 32
            invariant
                i <= 32,
                self.bytes@.len() == 32,
                other.bytes@.len() == 32,
                forall|j: int| 0 <= j < i ==> self.bytes@[j] == other.bytes@[j],
            decreases 32 - i,
        {
            if self.bytes[i] != other.bytes[i] {
                return false;
            }
            i = i + 1;
        }
        assert(self.bytes@ =~= other.bytes@);
        true
    }
}

/// The record that identifies a pool: its two assets, its fee rate, its
/// optional administrator, its lock flag and the derivation parameters of the
/// pool's own authority and share-token class.
#[derive(Clone, Copy, Debug)]
pub struct Config {
    pub seed: u64,
    pub authority: Option<AccountId>,
    pub mint_x: AccountId,
    pub mint_y: AccountId,
    pub fee: u16,
    pub locked: bool,
    pub config_bump: u8,
    pub lp_bump: u8,
}

impl Config {
    /// A configuration that `initialize` could have produced, or one reached
    /// from such by `set_locked`.
    pub open spec fn wf(&self) -> bool {
        self.fee < BPS_DENOMINATOR && self.mint_x.bytes@ != self.mint_y.bytes@
    }

    /// Whether `mint_x` and `mint_y` are this pool's assets, in this order.
    pub open spec fn spec_holds_assets(&self, mint_x: AccountId, mint_y: AccountId) -> bool {
        self.mint_x.bytes@ == mint_x.bytes@ && self.mint_y.bytes@ == mint_y.bytes@
    }

    pub fn holds_assets(&self, mint_x: &AccountId, mint_y: &AccountId) -> (r: bool)
        ensures
            r == self.spec_holds_assets(*mint_x, *mint_y),
    {
        self.mint_x.same(mint_x) && self.mint_y.same(mint_y)
    }

    /// Lock or unlock the pool. Only the administrator may do so; a pool
    /// created without one can never change its lock flag.
    pub fn set_locked(&mut self, caller: &AccountId, locked: bool) -> (r: Result<(), AmmError>)
        ensures
            match old(self).authority {
                Some(a) => a.bytes@ == caller.bytes@,
                None => false,
            } ==> r == Ok::<(), AmmError>(()) && *final(self) == (Config { locked, ..*old(self) }),
            !match old(self).authority {
                Some(a) => a.bytes@ == caller.bytes@,
                None => false,
            } ==> r == Err::<(), AmmError>(AmmError::Unauthorized) && *final(self) == *old(self),
            old(self).wf() ==> final(self).wf(),
    {
        let allowed = match &self.authority {
            Some(a) => a.same(caller),
            None => false,
        };
        if !allowed {
            return Err(AmmError::Unauthorized);
        }
        self.locked = locked;
        Ok(())
    }
}

/// Create the configuration of a new pool, unlocked. The fee must be below
/// 10000 basis points and the two assets must differ. Whether a pool already
/// exists under this seed is for the account store to decide.
pub fn initialize(
    seed: u64,
    fee: u16,
    authority: Option<AccountId>,
    mint_x: AccountId,
    mint_y: AccountId,
    config_bump: u8,
    lp_bump: u8,
) -> (r: Result<Config, AmmError>)
    ensures
        fee >= BPS_DENOMINATOR ==> r == Err::<Config, AmmError>(AmmError::InvalidFee),
        fee < BPS_DENOMINATOR && mint_x.bytes@ == mint_y.bytes@
            ==> r == Err::<Config, AmmError>(AmmError::IdenticalAssets),
        fee < BPS_DENOMINATOR && mint_x.bytes@ != mint_y.bytes@ ==> r == Ok::<Config, AmmError>(
            Config { seed, authority, mint_x, mint_y, fee, locked: false, config_bump, lp_bump },
        ),
        r matches Ok(c) ==> c.wf(),
{
    if fee as u64 >= BPS_DENOMINATOR {
        return Err(AmmError::InvalidFee);
    }
    if mint_x.same(&mint_y) {
        return Err(AmmError::IdenticalAssets);
    }
    Ok(Config { seed, authority, mint_x, mint_y, fee, locked: false, config_bump, lp_bump })
}

} // verus!
