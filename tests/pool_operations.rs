use amm_core::{
    deposit, initialize, swap, withdraw, AccountId, AmmError, Config, Deposit, DepositPlan, Swap,
    SwapPlan, Withdraw, WithdrawPlan,
};

fn id(b: u8) -> AccountId {
    AccountId::new([b; 32])
}

fn pool(fee: u16) -> Config {
    initialize(7, fee, Some(id(9)), id(1), id(2), 254, 253).unwrap()
}

fn deposit_ctx(config: Config, vault_x: u64, vault_y: u64, lp_supply: u64) -> Deposit {
    Deposit { config, mint_x: id(1), mint_y: id(2), vault_x, vault_y, lp_supply }
}

fn withdraw_ctx(config: Config, vault_x: u64, vault_y: u64, lp_supply: u64) -> Withdraw {
    Withdraw { config, mint_x: id(1), mint_y: id(2), vault_x, vault_y, lp_supply }
}

fn swap_ctx(config: Config, vault_x: u64, vault_y: u64, lp_supply: u64) -> Swap {
    Swap { config, mint_x: id(1), mint_y: id(2), vault_x, vault_y, lp_supply }
}

#[test]
fn initialize_builds_unlocked_config() {
    let c = pool(30);
    assert_eq!(c.seed, 7);
    assert_eq!(c.fee, 30);
    assert!(!c.locked);
    assert_eq!(c.config_bump, 254);
    assert_eq!(c.lp_bump, 253);
    assert!(c.mint_x.same(&id(1)));
    assert!(c.mint_y.same(&id(2)));
}

#[test]
fn initialize_rejects_bad_fee_and_identical_assets() {
    assert_eq!(
        initialize(1, 10000, None, id(1), id(2), 0, 0).unwrap_err(),
        AmmError::InvalidFee
    );
    assert_eq!(
        initialize(1, 30, None, id(3), id(3), 0, 0).unwrap_err(),
        AmmError::IdenticalAssets
    );
    assert!(initialize(1, 9999, None, id(1), id(2), 0, 0).is_ok());
}

#[test]
fn lock_toggle_needs_the_administrator() {
    let mut c = pool(30);
    assert_eq!(c.set_locked(&id(8), true), Err(AmmError::Unauthorized));
    assert!(!c.locked);
    assert_eq!(c.set_locked(&id(9), true), Ok(()));
    assert!(c.locked);
    let mut no_admin = initialize(1, 30, None, id(1), id(2), 0, 0).unwrap();
    assert_eq!(no_admin.set_locked(&id(9), true), Err(AmmError::Unauthorized));
}

#[test]
fn bootstrap_deposit_takes_the_maximums() {
    let ctx = deposit_ctx(pool(30), 0, 0, 0);
    assert_eq!(
        deposit(&ctx, 1, 1000, 4000),
        Ok(DepositPlan { amount_x: 1000, amount_y: 4000, shares: 2000 })
    );
    assert_eq!(deposit(&ctx, 1, 0, 4000), Err(AmmError::ZeroAmount));
}

#[test]
fn proportional_deposit_and_slippage() {
    let ctx = deposit_ctx(pool(30), 1000, 4000, 2000);
    assert_eq!(
        ctx.deposit(1000, 500, 2000),
        Ok(DepositPlan { amount_x: 500, amount_y: 2000, shares: 1000 })
    );
    assert_eq!(ctx.deposit(1000, 499, 2000), Err(AmmError::SlippageExceeded));
    assert_eq!(ctx.deposit(1000, 500, 1999), Err(AmmError::SlippageExceeded));
    assert_eq!(ctx.deposit(0, 500, 2000), Err(AmmError::ZeroAmount));
}

#[test]
fn deposit_checks_lock_and_assets() {
    let mut c = pool(30);
    c.set_locked(&id(9), true).unwrap();
    assert_eq!(deposit_ctx(c, 1000, 4000, 2000).deposit(10, 100, 100), Err(AmmError::PoolLocked));
    let mut wrong = deposit_ctx(pool(30), 1000, 4000, 2000);
    wrong.mint_y = id(5);
    assert_eq!(wrong.deposit(10, 100, 100), Err(AmmError::AssetMismatch));
}

#[test]
fn deposit_into_vaults_without_shares_fails() {
    let ctx = deposit_ctx(pool(30), 10, 0, 0);
    assert_eq!(ctx.deposit(10, 100, 100), Err(AmmError::DivisionByZero));
}

#[test]
fn swap_sells_x_for_y() {
    let ctx = swap_ctx(pool(30), 1000, 4000, 2000);
    assert_eq!(
        swap(&ctx, 100, true, 361),
        Ok(SwapPlan { is_x: true, amount_in: 100, amount_out: 361 })
    );
    assert_eq!(swap(&ctx, 100, true, 362), Err(AmmError::SlippageExceeded));
}

#[test]
fn swap_sells_y_for_x() {
    let ctx = swap_ctx(pool(30), 4000, 1000, 2000);
    assert_eq!(
        ctx.swap(false, 100, 0),
        Ok(SwapPlan { is_x: false, amount_in: 100, amount_out: 361 })
    );
}

#[test]
fn swap_checks_lock_zero_and_exhaustion() {
    let mut c = pool(30);
    c.set_locked(&id(9), true).unwrap();
    assert_eq!(swap_ctx(c, 1000, 4000, 2000).swap(true, 100, 0), Err(AmmError::PoolLocked));
    let ctx = swap_ctx(pool(30), 1000, 1, 2000);
    assert_eq!(ctx.swap(true, 0, 0), Err(AmmError::ZeroAmount));
    assert_eq!(ctx.swap(true, 2, 0), Err(AmmError::ReserveExhausted));
}

#[test]
fn withdraw_after_swap() {
    let ctx = withdraw_ctx(pool(30), 1100, 3639, 2000);
    assert_eq!(
        withdraw(&ctx, 500, 275, 909),
        Ok(WithdrawPlan { amount_x: 275, amount_y: 909, shares: 500 })
    );
    assert_eq!(withdraw(&ctx, 500, 276, 909), Err(AmmError::SlippageExceeded));
    assert_eq!(withdraw(&ctx, 500, 275, 910), Err(AmmError::SlippageExceeded));
    assert_eq!(withdraw(&ctx, 0, 0, 0), Err(AmmError::ZeroAmount));
}

#[test]
fn withdraw_allowed_while_locked() {
    let mut c = pool(30);
    c.set_locked(&id(9), true).unwrap();
    let ctx = withdraw_ctx(c, 1100, 3639, 2000);
    assert_eq!(
        ctx.withdraw(2000, 0, 0),
        Ok(WithdrawPlan { amount_x: 1100, amount_y: 3639, shares: 2000 })
    );
}

#[test]
fn withdraw_checks_assets() {
    let mut ctx = withdraw_ctx(pool(30), 1100, 3639, 2000);
    ctx.mint_x = id(2);
    assert_eq!(ctx.withdraw(10, 0, 0), Err(AmmError::AssetMismatch));
}
