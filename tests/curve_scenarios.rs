use amm_core::curve::{
    deposit_amounts_from_shares, swap_exact_input, withdraw_amounts_from_shares, PairAmounts,
    SwapResult,
};
use amm_core::math::{isqrt, mul_div_ceil, mul_div_floor};
use amm_core::AmmError;

#[test]
fn mul_div_rounds_in_the_stated_direction() {
    assert_eq!(mul_div_floor(7, 3, 2), Ok(10));
    assert_eq!(mul_div_ceil(7, 3, 2), Ok(11));
    assert_eq!(mul_div_ceil(4, 3, 2), Ok(6));
    assert_eq!(mul_div_floor(1, 1, 0), Err(AmmError::DivisionByZero));
    assert_eq!(mul_div_ceil(1, 1, 0), Err(AmmError::DivisionByZero));
}

#[test]
fn mul_div_overflow_is_an_error() {
    assert_eq!(mul_div_floor(u64::MAX, u64::MAX, 1), Err(AmmError::Overflow));
    assert_eq!(mul_div_ceil(u64::MAX, 2, 1), Err(AmmError::Overflow));
    assert_eq!(mul_div_floor(u64::MAX, u64::MAX, u64::MAX), Ok(u64::MAX));
}

#[test]
fn isqrt_is_floor_of_root() {
    assert_eq!(isqrt(0), 0);
    assert_eq!(isqrt(1), 1);
    assert_eq!(isqrt(3), 1);
    assert_eq!(isqrt(4), 2);
    assert_eq!(isqrt(4_000_000), 2000);
    assert_eq!(isqrt(4_000_001), 2000);
    assert_eq!(isqrt(u128::MAX), u64::MAX);
}

#[test]
fn proportional_deposit_amounts_round_up() {
    assert_eq!(
        deposit_amounts_from_shares(1000, 4000, 2000, 1000),
        Ok(PairAmounts { x: 500, y: 2000 })
    );
    assert_eq!(
        deposit_amounts_from_shares(1000, 4000, 3000, 1),
        Ok(PairAmounts { x: 1, y: 2 })
    );
}

#[test]
fn deposit_amounts_errors() {
    assert_eq!(deposit_amounts_from_shares(1000, 4000, 2000, 0), Err(AmmError::ZeroAmount));
    assert_eq!(deposit_amounts_from_shares(1000, 4000, 0, 5), Err(AmmError::DivisionByZero));
    assert_eq!(
        deposit_amounts_from_shares(u64::MAX, 1, 1, 2),
        Err(AmmError::Overflow)
    );
}

#[test]
fn withdraw_amounts_round_down() {
    assert_eq!(
        withdraw_amounts_from_shares(1100, 3639, 2000, 500),
        Ok(PairAmounts { x: 275, y: 909 })
    );
    assert_eq!(withdraw_amounts_from_shares(1100, 3639, 2000, 0), Err(AmmError::ZeroAmount));
    assert_eq!(withdraw_amounts_from_shares(1100, 3639, 0, 1), Err(AmmError::DivisionByZero));
}

#[test]
fn withdraw_of_whole_supply_empties_the_vaults() {
    assert_eq!(
        withdraw_amounts_from_shares(1100, 3639, 2000, 2000),
        Ok(PairAmounts { x: 1100, y: 3639 })
    );
}

#[test]
fn withdraw_never_exceeds_vaults() {
    for shares in 1..=37u64 {
        let a = withdraw_amounts_from_shares(1001, 17, 37, shares).unwrap();
        assert!(a.x <= 1001 && a.y <= 17);
    }
}

#[test]
fn swap_exact_input_with_fee() {
    assert_eq!(
        swap_exact_input(1000, 4000, 30, 100),
        Ok(SwapResult { deposit: 100, withdraw: 361 })
    );
}

#[test]
fn swap_errors() {
    assert_eq!(swap_exact_input(1000, 4000, 30, 0), Err(AmmError::ZeroAmount));
    assert_eq!(swap_exact_input(1000, 4000, 10000, 5), Err(AmmError::InvalidFee));
    assert_eq!(swap_exact_input(0, 4000, 30, 1), Err(AmmError::DivisionByZero));
}

#[test]
fn swap_rejects_reserve_exhaustion() {
    // 1000 * 1 / (1000 + 1) rounds to zero: the whole output reserve would go.
    assert_eq!(swap_exact_input(1000, 1, 30, 2), Err(AmmError::ReserveExhausted));
    assert_eq!(swap_exact_input(5, 0, 0, 5), Err(AmmError::ReserveExhausted));
    assert_eq!(swap_exact_input(0, 4000, 0, 0), Err(AmmError::ZeroAmount));
}

#[test]
fn swap_output_is_monotonic_in_input() {
    let mut last = 0u64;
    for amount in 1..=300u64 {
        let out = swap_exact_input(1000, 4000, 30, amount).unwrap().withdraw;
        assert!(out >= last);
        last = out;
    }
}

#[test]
fn swap_with_fee_keeps_product() {
    let before = 1000u128 * 4000u128;
    let s = swap_exact_input(1000, 4000, 30, 100).unwrap();
    let after = (1000u128 + s.deposit as u128) * (4000u128 - s.withdraw as u128);
    assert!(after >= before);
    assert_eq!(after, 1100 * 3639);
}

#[test]
fn swap_without_fee_loses_less_than_one_output_unit() {
    let s = swap_exact_input(1000, 4000, 0, 100).unwrap();
    assert_eq!(s.withdraw, 4000 - 4_000_000 / 1100);
    let after = 1100u128 * (4000u128 - s.withdraw as u128);
    assert!(after + 1100 > 4_000_000);
}

#[test]
fn deposit_then_withdraw_gains_nothing() {
    for shares in 1..=50u64 {
        let d = deposit_amounts_from_shares(1001, 3999, 2003, shares).unwrap();
        let w = withdraw_amounts_from_shares(1001 + d.x, 3999 + d.y, 2003 + shares, shares).unwrap();
        assert!(w.x <= d.x && w.y <= d.y);
        let same = withdraw_amounts_from_shares(1001, 3999, 2003, shares).unwrap();
        assert!(same.x <= d.x && same.y <= d.y);
    }
}

#[test]
fn curve_functions_are_deterministic() {
    assert_eq!(swap_exact_input(1000, 4000, 30, 100), swap_exact_input(1000, 4000, 30, 100));
    assert_eq!(
        deposit_amounts_from_shares(1000, 4000, 2000, 7),
        deposit_amounts_from_shares(1000, 4000, 2000, 7)
    );
    assert_eq!(
        withdraw_amounts_from_shares(1000, 4000, 2000, 7),
        withdraw_amounts_from_shares(1000, 4000, 2000, 7)
    );
}
