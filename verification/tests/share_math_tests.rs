use vault_aggregator::share_math::{calculate_shares_to_mint, calculate_usdc_for_shares};

#[test]
fn first_depositor_mints_one_to_one() {
    assert_eq!(calculate_shares_to_mint(123, 0, 999), 123);
    assert_eq!(calculate_shares_to_mint(123, 999, 0), 123);
    assert_eq!(calculate_shares_to_mint(0, 0, 0), 0);
    assert_eq!(calculate_shares_to_mint(u64::MAX, 0, 7), u64::MAX);
}

#[test]
fn shares_to_mint_exact_division() {
    assert_eq!(calculate_shares_to_mint(500, 1000, 2000), 250);
}

#[test]
fn shares_to_mint_floor_division_truncates() {
    assert_eq!(calculate_shares_to_mint(500, 1000, 2001), 249);
}

#[test]
fn shares_to_mint_overflow_falls_back_one_to_one() {
    assert_eq!(calculate_shares_to_mint(u64::MAX, 2, 3), u64::MAX);
}

#[test]
fn value_for_shares_zero_supply_is_zero() {
    assert_eq!(calculate_usdc_for_shares(123, 0, 999), 0);
    assert_eq!(calculate_usdc_for_shares(u64::MAX, 0, u64::MAX), 0);
}

#[test]
fn value_for_shares_round_trips_against_mint() {
    assert_eq!(calculate_usdc_for_shares(250, 1000, 2000), 500);
}

#[test]
fn value_for_shares_overflow_falls_back_to_zero() {
    assert_eq!(calculate_usdc_for_shares(u64::MAX, 3, 2), 0);
}
