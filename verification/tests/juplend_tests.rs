use vault_aggregator::errors::AggregatorError;
use vault_aggregator::juplend_state::{Lending, LendingRewardsRateModel};
use vault_aggregator::juplend_valuation::{
    convert_to_asset, get_juplend_balance, get_new_exchange_price, get_rewards_rate,
};

fn lending(liquidity_price: u64, token_price: u64, last_update: u64) -> Lending {
    Lending {
        mint: vec![0; 32],
        f_token_mint: vec![0; 32],
        lending_id: 1,
        decimals: 6,
        rewards_rate_model: vec![0; 32],
        liquidity_exchange_price: liquidity_price,
        token_exchange_price: token_price,
        last_update_timestamp: last_update,
        token_reserves_liquidity: vec![0; 32],
        supply_position_on_liquidity: vec![0; 32],
        bump: 255,
    }
}

fn model(start_tvl: u64, start_time: u64, yearly_reward: u64) -> LendingRewardsRateModel {
    LendingRewardsRateModel {
        mint: vec![0; 32],
        start_tvl,
        duration: 0,
        start_time,
        yearly_reward,
        next_duration: 0,
        next_reward_amount: 0,
        bump: 255,
    }
}

#[test]
fn rewards_rate_above_tvl_threshold_is_zero() {
    let m = model(1_000, 0, 10_000_000);
    let rr = get_rewards_rate(1_001, &m).unwrap();
    assert_eq!(rr.rate, 0);
}

#[test]
fn rewards_rate_zero_pool_is_zero() {
    let m = model(1_000_000_000, 0, 10_000_000);
    let rr = get_rewards_rate(0, &m).unwrap();
    assert_eq!(rr.rate, 0);
}

#[test]
fn rewards_rate_spread_over_pool() {
    let m = model(1_000_000_000, 0, 10_000_000);
    let rr = get_rewards_rate(1_000_000, &m).unwrap();
    assert_eq!(rr.rate, 10_000_000_000_000);
}

#[test]
fn rewards_rate_is_capped() {
    let m = model(1_000_000_000, 0, 10_000_000);
    let rr = get_rewards_rate(1, &m).unwrap();
    assert_eq!(rr.rate, 50_000_000_000_000);
}

#[test]
fn new_exchange_price_one_year_with_gain() {
    // 10% reward accrual over one year plus a 10% liquidity price gain.
    let l = lending(1_000_000_000_000, 1_000_000_000_000, 1000);
    let m = model(1_000_000_000, 500, 10_000_000);
    let now = 1000 + 31_536_000;
    let p = get_new_exchange_price(1_100_000_000_000, 1_000_000, &l, &m, now).unwrap();
    assert_eq!(p, 1_200_000_000_000);
}

#[test]
fn new_exchange_price_rejects_clock_before_update() {
    let l = lending(1_000_000_000_000, 1_000_000_000_000, 1000);
    let m = model(1_000_000_000, 500, 10_000_000);
    let r = get_new_exchange_price(1_100_000_000_000, 1_000_000, &l, &m, 999);
    assert_eq!(r.unwrap_err(), AggregatorError::MathOverflow);
}

#[test]
fn new_exchange_price_loss_floors_at_zero_return() {
    // The liquidity price dropped and there are no rewards: the return is
    // floored at zero, so the token price is unchanged.
    let l = lending(1_000_000_000_000, 1_000_000_000_000, 1000);
    let m = model(0, 0, 0);
    let p = get_new_exchange_price(900_000_000_000, 1_000_000, &l, &m, 2000).unwrap();
    assert_eq!(p, 1_000_000_000_000);
}

#[test]
fn convert_to_asset_applies_new_price() {
    let l = lending(1_000_000_000_000, 1_000_000_000_000, 1000);
    let m = model(1_000_000_000, 500, 10_000_000);
    let now = 1000 + 31_536_000;
    let v = convert_to_asset(1_000_000, 1_100_000_000_000, &l, &m, now).unwrap();
    assert_eq!(v, 1_200_000);
}

#[test]
fn juplend_balance_from_raw_reserve_bytes() {
    let l = lending(1_000_000_000_000, 1_000_000_000_000, 1000);
    let m = model(1_000_000_000, 500, 10_000_000);
    let now = 1000 + 31_536_000;
    let mut reserve = vec![0u8; 184];
    reserve[78..86].copy_from_slice(&1_100_000_000_000u64.to_le_bytes());
    let v = get_juplend_balance(&reserve, &l, &m, 1_000_000, now).unwrap();
    assert_eq!(v, 1_200_000);
}

#[test]
fn juplend_balance_rejects_short_reserve_bytes() {
    let l = lending(1, 1, 0);
    let m = model(0, 0, 0);
    let reserve = vec![0u8; 100];
    let r = get_juplend_balance(&reserve, &l, &m, 1, 0);
    assert_eq!(r.unwrap_err(), AggregatorError::InvalidAccountData);
}
