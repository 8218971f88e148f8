use vault_aggregator::config::AggregatorConfig;
use vault_aggregator::errors::AggregatorError;
use vault_aggregator::handlers::{compute_deposit, compute_view, compute_withdraw, sum_balances};
use vault_aggregator::rebalance::{plan_rebalance, RebalanceLeg};
use vault_aggregator::waterfall::plan_withdrawal;

fn config(bps: u16) -> AggregatorConfig {
    AggregatorConfig::init_aggregator_config(
        vec![1; 32],
        vec![2; 32],
        vec![3; 32],
        vec![4; 32],
        bps,
        254,
    )
    .unwrap()
}

#[test]
fn init_derives_complement_and_zeroes_counter() {
    let c = config(3000);
    assert_eq!(c.juplend_allocation_bps, 3000);
    assert_eq!(c.kamino_allocation_bps, 7000);
    assert_eq!(c.juplend_allocation_bps + c.kamino_allocation_bps, 10000);
    assert_eq!(c.total_deposits, 0);
    assert_eq!(c.bump, 254);
}

#[test]
fn init_rejects_over_ten_thousand() {
    let r = AggregatorConfig::init_aggregator_config(
        vec![1; 32],
        vec![2; 32],
        vec![3; 32],
        vec![4; 32],
        10001,
        254,
    );
    assert_eq!(r.unwrap_err(), AggregatorError::InvalidAllocation);
}

#[test]
fn update_strategy_keeps_split_invariant() {
    let mut c = config(3000);
    c.update_strategy(0).unwrap();
    assert_eq!(c.juplend_allocation_bps + c.kamino_allocation_bps, 10000);
    c.update_strategy(10000).unwrap();
    assert_eq!(c.juplend_allocation_bps, 10000);
    assert_eq!(c.kamino_allocation_bps, 0);
    c.update_strategy(4567).unwrap();
    assert_eq!(c.juplend_allocation_bps, 4567);
    assert_eq!(c.kamino_allocation_bps, 5433);
}

#[test]
fn update_strategy_rejects_and_leaves_config_unchanged() {
    let mut c = config(3000);
    let r = c.update_strategy(10001);
    assert_eq!(r.unwrap_err(), AggregatorError::InvalidAllocation);
    assert_eq!(c.juplend_allocation_bps, 3000);
    assert_eq!(c.kamino_allocation_bps, 7000);
    assert_eq!(c.total_deposits, 0);
}

#[test]
fn record_deposit_accumulates_and_overflows() {
    let mut c = config(3000);
    c.record_deposit(100).unwrap();
    c.record_deposit(50).unwrap();
    assert_eq!(c.total_deposits, 150);
    let r = c.record_deposit(u64::MAX);
    assert_eq!(r.unwrap_err(), AggregatorError::MathOverflow);
    assert_eq!(c.total_deposits, 150);
}

#[test]
fn rebalance_idle_cash_lands_in_juplend_then_corrects() {
    // idle=100, both venues empty, 30% JupLend target: the idle cash goes
    // to JupLend, then 70 moves on to Kamino.
    let p = plan_rebalance(0, 0, 100, 3000).unwrap();
    assert_eq!(p.deposit_idle_to_juplend, 100);
    assert_eq!(p.target_juplend, 30);
    assert_eq!(p.target_kamino, 70);
    assert_eq!(p.leg, RebalanceLeg::JuplendToKamino(70));
}

#[test]
fn rebalance_kamino_excess_moves_to_juplend() {
    let p = plan_rebalance(0, 100, 0, 5000).unwrap();
    assert_eq!(p.target_juplend, 50);
    assert_eq!(p.target_kamino, 50);
    assert_eq!(p.leg, RebalanceLeg::KaminoToJuplend(50));
}

#[test]
fn rebalance_on_target_holds() {
    let p = plan_rebalance(30, 70, 0, 3000).unwrap();
    assert_eq!(p.leg, RebalanceLeg::Hold);
}

#[test]
fn rebalance_total_overflow_fails() {
    let r = plan_rebalance(u64::MAX, 1, 0, 3000);
    assert_eq!(r.unwrap_err(), AggregatorError::MathOverflow);
    let r2 = plan_rebalance(u64::MAX / 2, 0, 0, 3000);
    assert_eq!(r2.unwrap_err(), AggregatorError::MathOverflow);
}

#[test]
fn waterfall_kamino_covers_when_juplend_cannot() {
    let p = plan_withdrawal(60, 40, 100).unwrap();
    assert_eq!(p.from_juplend, 0);
    assert_eq!(p.from_kamino, 60);
}

#[test]
fn waterfall_splits_when_neither_alone_covers() {
    let p = plan_withdrawal(60, 40, 30).unwrap();
    assert_eq!(p.from_juplend, 40);
    assert_eq!(p.from_kamino, 20);
}

#[test]
fn waterfall_insufficient_balance_fails() {
    let r = plan_withdrawal(60, 10, 10);
    assert_eq!(r.unwrap_err(), AggregatorError::InsufficientBalance);
}

#[test]
fn waterfall_juplend_first_when_it_covers() {
    let p = plan_withdrawal(30, 40, 100).unwrap();
    assert_eq!(p.from_juplend, 30);
    assert_eq!(p.from_kamino, 0);
}

#[test]
fn deposit_rejects_zero_amount() {
    let r = compute_deposit(0, 1000, 2000);
    assert_eq!(r.unwrap_err(), AggregatorError::InvalidAmount);
}

#[test]
fn deposit_prices_against_protocol_total() {
    assert_eq!(compute_deposit(500, 1000, 2000).unwrap(), 250);
}

#[test]
fn withdraw_rejects_zero_shares() {
    let r = compute_withdraw(0, 1000, 2000);
    assert_eq!(r.unwrap_err(), AggregatorError::InvalidAmount);
}

#[test]
fn withdraw_converts_shares_to_usdc() {
    assert_eq!(compute_withdraw(250, 1000, 2000).unwrap(), 500);
}

#[test]
fn view_reports_redeemable_value() {
    assert_eq!(compute_view(250, 1000, 2000), 500);
    assert_eq!(compute_view(250, 0, 2000), 0);
}

#[test]
fn balance_sum_and_overflow() {
    assert_eq!(sum_balances(&vec![1, 2, 3]).unwrap(), 6);
    assert_eq!(sum_balances(&vec![]).unwrap(), 0);
    let r = sum_balances(&vec![u64::MAX, 1]);
    assert_eq!(r.unwrap_err(), AggregatorError::MathOverflow);
}

#[test]
fn rebalance_full_juplend_allocation() {
    let p = plan_rebalance(10, 70, 20, 10000).unwrap();
    assert_eq!(p.target_juplend, 100);
    assert_eq!(p.target_kamino, 0);
    assert_eq!(p.leg, RebalanceLeg::KaminoToJuplend(70));
}

#[test]
fn rebalance_zero_juplend_allocation() {
    let p = plan_rebalance(0, 0, 100, 0).unwrap();
    assert_eq!(p.target_juplend, 0);
    assert_eq!(p.target_kamino, 100);
    assert_eq!(p.leg, RebalanceLeg::JuplendToKamino(100));
}

#[test]
fn waterfall_exact_total_drains_both() {
    let p = plan_withdrawal(50, 40, 10).unwrap();
    assert_eq!(p.from_juplend, 40);
    assert_eq!(p.from_kamino, 10);
}
