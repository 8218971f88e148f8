//! Observational events, emitted for off-chain indexers; nothing is
//! persisted. The valuation view's event is the only channel by which an
//! off-chain caller can read a computed value.

use vstd::prelude::*;

verus! {

/// A completed deposit.
pub struct DepositEvent {
    pub user: Vec<u8>,
    pub amount: u64,
    pub cusdc_minted: u64,
}

/// A completed withdrawal.
pub struct WithdrawEvent {
    pub user: Vec<u8>,
    pub cusdc_burned: u64,
    pub usdc_returned: u64,
}

/// A rebalance, reporting the computed targets (not the balances after
/// correction).
pub struct RebalanceEvent {
    pub juplend_balance: u64,
    pub kamino_balance: u64,
}

/// A strategy update's new split.
pub struct AllocationUpdateEvent {
    pub juplend_bps: u16,
    pub kamino_bps: u16,
}

/// A queried holder's current redeemable value.
pub struct ViewEvent {
    pub user: Vec<u8>,
    pub user_yeild: u64,
}

} // verus!
