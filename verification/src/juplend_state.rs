//! Plain-value models of JupLend's lending record and rewards-rate-model
//! record. The host deserializes the venue's accounts and hands these
//! structs to the valuation math.

use vstd::prelude::*;

verus! {

/// JupLend's per-asset lending record.
pub struct Lending {
    pub mint: Vec<u8>,
    pub f_token_mint: Vec<u8>,
    pub lending_id: u16,
    /// Number of decimals for the f-token, same as the asset.
    pub decimals: u8,
    /// Key of the rewards-rate-model record.
    pub rewards_rate_model: Vec<u8>,
    /// Exchange price for the underlying asset in the liquidity protocol,
    /// without rewards.
    pub liquidity_exchange_price: u64,
    /// Exchange price between the f-token and the underlying asset, with
    /// rewards.
    pub token_exchange_price: u64,
    /// When the exchange prices were last updated.
    pub last_update_timestamp: u64,
    pub token_reserves_liquidity: Vec<u8>,
    pub supply_position_on_liquidity: Vec<u8>,
    pub bump: u8,
}

/// JupLend's rewards-rate-model record.
pub struct LendingRewardsRateModel {
    pub mint: Vec<u8>,
    /// TVL above which the reward rate is zero.
    pub start_tvl: u64,
    /// How long the current rewards run.
    pub duration: u64,
    /// When the current rewards started.
    pub start_time: u64,
    /// Current annualized reward budget.
    pub yearly_reward: u64,
    /// Duration of the next rewards phase (read, not consumed here).
    pub next_duration: u64,
    /// Reward amount of the next phase (read, not consumed here).
    pub next_reward_amount: u64,
    pub bump: u8,
}

} // verus!
