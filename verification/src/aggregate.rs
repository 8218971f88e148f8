//! Aggregate balance computation, and the single authoritative schema of
//! the caller-supplied trailing-accounts list.
//!
//! Every component that walks the trailing accounts — balance
//! aggregation, both venues' instruction builders, the rebalance
//! orchestrator — must agree on exactly these positions; they are defined
//! here once and nowhere else.

use vstd::prelude::*;
use crate::errors::AggregatorError;
use crate::juplend_state::{Lending, LendingRewardsRateModel};
use crate::juplend_reserve::{TOKEN_RESERVE_LEN, SUPPLY_EXCHANGE_PRICE_OFFSET};
use crate::juplend_valuation::{
    convert_to_asset_ok,
    convert_to_asset_spec,
    get_juplend_balance,
};
use crate::farm_balance::{
    get_kamino_farm_active_balance,
    staked_shares_spec,
    user_state_tag_ok,
};
use crate::kamino_valuation::{
    get_kamino_balance,
    kamino_balance_math_spec,
    vault_shares_issued,
    vault_tag_ok,
    RateOutcome,
    ReserveAccount,
};
use crate::kamino_layout::VAULT_STATE_MIN_LEN;
use crate::user_state::USER_STATE_MIN_LEN;
use crate::bytes::le_u64;

verus! {

// The fixed positional contract of the trailing-accounts list. The first
// thirteen positions are JupLend's; Kamino's core accounts follow, then
// its farm accounts, then two 7-account reserve groups.
pub const IDX_JUP_LENDING: usize = 0;
pub const IDX_JUP_REWARDS_RATE_MODEL: usize = 1;
pub const IDX_JUP_F_TOKEN_MINT: usize = 2;
pub const IDX_JUP_VAULT_FTOKENS: usize = 3;
pub const IDX_JUP_LENDING_ADMIN: usize = 4;
pub const IDX_JUP_TOKEN_RESERVE: usize = 5;
pub const IDX_JUP_SUPPLY_POSITION: usize = 6;
pub const IDX_JUP_RATE_MODEL: usize = 7;
pub const IDX_JUP_VAULT: usize = 8;
pub const IDX_JUP_LIQUIDITY: usize = 9;
pub const IDX_JUP_LIQUIDITY_PROGRAM: usize = 10;
pub const IDX_JUP_CLAIM_ACCOUNT: usize = 11;
pub const IDX_JUP_LENDING_PROGRAM: usize = 12;
pub const IDX_KAMINO_VAULT_STATE: usize = 13;
pub const IDX_KAMINO_TOKEN_VAULT: usize = 14;
pub const IDX_KAMINO_BASE_VAULT_AUTHORITY: usize = 15;
pub const IDX_KAMINO_SHARES_MINT: usize = 16;
pub const IDX_KAMINO_USER_SHARES_ATA: usize = 17;
pub const IDX_KLEND_PROGRAM: usize = 18;
pub const IDX_KAMINO_SHARES_TOKEN_PROGRAM: usize = 19;
pub const IDX_KAMINO_EVENT_AUTHORITY: usize = 20;
pub const IDX_KAMINO_LENDING_VAULT_PROGRAM: usize = 21;
pub const IDX_KAMINO_USER_FARM_STATE: usize = 22;
pub const IDX_KAMINO_FARM_STATE: usize = 23;
pub const IDX_KAMINO_FARM_VAULT: usize = 24;
pub const IDX_KAMINO_SCOPE_PRICES: usize = 25;
pub const IDX_KAMINO_FARM_PROGRAM: usize = 26;
pub const IDX_KAMINO_VAULT_PROGRAM: usize = 27;
pub const IDX_KAMINO_FARM_VAULT_AUTHORITY: usize = 28;
pub const IDX_INSTRUCTION_SYSVAR: usize = 29;
pub const IDX_KAMINO_CONFIG_FARM_STATE: usize = 30;
pub const IDX_KAMINO_CONFIG_SHARES_ATA: usize = 31;
pub const IDX_RESERVE_1: usize = 32;
pub const IDX_RESERVE_2: usize = 39;

// Within each 7-account reserve group.
pub const RESERVE_GROUP_RESERVE: usize = 0;
pub const RESERVE_GROUP_CTOKEN_VAULT: usize = 1;
pub const RESERVE_GROUP_LENDING_MARKET: usize = 2;
pub const RESERVE_GROUP_LENDING_MARKET_AUTHORITY: usize = 3;
pub const RESERVE_GROUP_LIQUIDITY_SUPPLY: usize = 4;
pub const RESERVE_GROUP_COLLATERAL_MINT: usize = 5;
pub const RESERVE_GROUP_COLLATERAL_TOKEN_PROGRAM: usize = 6;
pub const RESERVE_GROUP_LEN: usize = 7;

/// The shortest trailing-accounts list the schema admits.
pub const MIN_TRAILING_ACCOUNTS: usize = 46;

/// The plain values the aggregate valuation reads from the trailing
/// accounts, extracted by the host according to the schema above.
pub struct TotalBalanceInputs {
    /// Raw bytes of the JupLend token-reserve account.
    pub juplend_token_reserve_data: Vec<u8>,
    /// The deserialized JupLend lending record.
    pub juplend_lending: Lending,
    /// The deserialized JupLend rewards-rate-model record.
    pub juplend_rewards_rate_model: LendingRewardsRateModel,
    /// The vault's f-token balance.
    pub juplend_ftoken_amount: u64,
    /// Raw bytes of the Kamino vault-state account.
    pub kamino_vault_state_data: Vec<u8>,
    /// The vault's unstaked Kamino share balance.
    pub kamino_shares_amount: u64,
    /// Raw bytes of the Kamino farm user-state account (empty when the
    /// account does not exist).
    pub kamino_user_state_data: Vec<u8>,
    /// The two reserve accounts' addresses and raw bytes.
    pub reserves: Vec<ReserveAccount>,
    /// The clock's current unix timestamp.
    pub current_timestamp: u64,
    /// The current block height.
    pub current_slot: u64,
}

/// What the JupLend side of the valuation returns for given inputs.
pub open spec fn juplend_outcome_spec(inputs: TotalBalanceInputs) -> Result<int, AggregatorError> {
    if inputs.juplend_token_reserve_data@.len() < TOKEN_RESERVE_LEN {
        Err(AggregatorError::InvalidAccountData)
    } else {
        let supply_price = le_u64(
            inputs.juplend_token_reserve_data@,
            SUPPLY_EXCHANGE_PRICE_OFFSET as int,
        ) as u64;
        if convert_to_asset_ok(
            inputs.juplend_ftoken_amount,
            supply_price,
            inputs.juplend_lending,
            inputs.juplend_rewards_rate_model,
            inputs.current_timestamp,
        ) {
            Ok(
                convert_to_asset_spec(
                    inputs.juplend_ftoken_amount,
                    supply_price,
                    inputs.juplend_lending,
                    inputs.juplend_rewards_rate_model,
                    inputs.current_timestamp,
                ),
            )
        } else {
            Err(AggregatorError::MathOverflow)
        }
    }
}

/// What the farm-balance step returns for given inputs.
pub open spec fn farm_active_outcome_spec(inputs: TotalBalanceInputs) -> Result<
    int,
    AggregatorError,
> {
    let s = inputs.kamino_user_state_data@;
    if !user_state_tag_ok(s) {
        Ok(inputs.kamino_shares_amount as int)
    } else if s.len() < USER_STATE_MIN_LEN {
        Err(AggregatorError::InvalidAccountData)
    } else if inputs.kamino_shares_amount + staked_shares_spec(s) > u64::MAX {
        Err(AggregatorError::MathOverflow)
    } else {
        Ok(inputs.kamino_shares_amount + staked_shares_spec(s))
    }
}

/// What the Kamino side of the valuation returns for given inputs, once
/// the farm-inclusive share count is known.
pub open spec fn kamino_outcome_spec(inputs: TotalBalanceInputs, user_shares: u64) -> Result<
    int,
    AggregatorError,
> {
    let vault = inputs.kamino_vault_state_data@;
    if !vault_tag_ok(vault) {
        Err(AggregatorError::InvalidAccountData)
    } else if vault.len() < VAULT_STATE_MIN_LEN {
        Err(AggregatorError::InvalidAccountData)
    } else if vault_shares_issued(vault) == 0 {
        Ok(0)
    } else {
        match kamino_balance_math_spec(
            vault,
            inputs.reserves@,
            Some(inputs.current_slot),
            user_shares,
        ) {
            RateOutcome::Val(v) => Ok(v),
            RateOutcome::Overflow => Err(AggregatorError::MathOverflow),
            RateOutcome::BadData => Err(AggregatorError::InvalidAccountData),
        }
    }
}

/// Computes both venues' current balances from one reading of the
/// trailing accounts: the JupLend valuation first, then the Kamino
/// valuation with the farm-inclusive share count, projected to the
/// current block height. The result is the ordered pair
/// `[juplend_balance, kamino_balance]`.
pub fn calculate_total_asset_balance(inputs: &TotalBalanceInputs) -> (r: Result<
    Vec<u64>,
    AggregatorError,
>)
    ensures
        match juplend_outcome_spec(*inputs) {
            Err(e) => r matches Err(e2) && e2 == e,
            Ok(jv) => match farm_active_outcome_spec(*inputs) {
                Err(e) => r matches Err(e2) && e2 == e,
                Ok(fa) => match kamino_outcome_spec(*inputs, fa as u64) {
                    Err(e) => r matches Err(e2) && e2 == e,
                    Ok(kv) => r matches Ok(v) && v@.len() == 2 && v@[0] == jv && v@[1] == kv,
                },
            },
        },
{
    let juplend_balance = match get_juplend_balance(
        inputs.juplend_token_reserve_data.as_slice(),
        &inputs.juplend_lending,
        &inputs.juplend_rewards_rate_model,
        inputs.juplend_ftoken_amount,
        inputs.current_timestamp,
    ) {
        Ok(v) => v,
        Err(e) => {
            return Err(e);
        },
    };

    let kamino_farm_active_balance = match get_kamino_farm_active_balance(
        inputs.kamino_shares_amount,
        inputs.kamino_user_state_data.as_slice(),
    ) {
        Ok(v) => v,
        Err(e) => {
            return Err(e);
        },
    };

    let kamino_balance = match get_kamino_balance(
        inputs.kamino_vault_state_data.as_slice(),
        kamino_farm_active_balance,
        &inputs.reserves,
        Some(inputs.current_slot),
    ) {
        Ok(v) => v,
        Err(e) => {
            return Err(e);
        },
    };

    let mut r: Vec<u64> = Vec::new();
    r.push(juplend_balance);
    r.push(kamino_balance);
    Ok(r)
}

} // verus!
