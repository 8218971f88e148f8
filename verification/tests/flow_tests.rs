use vault_aggregator::aggregate::{calculate_total_asset_balance, TotalBalanceInputs};
use vault_aggregator::encode::{
    farm_initialize_user_instruction_data, farm_stake_instruction_data,
    farm_transfer_ownership_instruction_data, farm_unstake_instruction_data,
    farm_withdraw_unstaked_instruction_data, juplend_deposit_instruction_data,
    juplend_withdraw_instruction_data, kamino_deposit_instruction_data,
    kamino_withdraw_from_available_instruction_data, kamino_withdraw_instruction_data,
};
use vault_aggregator::juplend_state::{Lending, LendingRewardsRateModel};
use vault_aggregator::kamino_flow::{
    choose_withdraw_path, has_farm, plan_farm_staking, reserve_withdraw_amounts,
    unstake_shortfall, FarmStakeAction, KaminoWithdrawPath, FARM_PREFUND_AMOUNT,
};
use vault_aggregator::kamino_valuation::ReserveAccount;

#[test]
fn juplend_deposit_data_bytes() {
    let d = juplend_deposit_instruction_data(77);
    assert_eq!(
        d,
        vec![242, 35, 198, 137, 82, 225, 242, 182, 77, 0, 0, 0, 0, 0, 0, 0]
    );
}

#[test]
fn juplend_withdraw_data_bytes() {
    let d = juplend_withdraw_instruction_data(0x0102);
    assert_eq!(
        d,
        vec![183, 18, 70, 156, 148, 109, 161, 34, 2, 1, 0, 0, 0, 0, 0, 0]
    );
}

#[test]
fn kamino_deposit_and_withdraw_data_bytes() {
    assert_eq!(
        kamino_deposit_instruction_data(1),
        vec![242, 35, 198, 137, 82, 225, 242, 182, 1, 0, 0, 0, 0, 0, 0, 0]
    );
    assert_eq!(
        kamino_withdraw_instruction_data(1),
        vec![183, 18, 70, 156, 148, 109, 161, 34, 1, 0, 0, 0, 0, 0, 0, 0]
    );
    assert_eq!(
        kamino_withdraw_from_available_instruction_data(1),
        vec![19, 131, 112, 155, 170, 220, 34, 57, 1, 0, 0, 0, 0, 0, 0, 0]
    );
}

#[test]
fn farm_data_bytes() {
    assert_eq!(
        farm_initialize_user_instruction_data(),
        vec![111, 17, 185, 250, 60, 122, 38, 254]
    );
    assert_eq!(
        farm_stake_instruction_data(FARM_PREFUND_AMOUNT),
        vec![206, 176, 202, 18, 200, 209, 179, 108, 64, 66, 15, 0, 0, 0, 0, 0]
    );
    assert_eq!(
        farm_transfer_ownership_instruction_data(),
        vec![65, 177, 215, 73, 53, 45, 99, 47]
    );
    assert_eq!(
        farm_withdraw_unstaked_instruction_data(),
        vec![36, 102, 187, 49, 220, 36, 132, 67]
    );
}

#[test]
fn farm_unstake_data_is_wad_scaled() {
    // 5 shares scale to 5 * 10^18 before encoding.
    let d = farm_unstake_instruction_data(5);
    let mut expected = vec![90, 95, 107, 42, 205, 124, 50, 225];
    expected.extend_from_slice(&[0, 0, 244, 68, 130, 145, 99, 69, 0, 0, 0, 0, 0, 0, 0, 0]);
    assert_eq!(d, expected);
}

#[test]
fn farm_detection_by_key() {
    assert!(!has_farm(&[0u8; 32]));
    let mut k = [0u8; 32];
    k[0] = 1;
    assert!(has_farm(&k));
}

#[test]
fn staking_plan_without_farm_is_empty() {
    let plan = plan_farm_staking(&[0u8; 32], false, 0);
    assert!(plan.is_empty());
}

#[test]
fn staking_plan_only_final_stake_is_fatal() {
    let farm = [7u8; 32];
    let plan = plan_farm_staking(&farm, false, 5_000_000);
    assert_eq!(plan.len(), 5);
    assert_eq!(plan[0].action, FarmStakeAction::InitializeUserFarmState);
    assert_eq!(
        plan[1].action,
        FarmStakeAction::TransferSharesToUser(FARM_PREFUND_AMOUNT)
    );
    assert_eq!(plan[2].action, FarmStakeAction::StakeByUser(FARM_PREFUND_AMOUNT));
    assert_eq!(plan[3].action, FarmStakeAction::TransferUserStateOwnership);
    assert_eq!(plan[4].action, FarmStakeAction::StakeByConfig(4_000_000));
    assert!(plan[0].tolerated);
    assert!(plan[1].tolerated);
    assert!(plan[2].tolerated);
    assert!(plan[3].tolerated);
    assert!(!plan[4].tolerated);
}

#[test]
fn staking_plan_skips_init_when_user_state_exists() {
    let farm = [7u8; 32];
    let plan = plan_farm_staking(&farm, true, 2_000_000);
    assert_eq!(plan.len(), 4);
    assert_eq!(
        plan[0].action,
        FarmStakeAction::TransferSharesToUser(FARM_PREFUND_AMOUNT)
    );
    assert_eq!(plan[3].action, FarmStakeAction::StakeByConfig(1_000_000));
}

#[test]
fn unstake_shortfall_cases() {
    assert_eq!(unstake_shortfall(50, 100), None);
    assert_eq!(unstake_shortfall(150, 100), Some(50));
    assert_eq!(unstake_shortfall(u64::MAX, 100), Some(u64::MAX));
}

#[test]
fn withdraw_path_choice() {
    assert_eq!(choose_withdraw_path(2), KaminoWithdrawPath::WithAllocations);
    assert_eq!(choose_withdraw_path(0), KaminoWithdrawPath::FromAvailable);
}

#[test]
fn withdrawal_targets_last_reserve_only() {
    assert_eq!(reserve_withdraw_amounts(2, 500), vec![0, 500]);
    assert_eq!(reserve_withdraw_amounts(1, 500), vec![500]);
    assert_eq!(reserve_withdraw_amounts(0, 500), Vec::<u64>::new());
}

#[test]
fn aggregate_balance_pairs_both_venues() {
    let lending = Lending {
        mint: vec![0; 32],
        f_token_mint: vec![0; 32],
        lending_id: 1,
        decimals: 6,
        rewards_rate_model: vec![0; 32],
        liquidity_exchange_price: 1_000_000_000_000,
        token_exchange_price: 1_000_000_000_000,
        last_update_timestamp: 1000,
        token_reserves_liquidity: vec![0; 32],
        supply_position_on_liquidity: vec![0; 32],
        bump: 255,
    };
    let model = LendingRewardsRateModel {
        mint: vec![0; 32],
        start_tvl: 1_000_000_000,
        duration: 0,
        start_time: 500,
        yearly_reward: 10_000_000,
        next_duration: 0,
        next_reward_amount: 0,
        bump: 255,
    };
    let mut token_reserve = vec![0u8; 184];
    token_reserve[78..86].copy_from_slice(&1_100_000_000_000u64.to_le_bytes());

    let mut vault = vec![0u8; 53264];
    vault[0..8].copy_from_slice(&[228, 196, 82, 165, 98, 210, 235, 152]);
    vault[8 + 216..8 + 224].copy_from_slice(&500u64.to_le_bytes());
    vault[8 + 224..8 + 232].copy_from_slice(&1000u64.to_le_bytes());
    let key = [5u8; 32];
    vault[8 + 304..8 + 304 + 32].copy_from_slice(&key);
    vault[8 + 304 + 1104..8 + 304 + 1112].copy_from_slice(&1000u64.to_le_bytes());

    let mut reserve = vec![0u8; 4872];
    reserve[8 + 8..8 + 16].copy_from_slice(&12345u64.to_le_bytes());
    reserve[8 + 216..8 + 224].copy_from_slice(&1_000_000u64.to_le_bytes());
    reserve[8 + 2584..8 + 2592].copy_from_slice(&900_000u64.to_le_bytes());

    let inputs = TotalBalanceInputs {
        juplend_token_reserve_data: token_reserve,
        juplend_lending: lending,
        juplend_rewards_rate_model: model,
        juplend_ftoken_amount: 1_000_000,
        kamino_vault_state_data: vault,
        kamino_shares_amount: 250,
        kamino_user_state_data: Vec::new(),
        reserves: vec![ReserveAccount { key: key.to_vec(), data: reserve }],
        current_timestamp: 1000 + 31_536_000,
        current_slot: 12345,
    };
    let balances = calculate_total_asset_balance(&inputs).unwrap();
    assert_eq!(balances, vec![1_200_000, 402]);
}

#[test]
fn aggregate_balance_propagates_invalid_reserve_bytes() {
    let lending = Lending {
        mint: vec![0; 32],
        f_token_mint: vec![0; 32],
        lending_id: 1,
        decimals: 6,
        rewards_rate_model: vec![0; 32],
        liquidity_exchange_price: 1,
        token_exchange_price: 1,
        last_update_timestamp: 0,
        token_reserves_liquidity: vec![0; 32],
        supply_position_on_liquidity: vec![0; 32],
        bump: 255,
    };
    let model = LendingRewardsRateModel {
        mint: vec![0; 32],
        start_tvl: 0,
        duration: 0,
        start_time: 0,
        yearly_reward: 0,
        next_duration: 0,
        next_reward_amount: 0,
        bump: 255,
    };
    let inputs = TotalBalanceInputs {
        juplend_token_reserve_data: vec![0u8; 10],
        juplend_lending: lending,
        juplend_rewards_rate_model: model,
        juplend_ftoken_amount: 0,
        kamino_vault_state_data: Vec::new(),
        kamino_shares_amount: 0,
        kamino_user_state_data: Vec::new(),
        reserves: Vec::new(),
        current_timestamp: 0,
        current_slot: 0,
    };
    let r = calculate_total_asset_balance(&inputs);
    assert!(r.is_err());
}
