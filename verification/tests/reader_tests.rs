use vault_aggregator::bytes::{
    read_u16_from_bytes, read_u64_from_bytes, read_u128_from_bytes, read_pubkey_from_bytes,
    u64_to_le_bytes, u128_to_le_bytes, keys_equal, key_is_zero,
};
use vault_aggregator::juplend_reserve;
use vault_aggregator::kamino_layout;
use vault_aggregator::user_state;

fn set_u16(buf: &mut [u8], off: usize, v: u16) {
    buf[off..off + 2].copy_from_slice(&v.to_le_bytes());
}

fn set_u64(buf: &mut [u8], off: usize, v: u64) {
    buf[off..off + 8].copy_from_slice(&v.to_le_bytes());
}

fn set_u128(buf: &mut [u8], off: usize, v: u128) {
    buf[off..off + 16].copy_from_slice(&v.to_le_bytes());
}

#[test]
fn kamino_account_reader_test_vault_offsets() {
    assert_eq!(kamino_layout::VAULT_TOKEN_AVAILABLE, 216);
    assert_eq!(kamino_layout::VAULT_SHARES_ISSUED, 224);
    assert_eq!(kamino_layout::VAULT_PENDING_FEES_SF, 288);
}

#[test]
fn kamino_account_reader_test_reserve_offsets() {
    assert_eq!(kamino_layout::RESERVE_LAST_UPDATE_SLOT, 8);
    assert_eq!(kamino_layout::RESERVE_LIQUIDITY_START, 120);
}

#[test]
fn low_level_readers_round_trip() {
    let mut buf = vec![0u8; 64];
    set_u16(&mut buf, 3, 0xBEEF);
    set_u64(&mut buf, 8, 0x0123_4567_89AB_CDEF);
    set_u128(&mut buf, 16, 0xFFEE_DDCC_BBAA_9988_7766_5544_3322_1100);
    assert_eq!(read_u16_from_bytes(&buf, 3), 0xBEEF);
    assert_eq!(read_u64_from_bytes(&buf, 8), 0x0123_4567_89AB_CDEF);
    assert_eq!(read_u128_from_bytes(&buf, 16), 0xFFEE_DDCC_BBAA_9988_7766_5544_3322_1100);
    assert_eq!(u64_to_le_bytes(77), vec![77, 0, 0, 0, 0, 0, 0, 0]);
    assert_eq!(u64_to_le_bytes(0x0102030405060708), vec![8, 7, 6, 5, 4, 3, 2, 1]);
    assert_eq!(
        u128_to_le_bytes(5_000_000_000_000_000_000),
        vec![0, 0, 244, 68, 130, 145, 99, 69, 0, 0, 0, 0, 0, 0, 0, 0]
    );
}

#[test]
fn key_helpers() {
    let zero = vec![0u8; 32];
    let mut one = vec![0u8; 32];
    one[31] = 1;
    assert!(key_is_zero(&zero));
    assert!(!key_is_zero(&one));
    assert!(keys_equal(&zero, &zero));
    assert!(!keys_equal(&zero, &one));
    assert!(!keys_equal(&zero, &zero[..31]));
}

#[test]
fn juplend_token_reserve_getters() {
    let mut buf = vec![0u8; 184];
    for i in 0..32 {
        buf[i] = i as u8;
        buf[32 + i] = (i + 1) as u8;
    }
    set_u16(&mut buf, 64, 321);
    set_u16(&mut buf, 66, 15);
    set_u16(&mut buf, 68, 7700);
    set_u64(&mut buf, 70, 1_700_000_000);
    set_u64(&mut buf, 78, 1_050_000_000_000);
    set_u64(&mut buf, 86, 1_060_000_000_000);
    set_u16(&mut buf, 94, 9000);
    set_u64(&mut buf, 96, 11);
    set_u64(&mut buf, 104, 22);
    set_u64(&mut buf, 112, 33);
    set_u64(&mut buf, 120, 44);
    set_u64(&mut buf, 128, 55);
    set_u64(&mut buf, 168, 66);
    set_u64(&mut buf, 176, 77);

    assert_eq!(juplend_reserve::get_mint(&buf), buf[0..32].to_vec());
    assert_eq!(juplend_reserve::get_vault(&buf), buf[32..64].to_vec());
    assert_eq!(juplend_reserve::get_borrow_rate(&buf), 321);
    assert_eq!(juplend_reserve::get_fee_on_interest(&buf), 15);
    assert_eq!(juplend_reserve::get_last_utilization(&buf), 7700);
    assert_eq!(juplend_reserve::get_last_update_timestamp(&buf), 1_700_000_000);
    assert_eq!(juplend_reserve::get_supply_exchange_price(&buf), 1_050_000_000_000);
    assert_eq!(juplend_reserve::get_borrow_exchange_price(&buf), 1_060_000_000_000);
    assert_eq!(juplend_reserve::get_max_utilization(&buf), 9000);
    assert_eq!(juplend_reserve::get_total_supply_with_interest(&buf), 11);
    assert_eq!(juplend_reserve::get_total_supply_interest_free(&buf), 22);
    assert_eq!(juplend_reserve::get_total_borrow_with_interest(&buf), 33);
    assert_eq!(juplend_reserve::get_total_borrow_interest_free(&buf), 44);
    assert_eq!(juplend_reserve::get_total_claim_amount(&buf), 55);
    assert_eq!(juplend_reserve::get_interacting_timestamp(&buf), 66);
    assert_eq!(juplend_reserve::get_interacting_balance(&buf), 77);
}

#[test]
fn user_state_getters() {
    let mut buf = vec![0u8; 520];
    buf[0..8].copy_from_slice(&[72, 177, 85, 249, 76, 167, 186, 126]);
    set_u64(&mut buf, 8, 42);
    for i in 0..32 {
        buf[16 + i] = 9;
        buf[48 + i] = 8;
        buf[480 + i] = 7;
    }
    buf[80] = 1;
    set_u128(&mut buf, 408, 5_000_000_000_000_000_000);
    set_u128(&mut buf, 424, 123);
    set_u64(&mut buf, 440, 456);
    set_u128(&mut buf, 448, 789);
    set_u64(&mut buf, 464, 1011);
    set_u64(&mut buf, 472, 255);
    set_u64(&mut buf, 512, 1213);

    assert_eq!(user_state::get_discriminator(&buf), vec![72, 177, 85, 249, 76, 167, 186, 126]);
    assert_eq!(user_state::get_user_id(&buf), 42);
    assert_eq!(user_state::get_farm_state(&buf), vec![9u8; 32]);
    assert_eq!(user_state::get_owner(&buf), vec![8u8; 32]);
    assert_eq!(user_state::get_is_farm_delegated(&buf), 1);
    assert_eq!(user_state::get_active_stake_scaled(&buf), 5_000_000_000_000_000_000);
    assert_eq!(user_state::get_pending_deposit_stake_scaled(&buf), 123);
    assert_eq!(user_state::get_pending_deposit_stake_ts(&buf), 456);
    assert_eq!(user_state::get_pending_withdrawal_unstake_scaled(&buf), 789);
    assert_eq!(user_state::get_pending_withdrawal_unstake_ts(&buf), 1011);
    assert_eq!(user_state::get_bump(&buf), 255);
    assert_eq!(user_state::get_delegatee(&buf), vec![7u8; 32]);
    assert_eq!(user_state::get_last_stake_ts(&buf), 1213);
}

#[test]
fn kamino_layout_readers() {
    let mut vault = vec![0u8; 1500];
    set_u64(&mut vault, 8 + 216, 111);
    set_u64(&mut vault, 8 + 224, 222);
    set_u128(&mut vault, 8 + 288, 333);
    let f = kamino_layout::read_vault_state_fields(&vault).unwrap();
    assert_eq!(f.token_available, 111);
    assert_eq!(f.shares_issued, 222);
    assert_eq!(f.pending_fees_sf, 333);

    // slot 0 lives at 8 + 304; its invested amount 1104 bytes further in
    for i in 0..32 {
        vault[8 + 304 + i] = 5;
    }
    set_u64(&mut vault, 8 + 304 + 1104, 444);
    let a = kamino_layout::read_vault_allocation(&vault, 0).unwrap();
    assert_eq!(a.reserve, vec![5u8; 32]);
    assert_eq!(a.ctoken_allocation, 444);
    assert!(kamino_layout::read_vault_allocation(&vault, 1).is_err());

    let mut reserve = vec![0u8; 4872];
    set_u64(&mut reserve, 8 + 8, 9999);
    set_u64(&mut reserve, 8 + 216, 1_000_000);
    set_u128(&mut reserve, 8 + 224, 55_555);
    set_u128(&mut reserve, 8 + 336, 1);
    set_u128(&mut reserve, 8 + 352, 2);
    set_u128(&mut reserve, 8 + 368, 3);
    set_u64(&mut reserve, 8 + 2584, 900_000);
    reserve[8 + 4862] = 10;
    set_u16(&mut reserve, 8 + 4850, 100);
    let rf = kamino_layout::read_reserve_fields(&reserve).unwrap();
    assert_eq!(rf.last_update_slot, 9999);
    assert_eq!(rf.available_amount, 1_000_000);
    assert_eq!(rf.borrowed_amount_sf, 55_555);
    assert_eq!(rf.accumulated_protocol_fees_sf, 1);
    assert_eq!(rf.accumulated_referrer_fees_sf, 2);
    assert_eq!(rf.pending_referrer_fees_sf, 3);
    assert_eq!(rf.mint_total_supply, 900_000);
    assert_eq!(rf.protocol_take_rate_pct, 10);
    assert_eq!(rf.host_fixed_interest_rate_bps, 100);
    assert!(kamino_layout::read_reserve_fields(&reserve[..4000]).is_err());
    assert!(kamino_layout::read_vault_state_fields(&vault[..100]).is_err());
}
