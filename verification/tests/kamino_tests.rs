use vault_aggregator::errors::AggregatorError;
use vault_aggregator::fraction::{Fraction, FRACTION_ONE_BITS};
use vault_aggregator::farm_balance::get_kamino_farm_active_balance;
use vault_aggregator::kamino_valuation::{
    approximate_compounded_interest, calculate_collateral_exchange_rate, get_kamino_balance,
    get_kamino_shares_amount_from_usdc, kamino_withdraw_shares_for_usdc, ReserveAccount,
};

const VAULT_TAG: [u8; 8] = [228, 196, 82, 165, 98, 210, 235, 152];
const USER_TAG: [u8; 8] = [72, 177, 85, 249, 76, 167, 186, 126];

fn set_u64(buf: &mut [u8], off: usize, v: u64) {
    buf[off..off + 8].copy_from_slice(&v.to_le_bytes());
}

fn set_u128(buf: &mut [u8], off: usize, v: u128) {
    buf[off..off + 16].copy_from_slice(&v.to_le_bytes());
}

fn set_u16(buf: &mut [u8], off: usize, v: u16) {
    buf[off..off + 2].copy_from_slice(&v.to_le_bytes());
}

/// A vault-state buffer long enough for all 25 allocation slots.
fn vault_bytes(token_available: u64, shares_issued: u64, pending_fees_sf: u128) -> Vec<u8> {
    let mut v = vec![0u8; 53264];
    v[0..8].copy_from_slice(&VAULT_TAG);
    set_u64(&mut v, 8 + 216, token_available);
    set_u64(&mut v, 8 + 224, shares_issued);
    set_u128(&mut v, 8 + 288, pending_fees_sf);
    v
}

fn set_allocation(vault: &mut [u8], slot: usize, reserve_key: &[u8; 32], ctoken: u64) {
    let base = 8 + 304 + slot * 2160;
    vault[base..base + 32].copy_from_slice(reserve_key);
    set_u64(vault, base + 1104, ctoken);
}

fn reserve_bytes(
    last_update_slot: u64,
    available: u64,
    borrowed_sf: u128,
    mint_total_supply: u64,
    take_rate_pct: u8,
    host_fixed_bps: u16,
) -> Vec<u8> {
    let mut r = vec![0u8; 4872];
    set_u64(&mut r, 8 + 8, last_update_slot);
    set_u64(&mut r, 8 + 216, available);
    set_u128(&mut r, 8 + 224, borrowed_sf);
    set_u64(&mut r, 8 + 2584, mint_total_supply);
    r[8 + 4862] = take_rate_pct;
    set_u16(&mut r, 8 + 4850, host_fixed_bps);
    r
}

#[test]
fn compounded_interest_small_and_large_elapsed() {
    let rate = Fraction::from_bps(550);
    assert_eq!(approximate_compounded_interest(rate, 0).unwrap().bits, FRACTION_ONE_BITS);
    assert_eq!(
        approximate_compounded_interest(rate, 1).unwrap().bits,
        FRACTION_ONE_BITS + 1_005_369_779
    );
    assert_eq!(
        approximate_compounded_interest(rate, 2).unwrap().bits,
        1_152_921_506_617_586_534
    );
    assert_eq!(
        approximate_compounded_interest(rate, 1000).unwrap().bits,
        1_152_922_509_976_625_976
    );
}

#[test]
fn collateral_rate_short_buffer_is_one() {
    let r = calculate_collateral_exchange_rate(&[0u8; 50], None).unwrap();
    assert_eq!(r.bits, FRACTION_ONE_BITS);
}

#[test]
fn collateral_rate_undersized_record_is_invalid() {
    let r = calculate_collateral_exchange_rate(&[0u8; 200], None);
    assert_eq!(r.unwrap_err(), AggregatorError::InvalidAccountData);
}

#[test]
fn collateral_rate_stale() {
    let data = reserve_bytes(12345, 1_000_000, 0, 900_000, 0, 0);
    let r = calculate_collateral_exchange_rate(&data, None).unwrap();
    assert_eq!(r.bits, 900_000_000_000_000_000);
}

#[test]
fn collateral_rate_projected_with_compounding() {
    // 1000.0 borrowed, 10% take rate, 1% fixed host rate, 1000 slots.
    let data = reserve_bytes(100, 1_000_000, 1000 << 60, 900_000, 10, 100);
    let r = calculate_collateral_exchange_rate(&data, Some(1100)).unwrap();
    assert_eq!(r.bits, 899_100_898_460_057_786);
}

#[test]
fn collateral_rate_projection_at_same_slot_matches_stale() {
    let data = reserve_bytes(12345, 1_000_000, 0, 900_000, 0, 0);
    let stale = calculate_collateral_exchange_rate(&data, None).unwrap();
    let projected = calculate_collateral_exchange_rate(&data, Some(12345)).unwrap();
    assert_eq!(stale.bits, projected.bits);
}

#[test]
fn kamino_balance_zero_shares_issued_is_zero() {
    // Whatever else the vault holds, zero shares outstanding means zero.
    let mut vault = vault_bytes(5_000_000, 0, 77 << 60);
    set_allocation(&mut vault, 0, &[9u8; 32], 123_456);
    let r = get_kamino_balance(&vault, 999_999, &Vec::new(), None).unwrap();
    assert_eq!(r, 0);
}

#[test]
fn kamino_balance_rejects_bad_tag() {
    let mut vault = vault_bytes(0, 0, 0);
    vault[0] = 0;
    let r = get_kamino_balance(&vault, 0, &Vec::new(), None);
    assert_eq!(r.unwrap_err(), AggregatorError::InvalidAccountData);
}

#[test]
fn kamino_balance_with_supplied_reserve() {
    let key = [5u8; 32];
    let mut vault = vault_bytes(500, 1000, 0);
    set_allocation(&mut vault, 0, &key, 1000);
    let reserves = vec![ReserveAccount {
        key: key.to_vec(),
        data: reserve_bytes(12345, 1_000_000, 0, 900_000, 0, 0),
    }];
    let r = get_kamino_balance(&vault, 250, &reserves, Some(12345)).unwrap();
    assert_eq!(r, 402);
}

#[test]
fn kamino_balance_missing_reserve_uses_unit_rate() {
    // The same vault valued without its reserve account supplied: the
    // slot is priced at exchange rate 1.0 exactly, still a balance and
    // not an error.
    let key = [5u8; 32];
    let mut vault = vault_bytes(500, 1000, 0);
    set_allocation(&mut vault, 0, &key, 1000);
    let r = get_kamino_balance(&vault, 250, &Vec::new(), Some(12345)).unwrap();
    assert_eq!(r, 341);
}

#[test]
fn kamino_shares_amount_inverse() {
    let key = [5u8; 32];
    let mut vault = vault_bytes(500, 1000, 0);
    set_allocation(&mut vault, 0, &key, 1000);
    let reserves = vec![ReserveAccount {
        key: key.to_vec(),
        data: reserve_bytes(12345, 1_000_000, 0, 900_000, 0, 0),
    }];
    let s = get_kamino_shares_amount_from_usdc(100, &vault, 250, &reserves, Some(12345)).unwrap();
    assert_eq!(s, 62);
}

#[test]
fn kamino_shares_amount_zero_balance_is_zero() {
    let vault = vault_bytes(0, 1000, 0);
    let s = get_kamino_shares_amount_from_usdc(100, &vault, 0, &Vec::new(), None).unwrap();
    assert_eq!(s, 0);
}

#[test]
fn farm_active_balance_absent_account() {
    assert_eq!(get_kamino_farm_active_balance(42, &[]).unwrap(), 42);
}

#[test]
fn farm_active_balance_mistagged_counts_zero_stake() {
    let buf = vec![1u8; 520];
    assert_eq!(get_kamino_farm_active_balance(42, &buf).unwrap(), 42);
}

#[test]
fn farm_active_balance_reads_wad_scaled_stake() {
    let mut buf = vec![0u8; 520];
    buf[0..8].copy_from_slice(&USER_TAG);
    set_u128(&mut buf, 408, 5_000_000_000_000_000_000);
    assert_eq!(get_kamino_farm_active_balance(42, &buf).unwrap(), 47);
}

#[test]
fn farm_active_balance_tagged_but_short_is_invalid() {
    let mut buf = vec![0u8; 100];
    buf[0..8].copy_from_slice(&USER_TAG);
    let r = get_kamino_farm_active_balance(42, &buf);
    assert_eq!(r.unwrap_err(), AggregatorError::InvalidAccountData);
}

#[test]
fn withdraw_shares_for_usdc_counts_farm_stake() {
    let key = [5u8; 32];
    let mut vault = vault_bytes(500, 1000, 0);
    set_allocation(&mut vault, 0, &key, 1000);
    let reserves = vec![ReserveAccount {
        key: key.to_vec(),
        data: reserve_bytes(12345, 1_000_000, 0, 900_000, 0, 0),
    }];
    let mut user_state = vec![0u8; 520];
    user_state[0..8].copy_from_slice(&USER_TAG);
    set_u128(&mut user_state, 408, 250_000_000_000_000_000_000);
    // 0 unstaked + 250 staked behaves as 250 shares.
    let s = kamino_withdraw_shares_for_usdc(100, &vault, 0, &user_state, &reserves, 12345)
        .unwrap();
    assert_eq!(s, 62);
}

#[test]
fn kamino_balance_fees_exceeding_aum_overflow() {
    // Pending fees of 1.0 against an empty vault: the subtraction fails.
    let vault = vault_bytes(0, 10, 1u128 << 60);
    let r = get_kamino_balance(&vault, 5, &Vec::new(), None);
    assert_eq!(r.unwrap_err(), AggregatorError::MathOverflow);
}

#[test]
fn kamino_balance_short_allocation_array_is_invalid() {
    // Long enough for the fixed fields and the first slot, but not for
    // the full 25-slot allocation array.
    let mut vault = vec![0u8; 1500];
    vault[0..8].copy_from_slice(&VAULT_TAG);
    set_u64(&mut vault, 8 + 224, 1000);
    let r = get_kamino_balance(&vault, 5, &Vec::new(), None);
    assert_eq!(r.unwrap_err(), AggregatorError::InvalidAccountData);
}

#[test]
fn kamino_balance_empty_vault_is_zero() {
    // Shares outstanding but nothing held anywhere values to zero.
    let vault = vault_bytes(0, 1000, 0);
    let r = get_kamino_balance(&vault, 250, &Vec::new(), None).unwrap();
    assert_eq!(r, 0);
}
