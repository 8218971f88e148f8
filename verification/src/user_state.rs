//! Byte-offset accessors for Kamino's farm user-state record.
//!
//! Layout (with the leading 8-byte type tag): discriminator, user_id (u64),
//! farm_state (32), owner (32), is_farm_delegated (u8), 7 padding bytes,
//! rewards_tally_scaled ([u128; 10]), rewards_issued_unclaimed ([u64; 10]),
//! last_claim_ts ([u64; 10]), active_stake_scaled (u128),
//! pending_deposit_stake_scaled (u128), pending_deposit_stake_ts (u64),
//! pending_withdrawal_unstake_scaled (u128), pending_withdrawal_unstake_ts
//! (u64), bump (u64), delegatee (32), last_stake_ts (u64), then
//! bookkeeping this system never consumes.

use vstd::prelude::*;
use crate::bytes::{
    le_u64,
    le_u128,
    read_u8_from_bytes,
    read_u64_from_bytes,
    read_u128_from_bytes,
    read_pubkey_from_bytes,
};

verus! {

pub const DISCRIMINATOR_OFFSET: usize = 0;
pub const USER_ID_OFFSET: usize = 8;
pub const FARM_STATE_OFFSET: usize = 16;
pub const OWNER_OFFSET: usize = 48;
pub const IS_FARM_DELEGATED_OFFSET: usize = 80;
pub const REWARDS_TALLY_SCALED_OFFSET: usize = 88;
pub const REWARDS_ISSUED_UNCLAIMED_OFFSET: usize = 248;
pub const LAST_CLAIM_TS_OFFSET: usize = 328;
pub const ACTIVE_STAKE_SCALED_OFFSET: usize = 408;
pub const PENDING_DEPOSIT_STAKE_SCALED_OFFSET: usize = 424;
pub const PENDING_DEPOSIT_STAKE_TS_OFFSET: usize = 440;
pub const PENDING_WITHDRAWAL_UNSTAKE_SCALED_OFFSET: usize = 448;
pub const PENDING_WITHDRAWAL_UNSTAKE_TS_OFFSET: usize = 464;
pub const BUMP_OFFSET: usize = 472;
pub const DELEGATEE_OFFSET: usize = 480;
pub const LAST_STAKE_TS_OFFSET: usize = 512;

/// Minimum byte length of a valid user-state record.
pub const USER_STATE_MIN_LEN: usize = 520;

/// The record's expected 8-byte type tag.
pub open spec fn user_state_discriminator_spec() -> Seq<u8> {
    seq![72u8, 177u8, 85u8, 249u8, 76u8, 167u8, 186u8, 126u8]
}

/// The record's expected 8-byte type tag, as bytes.
pub fn user_state_discriminator() -> (r: Vec<u8>)
    ensures
        r@ == user_state_discriminator_spec(),
{
    let mut r: Vec<u8> = Vec::new();
    r.push(72);
    r.push(177);
    r.push(85);
    r.push(249);
    r.push(76);
    r.push(167);
    r.push(186);
    r.push(126);
    proof {
        assert(r@ =~= user_state_discriminator_spec());
    }
    r
}

/// The record's leading 8-byte type tag.
pub fn get_discriminator(buf: &[u8]) -> (r: Vec<u8>)
    requires
        buf@.len() >= 8,
    ensures
        r@ == buf@.subrange(0, 8),
{
    let mut r: Vec<u8> = Vec::new();
    let mut i: usize = 0;
    let n = buf.len();
    while i < 8
        invariant
            i <= 8,
            n == buf@.len(),
            n >= 8,
            r@.len() == i,
            forall|k: int| 0 <= k < i ==> r@[k] == buf@[k],
        decreases 8 - i,
    {
        r.push(buf[i]);
        i = i + 1;
    }
    proof {
        assert(r@ =~= buf@.subrange(0, 8));
    }
    r
}

pub fn get_user_id(buf: &[u8]) -> (r: u64)
    requires
        buf@.len() >= USER_STATE_MIN_LEN,
    ensures
        r == le_u64(buf@, USER_ID_OFFSET as int),
{
    read_u64_from_bytes(buf, USER_ID_OFFSET)
}

pub fn get_farm_state(buf: &[u8]) -> (r: Vec<u8>)
    requires
        buf@.len() >= USER_STATE_MIN_LEN,
    ensures
        r@ == buf@.subrange(FARM_STATE_OFFSET as int, FARM_STATE_OFFSET + 32),
{
    read_pubkey_from_bytes(buf, FARM_STATE_OFFSET)
}

pub fn get_owner(buf: &[u8]) -> (r: Vec<u8>)
    requires
        buf@.len() >= USER_STATE_MIN_LEN,
    ensures
        r@ == buf@.subrange(OWNER_OFFSET as int, OWNER_OFFSET + 32),
{
    read_pubkey_from_bytes(buf, OWNER_OFFSET)
}

pub fn get_is_farm_delegated(buf: &[u8]) -> (r: u8)
    requires
        buf@.len() >= USER_STATE_MIN_LEN,
    ensures
        r == buf@[IS_FARM_DELEGATED_OFFSET as int],
{
    read_u8_from_bytes(buf, IS_FARM_DELEGATED_OFFSET)
}

/// The user's active stake, scaled by WAD (10^18) — the only field the
/// vault's own valuation consumes.
pub fn get_active_stake_scaled(buf: &[u8]) -> (r: u128)
    requires
        buf@.len() >= USER_STATE_MIN_LEN,
    ensures
        r == le_u128(buf@, ACTIVE_STAKE_SCALED_OFFSET as int),
{
    read_u128_from_bytes(buf, ACTIVE_STAKE_SCALED_OFFSET)
}

pub fn get_pending_deposit_stake_scaled(buf: &[u8]) -> (r: u128)
    requires
        buf@.len() >= USER_STATE_MIN_LEN,
    ensures
        r == le_u128(buf@, PENDING_DEPOSIT_STAKE_SCALED_OFFSET as int),
{
    read_u128_from_bytes(buf, PENDING_DEPOSIT_STAKE_SCALED_OFFSET)
}

pub fn get_pending_deposit_stake_ts(buf: &[u8]) -> (r: u64)
    requires
        buf@.len() >= USER_STATE_MIN_LEN,
    ensures
        r == le_u64(buf@, PENDING_DEPOSIT_STAKE_TS_OFFSET as int),
{
    read_u64_from_bytes(buf, PENDING_DEPOSIT_STAKE_TS_OFFSET)
}

pub fn get_pending_withdrawal_unstake_scaled(buf: &[u8]) -> (r: u128)
    requires
        buf@.len() >= USER_STATE_MIN_LEN,
    ensures
        r == le_u128(buf@, PENDING_WITHDRAWAL_UNSTAKE_SCALED_OFFSET as int),
{
    read_u128_from_bytes(buf, PENDING_WITHDRAWAL_UNSTAKE_SCALED_OFFSET)
}

pub fn get_pending_withdrawal_unstake_ts(buf: &[u8]) -> (r: u64)
    requires
        buf@.len() >= USER_STATE_MIN_LEN,
    ensures
        r == le_u64(buf@, PENDING_WITHDRAWAL_UNSTAKE_TS_OFFSET as int),
{
    read_u64_from_bytes(buf, PENDING_WITHDRAWAL_UNSTAKE_TS_OFFSET)
}

pub fn get_bump(buf: &[u8]) -> (r: u64)
    requires
        buf@.len() >= USER_STATE_MIN_LEN,
    ensures
        r == le_u64(buf@, BUMP_OFFSET as int),
{
    read_u64_from_bytes(buf, BUMP_OFFSET)
}

pub fn get_delegatee(buf: &[u8]) -> (r: Vec<u8>)
    requires
        buf@.len() >= USER_STATE_MIN_LEN,
    ensures
        r@ == buf@.subrange(DELEGATEE_OFFSET as int, DELEGATEE_OFFSET + 32),
{
    read_pubkey_from_bytes(buf, DELEGATEE_OFFSET)
}

pub fn get_last_stake_ts(buf: &[u8]) -> (r: u64)
    requires
        buf@.len() >= USER_STATE_MIN_LEN,
    ensures
        r == le_u64(buf@, LAST_STAKE_TS_OFFSET as int),
{
    read_u64_from_bytes(buf, LAST_STAKE_TS_OFFSET)
}

} // verus!
