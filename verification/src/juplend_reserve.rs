//! Byte-offset accessors for JupLend's packed 184-byte token-reserve
//! record, read raw instead of through the venue's own deserialization.

use vstd::prelude::*;
use crate::bytes::{le_u16, le_u64, read_u16_from_bytes, read_u64_from_bytes, read_pubkey_from_bytes};

verus! {

/// Total length of the packed token-reserve record.
pub const TOKEN_RESERVE_LEN: usize = 184;

pub const MINT_OFFSET: usize = 0;
pub const VAULT_OFFSET: usize = 32;
pub const BORROW_RATE_OFFSET: usize = 64;
pub const FEE_ON_INTEREST_OFFSET: usize = 66;
pub const LAST_UTILIZATION_OFFSET: usize = 68;
pub const LAST_UPDATE_TIMESTAMP_OFFSET: usize = 70;
pub const SUPPLY_EXCHANGE_PRICE_OFFSET: usize = 78;
pub const BORROW_EXCHANGE_PRICE_OFFSET: usize = 86;
pub const MAX_UTILIZATION_OFFSET: usize = 94;
pub const TOTAL_SUPPLY_WITH_INTEREST_OFFSET: usize = 96;
pub const TOTAL_SUPPLY_INTEREST_FREE_OFFSET: usize = 104;
pub const TOTAL_BORROW_WITH_INTEREST_OFFSET: usize = 112;
pub const TOTAL_BORROW_INTEREST_FREE_OFFSET: usize = 120;
pub const TOTAL_CLAIM_AMOUNT_OFFSET: usize = 128;
pub const INTERACTING_PROTOCOL_OFFSET: usize = 136;
pub const INTERACTING_TIMESTAMP_OFFSET: usize = 168;
pub const INTERACTING_BALANCE_OFFSET: usize = 176;

/// The underlying asset mint.
pub fn get_mint(buf: &[u8]) -> (r: Vec<u8>)
    requires
        buf@.len() >= TOKEN_RESERVE_LEN,
    ensures
        r@ == buf@.subrange(MINT_OFFSET as int, MINT_OFFSET + 32),
{
    read_pubkey_from_bytes(buf, MINT_OFFSET)
}

/// The reserve's vault account.
pub fn get_vault(buf: &[u8]) -> (r: Vec<u8>)
    requires
        buf@.len() >= TOKEN_RESERVE_LEN,
    ensures
        r@ == buf@.subrange(VAULT_OFFSET as int, VAULT_OFFSET + 32),
{
    read_pubkey_from_bytes(buf, VAULT_OFFSET)
}

pub fn get_borrow_rate(buf: &[u8]) -> (r: u16)
    requires
        buf@.len() >= TOKEN_RESERVE_LEN,
    ensures
        r == le_u16(buf@, BORROW_RATE_OFFSET as int),
{
    read_u16_from_bytes(buf, BORROW_RATE_OFFSET)
}

pub fn get_fee_on_interest(buf: &[u8]) -> (r: u16)
    requires
        buf@.len() >= TOKEN_RESERVE_LEN,
    ensures
        r == le_u16(buf@, FEE_ON_INTEREST_OFFSET as int),
{
    read_u16_from_bytes(buf, FEE_ON_INTEREST_OFFSET)
}

pub fn get_last_utilization(buf: &[u8]) -> (r: u16)
    requires
        buf@.len() >= TOKEN_RESERVE_LEN,
    ensures
        r == le_u16(buf@, LAST_UTILIZATION_OFFSET as int),
{
    read_u16_from_bytes(buf, LAST_UTILIZATION_OFFSET)
}

pub fn get_last_update_timestamp(buf: &[u8]) -> (r: u64)
    requires
        buf@.len() >= TOKEN_RESERVE_LEN,
    ensures
        r == le_u64(buf@, LAST_UPDATE_TIMESTAMP_OFFSET as int),
{
    read_u64_from_bytes(buf, LAST_UPDATE_TIMESTAMP_OFFSET)
}

/// The quantity the valuation math actually consumes.
pub fn get_supply_exchange_price(buf: &[u8]) -> (r: u64)
    requires
        buf@.len() >= TOKEN_RESERVE_LEN,
    ensures
        r == le_u64(buf@, SUPPLY_EXCHANGE_PRICE_OFFSET as int),
{
    read_u64_from_bytes(buf, SUPPLY_EXCHANGE_PRICE_OFFSET)
}

pub fn get_borrow_exchange_price(buf: &[u8]) -> (r: u64)
    requires
        buf@.len() >= TOKEN_RESERVE_LEN,
    ensures
        r == le_u64(buf@, BORROW_EXCHANGE_PRICE_OFFSET as int),
{
    read_u64_from_bytes(buf, BORROW_EXCHANGE_PRICE_OFFSET)
}

pub fn get_max_utilization(buf: &[u8]) -> (r: u16)
    requires
        buf@.len() >= TOKEN_RESERVE_LEN,
    ensures
        r == le_u16(buf@, MAX_UTILIZATION_OFFSET as int),
{
    read_u16_from_bytes(buf, MAX_UTILIZATION_OFFSET)
}

pub fn get_total_supply_with_interest(buf: &[u8]) -> (r: u64)
    requires
        buf@.len() >= TOKEN_RESERVE_LEN,
    ensures
        r == le_u64(buf@, TOTAL_SUPPLY_WITH_INTEREST_OFFSET as int),
{
    read_u64_from_bytes(buf, TOTAL_SUPPLY_WITH_INTEREST_OFFSET)
}

pub fn get_total_supply_interest_free(buf: &[u8]) -> (r: u64)
    requires
        buf@.len() >= TOKEN_RESERVE_LEN,
    ensures
        r == le_u64(buf@, TOTAL_SUPPLY_INTEREST_FREE_OFFSET as int),
{
    read_u64_from_bytes(buf, TOTAL_SUPPLY_INTEREST_FREE_OFFSET)
}

pub fn get_total_borrow_with_interest(buf: &[u8]) -> (r: u64)
    requires
        buf@.len() >= TOKEN_RESERVE_LEN,
    ensures
        r == le_u64(buf@, TOTAL_BORROW_WITH_INTEREST_OFFSET as int),
{
    read_u64_from_bytes(buf, TOTAL_BORROW_WITH_INTEREST_OFFSET)
}

pub fn get_total_borrow_interest_free(buf: &[u8]) -> (r: u64)
    requires
        buf@.len() >= TOKEN_RESERVE_LEN,
    ensures
        r == le_u64(buf@, TOTAL_BORROW_INTEREST_FREE_OFFSET as int),
{
    read_u64_from_bytes(buf, TOTAL_BORROW_INTEREST_FREE_OFFSET)
}

pub fn get_total_claim_amount(buf: &[u8]) -> (r: u64)
    requires
        buf@.len() >= TOKEN_RESERVE_LEN,
    ensures
        r == le_u64(buf@, TOTAL_CLAIM_AMOUNT_OFFSET as int),
{
    read_u64_from_bytes(buf, TOTAL_CLAIM_AMOUNT_OFFSET)
}

pub fn get_interacting_protocol(buf: &[u8]) -> (r: Vec<u8>)
    requires
        buf@.len() >= TOKEN_RESERVE_LEN,
    ensures
        r@ == buf@.subrange(INTERACTING_PROTOCOL_OFFSET as int, INTERACTING_PROTOCOL_OFFSET + 32),
{
    read_pubkey_from_bytes(buf, INTERACTING_PROTOCOL_OFFSET)
}

pub fn get_interacting_timestamp(buf: &[u8]) -> (r: u64)
    requires
        buf@.len() >= TOKEN_RESERVE_LEN,
    ensures
        r == le_u64(buf@, INTERACTING_TIMESTAMP_OFFSET as int),
{
    read_u64_from_bytes(buf, INTERACTING_TIMESTAMP_OFFSET)
}

pub fn get_interacting_balance(buf: &[u8]) -> (r: u64)
    requires
        buf@.len() >= TOKEN_RESERVE_LEN,
    ensures
        r == le_u64(buf@, INTERACTING_BALANCE_OFFSET as int),
{
    read_u64_from_bytes(buf, INTERACTING_BALANCE_OFFSET)
}

} // verus!
