//! Byte-offset readers for Kamino's vault-state and lending-reserve
//! records, read raw instead of through zero-copy deserialization of the
//! venue's very large account types.
//!
//! All offsets count from the end of the leading 8-byte type tag; the
//! readers add the tag length themselves.

use vstd::prelude::*;
use crate::bytes::{
    le_u16,
    le_u64,
    le_u128,
    read_u8_from_bytes,
    read_u16_from_bytes,
    read_u64_from_bytes,
    read_u128_from_bytes,
    read_pubkey_from_bytes,
};
use crate::errors::AggregatorError;

verus! {

// Vault-state offsets: 216 bytes of admin/mint/vault identifiers come
// first, then the three fields the valuation reads, then 56 bytes of fee
// bookkeeping before pending_fees_sf.
pub const VAULT_TOKEN_AVAILABLE: usize = 216;
pub const VAULT_SHARES_ISSUED: usize = 224;
pub const VAULT_PENDING_FEES_SF: usize = 288;
pub const VAULT_ALLOCATION_STRATEGY: usize = 304;
pub const VAULT_ALLOCATION_SIZE: usize = 2160;

/// Allocation slots per vault.
pub const MAX_RESERVES: usize = 25;

// Offsets within one allocation slot: reserve key, c-token vault key,
// weight, cap, bump, then 1016 reserved bytes before ctoken_allocation.
pub const ALLOCATION_RESERVE: usize = 0;
pub const ALLOCATION_CTOKEN_VAULT: usize = 32;
pub const ALLOCATION_TARGET_WEIGHT: usize = 64;
pub const ALLOCATION_TOKEN_CAP: usize = 72;
pub const ALLOCATION_CTOKEN_VAULT_BUMP: usize = 80;
pub const ALLOCATION_CTOKEN_ALLOCATION: usize = 1104;

// Lending-reserve offsets: the liquidity section starts at 120; the
// collateral section follows it after 1232 section bytes plus 1200 bytes
// of padding, and the config section after 1096 + 1200 more.
pub const RESERVE_LAST_UPDATE_SLOT: usize = 8;
pub const RESERVE_LIQUIDITY_START: usize = 120;
pub const RESERVE_AVAILABLE_AMOUNT: usize = 216;
pub const RESERVE_BORROWED_AMOUNT_SF: usize = 224;
pub const RESERVE_ACCUMULATED_PROTOCOL_FEES_SF: usize = 336;
pub const RESERVE_ACCUMULATED_REFERRER_FEES_SF: usize = 352;
pub const RESERVE_PENDING_REFERRER_FEES_SF: usize = 368;
pub const RESERVE_COLLATERAL_START: usize = 2552;
pub const RESERVE_MINT_TOTAL_SUPPLY: usize = 2584;
pub const RESERVE_CONFIG_START: usize = 4848;
pub const RESERVE_HOST_FIXED_INTEREST_RATE_BPS: usize = 4850;
pub const RESERVE_PROTOCOL_ORDER_EXECUTION_FEE_PCT: usize = 4861;
pub const RESERVE_PROTOCOL_TAKE_RATE_PCT: usize = 4862;
pub const RESERVE_PROTOCOL_LIQUIDATION_FEE_PCT: usize = 4863;

/// Bytes a vault-state record must hold for its fixed fields.
pub const VAULT_STATE_MIN_LEN: usize = 312;

/// Bytes a lending-reserve record must hold for every field read here.
pub const RESERVE_MIN_LEN: usize = 4872;

/// The vault-state record's expected 8-byte type tag.
pub open spec fn vault_state_discriminator_spec() -> Seq<u8> {
    seq![228u8, 196u8, 82u8, 165u8, 98u8, 210u8, 235u8, 152u8]
}

/// The vault-state record's expected 8-byte type tag, as bytes.
pub fn vault_state_discriminator() -> (r: Vec<u8>)
    ensures
        r@ == vault_state_discriminator_spec(),
{
    let mut r: Vec<u8> = Vec::new();
    r.push(228);
    r.push(196);
    r.push(82);
    r.push(165);
    r.push(98);
    r.push(210);
    r.push(235);
    r.push(152);
    proof {
        assert(r@ =~= vault_state_discriminator_spec());
    }
    r
}

/// The vault-state fields the valuation consumes.
pub struct VaultStateFields {
    pub token_available: u64,
    pub shares_issued: u64,
    pub pending_fees_sf: u128,
}

/// Reads the vault-state fields at their fixed offsets. Fails exactly when
/// the buffer is too short for them.
pub fn read_vault_state_fields(data: &[u8]) -> (r: Result<VaultStateFields, AggregatorError>)
    ensures
        data@.len() >= VAULT_STATE_MIN_LEN ==> (r matches Ok(f) && f.token_available == le_u64(
            data@,
            8 + VAULT_TOKEN_AVAILABLE,
        ) && f.shares_issued == le_u64(data@, 8 + VAULT_SHARES_ISSUED) && f.pending_fees_sf
            == le_u128(data@, 8 + VAULT_PENDING_FEES_SF)),
        data@.len() < VAULT_STATE_MIN_LEN ==> (r matches Err(e) && e
            == AggregatorError::InvalidAccountData),
{
    if data.len() < VAULT_STATE_MIN_LEN {
        return Err(AggregatorError::InvalidAccountData);
    }
    Ok(
        VaultStateFields {
            token_available: read_u64_from_bytes(data, 8 + VAULT_TOKEN_AVAILABLE),
            shares_issued: read_u64_from_bytes(data, 8 + VAULT_SHARES_ISSUED),
            pending_fees_sf: read_u128_from_bytes(data, 8 + VAULT_PENDING_FEES_SF),
        },
    )
}

/// One allocation slot's fields: which reserve it points at and how many
/// of the venue's receipt tokens are invested there.
pub struct VaultAllocationFields {
    pub reserve: Vec<u8>,
    pub ctoken_allocation: u64,
}

/// Byte offset of slot `index`'s first byte, after the type tag.
pub open spec fn allocation_base(index: int) -> int {
    VAULT_ALLOCATION_STRATEGY + index * VAULT_ALLOCATION_SIZE
}

/// Bytes the record must hold for slot `index` to be readable.
pub open spec fn allocation_needed_len(index: int) -> int {
    8 + allocation_base(index) + ALLOCATION_CTOKEN_ALLOCATION + 8
}

/// Reads allocation slot `allocation_index`. Fails exactly when the buffer
/// is too short for that slot.
pub fn read_vault_allocation(data: &[u8], allocation_index: usize) -> (r: Result<
    VaultAllocationFields,
    AggregatorError,
>)
    requires
        allocation_index < MAX_RESERVES,
    ensures
        data@.len() >= allocation_needed_len(allocation_index as int) ==> (r matches Ok(f)
            && f.reserve@ == data@.subrange(
            8 + allocation_base(allocation_index as int),
            8 + allocation_base(allocation_index as int) + 32,
        ) && f.ctoken_allocation == le_u64(
            data@,
            8 + allocation_base(allocation_index as int) + ALLOCATION_CTOKEN_ALLOCATION,
        )),
        data@.len() < allocation_needed_len(allocation_index as int) ==> (r matches Err(e) && e
            == AggregatorError::InvalidAccountData),
{
    let base: usize = VAULT_ALLOCATION_STRATEGY + allocation_index * VAULT_ALLOCATION_SIZE;
    if data.len() < 8 + base + ALLOCATION_CTOKEN_ALLOCATION + 8 {
        return Err(AggregatorError::InvalidAccountData);
    }
    Ok(
        VaultAllocationFields {
            reserve: read_pubkey_from_bytes(data, 8 + base + ALLOCATION_RESERVE),
            ctoken_allocation: read_u64_from_bytes(
                data,
                8 + base + ALLOCATION_CTOKEN_ALLOCATION,
            ),
        },
    )
}

/// The lending-reserve fields the exchange-rate math consumes.
pub struct ReserveFields {
    pub last_update_slot: u64,
    pub available_amount: u64,
    pub borrowed_amount_sf: u128,
    pub accumulated_protocol_fees_sf: u128,
    pub accumulated_referrer_fees_sf: u128,
    pub pending_referrer_fees_sf: u128,
    pub mint_total_supply: u64,
    pub protocol_take_rate_pct: u8,
    pub host_fixed_interest_rate_bps: u16,
}

/// Reads the lending-reserve fields at their fixed offsets. Fails exactly
/// when the buffer is too short for any of them.
pub fn read_reserve_fields(data: &[u8]) -> (r: Result<ReserveFields, AggregatorError>)
    ensures
        data@.len() >= RESERVE_MIN_LEN ==> (r matches Ok(f) && f.last_update_slot == le_u64(
            data@,
            8 + RESERVE_LAST_UPDATE_SLOT,
        ) && f.available_amount == le_u64(data@, 8 + RESERVE_AVAILABLE_AMOUNT)
            && f.borrowed_amount_sf == le_u128(data@, 8 + RESERVE_BORROWED_AMOUNT_SF)
            && f.accumulated_protocol_fees_sf == le_u128(
            data@,
            8 + RESERVE_ACCUMULATED_PROTOCOL_FEES_SF,
        ) && f.accumulated_referrer_fees_sf == le_u128(
            data@,
            8 + RESERVE_ACCUMULATED_REFERRER_FEES_SF,
        ) && f.pending_referrer_fees_sf == le_u128(data@, 8 + RESERVE_PENDING_REFERRER_FEES_SF)
            && f.mint_total_supply == le_u64(data@, 8 + RESERVE_MINT_TOTAL_SUPPLY)
            && f.protocol_take_rate_pct == data@[8 + RESERVE_PROTOCOL_TAKE_RATE_PCT]
            && f.host_fixed_interest_rate_bps == le_u16(
            data@,
            8 + RESERVE_HOST_FIXED_INTEREST_RATE_BPS,
        )),
        data@.len() < RESERVE_MIN_LEN ==> (r matches Err(e) && e
            == AggregatorError::InvalidAccountData),
{
    if data.len() < RESERVE_MIN_LEN {
        return Err(AggregatorError::InvalidAccountData);
    }
    Ok(
        ReserveFields {
            last_update_slot: read_u64_from_bytes(data, 8 + RESERVE_LAST_UPDATE_SLOT),
            available_amount: read_u64_from_bytes(data, 8 + RESERVE_AVAILABLE_AMOUNT),
            borrowed_amount_sf: read_u128_from_bytes(data, 8 + RESERVE_BORROWED_AMOUNT_SF),
            accumulated_protocol_fees_sf: read_u128_from_bytes(
                data,
                8 + RESERVE_ACCUMULATED_PROTOCOL_FEES_SF,
            ),
            accumulated_referrer_fees_sf: read_u128_from_bytes(
                data,
                8 + RESERVE_ACCUMULATED_REFERRER_FEES_SF,
            ),
            pending_referrer_fees_sf: read_u128_from_bytes(
                data,
                8 + RESERVE_PENDING_REFERRER_FEES_SF,
            ),
            mint_total_supply: read_u64_from_bytes(data, 8 + RESERVE_MINT_TOTAL_SUPPLY),
            protocol_take_rate_pct: read_u8_from_bytes(data, 8 + RESERVE_PROTOCOL_TAKE_RATE_PCT),
            host_fixed_interest_rate_bps: read_u16_from_bytes(
                data,
                8 + RESERVE_HOST_FIXED_INTEREST_RATE_BPS,
            ),
        },
    )
}

} // verus!
