//! Kamino farm active balance: the vault's venue shares counted across
//! both its token account and its staked farm position.

use vstd::prelude::*;
use crate::bytes::le_u128;
use crate::constants::WAD;
use crate::errors::AggregatorError;
use crate::user_state::{
    user_state_discriminator_spec,
    user_state_discriminator,
    get_active_stake_scaled,
    ACTIVE_STAKE_SCALED_OFFSET,
    USER_STATE_MIN_LEN,
};
use crate::bytes::{read_tag, keys_equal};

verus! {

/// Whether a user-state buffer carries the expected leading type tag. A
/// buffer shorter than the tag cannot match it.
pub open spec fn user_state_tag_ok(s: Seq<u8>) -> bool {
    s.len() >= 8 && s.subrange(0, 8) == user_state_discriminator_spec()
}

/// The staked share count a user-state buffer contributes: its WAD-scaled
/// active stake divided down to whole shares, truncated to 64 bits as the
/// executable cast does. An absent (empty) or mistagged buffer
/// contributes zero.
pub open spec fn staked_shares_spec(s: Seq<u8>) -> int {
    if !user_state_tag_ok(s) {
        0
    } else {
        (le_u128(s, ACTIVE_STAKE_SCALED_OFFSET as int) / (WAD as int)) % 0x1_0000_0000_0000_0000
    }
}

/// Total active balance: unstaked shares plus the staked share count read
/// from the farm user-state bytes (an empty buffer stands for an absent
/// account; a mistagged buffer counts as zero stake, not an error). A
/// tagged buffer too short for the record is invalid account data; a sum
/// beyond 64 bits is a math overflow.
pub fn get_kamino_farm_active_balance(unstaked_shares: u64, user_state_data: &[u8]) -> (r: Result<
    u64,
    AggregatorError,
>)
    ensures
        !user_state_tag_ok(user_state_data@) ==> (r matches Ok(v) && v == unstaked_shares),
        user_state_tag_ok(user_state_data@) && user_state_data@.len() < USER_STATE_MIN_LEN ==> (
        r matches Err(e) && e == AggregatorError::InvalidAccountData),
        user_state_tag_ok(user_state_data@) && user_state_data@.len() >= USER_STATE_MIN_LEN ==> {
            let total = unstaked_shares + staked_shares_spec(user_state_data@);
            &&& total <= u64::MAX ==> (r matches Ok(v) && v == total)
            &&& total > u64::MAX ==> (r matches Err(e) && e == AggregatorError::MathOverflow)
        },
{
    let staked_shares: u64;
    if user_state_data.len() < 8 {
        staked_shares = 0;
    } else {
        let tag = read_tag(user_state_data);
        let expected = user_state_discriminator();
        if !keys_equal(tag.as_slice(), expected.as_slice()) {
            staked_shares = 0;
        } else if user_state_data.len() < USER_STATE_MIN_LEN {
            return Err(AggregatorError::InvalidAccountData);
        } else {
            let active_stake_scaled = get_active_stake_scaled(user_state_data);
            staked_shares = ((active_stake_scaled / WAD) % 0x1_0000_0000_0000_0000) as u64;
        }
    }
    match unstaked_shares.checked_add(staked_shares) {
        Some(total) => Ok(total),
        None => Err(AggregatorError::MathOverflow),
    }
}

} // verus!
