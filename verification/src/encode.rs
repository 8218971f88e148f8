//! Instruction-data encoders for the external venues' programs: the exact
//! 8-byte discriminator each call is selected by, followed by its
//! little-endian argument bytes. The host attaches the account lists and
//! performs the invocations.

use vstd::prelude::*;
use vstd::arithmetic::mul::lemma_mul_upper_bound;
use crate::bytes::{le_u64, le_u128, u64_to_le_bytes, u128_to_le_bytes};
use crate::constants::WAD;

verus! {

/// Discriminator of the JupLend deposit instruction.
pub open spec fn juplend_deposit_discriminator_spec() -> Seq<u8> {
    seq![242u8, 35u8, 198u8, 137u8, 82u8, 225u8, 242u8, 182u8]
}

/// Discriminator of the JupLend withdraw instruction. (The same literal
/// bytes select Kamino's reserve withdraw, against a different program.)
pub open spec fn juplend_withdraw_discriminator_spec() -> Seq<u8> {
    seq![183u8, 18u8, 70u8, 156u8, 148u8, 109u8, 161u8, 34u8]
}

/// Discriminator of the Kamino vault deposit instruction.
pub open spec fn kamino_deposit_discriminator_spec() -> Seq<u8> {
    seq![242u8, 35u8, 198u8, 137u8, 82u8, 225u8, 242u8, 182u8]
}

/// Discriminator of the Kamino withdraw-from-reserve instruction.
pub open spec fn kamino_withdraw_discriminator_spec() -> Seq<u8> {
    seq![183u8, 18u8, 70u8, 156u8, 148u8, 109u8, 161u8, 34u8]
}

/// Discriminator of the Kamino withdraw-from-available-balance
/// instruction.
pub open spec fn kamino_withdraw_from_available_discriminator_spec() -> Seq<u8> {
    seq![19u8, 131u8, 112u8, 155u8, 170u8, 220u8, 34u8, 57u8]
}

/// Discriminator of the farm initialize-user instruction.
pub open spec fn farm_initialize_user_discriminator_spec() -> Seq<u8> {
    seq![111u8, 17u8, 185u8, 250u8, 60u8, 122u8, 38u8, 254u8]
}

/// Discriminator of the farm stake instruction.
pub open spec fn farm_stake_discriminator_spec() -> Seq<u8> {
    seq![206u8, 176u8, 202u8, 18u8, 200u8, 209u8, 179u8, 108u8]
}

/// Discriminator of the farm transfer-ownership instruction.
pub open spec fn farm_transfer_ownership_discriminator_spec() -> Seq<u8> {
    seq![65u8, 177u8, 215u8, 73u8, 53u8, 45u8, 99u8, 47u8]
}

/// Discriminator of the farm unstake instruction.
pub open spec fn farm_unstake_discriminator_spec() -> Seq<u8> {
    seq![90u8, 95u8, 107u8, 42u8, 205u8, 124u8, 50u8, 225u8]
}

/// Discriminator of the farm withdraw-unstaked-deposits instruction.
pub open spec fn farm_withdraw_unstaked_discriminator_spec() -> Seq<u8> {
    seq![36u8, 102u8, 187u8, 49u8, 220u8, 36u8, 132u8, 67u8]
}

fn tag_bytes(b0: u8, b1: u8, b2: u8, b3: u8, b4: u8, b5: u8, b6: u8, b7: u8) -> (r: Vec<u8>)
    ensures
        r@ == seq![b0, b1, b2, b3, b4, b5, b6, b7],
{
    let mut r: Vec<u8> = Vec::new();
    r.push(b0);
    r.push(b1);
    r.push(b2);
    r.push(b3);
    r.push(b4);
    r.push(b5);
    r.push(b6);
    r.push(b7);
    proof {
        assert(r@ =~= seq![b0, b1, b2, b3, b4, b5, b6, b7]);
    }
    r
}

fn tag_with_u64(tag: Vec<u8>, amount: u64) -> (r: Vec<u8>)
    requires
        tag@.len() == 8,
    ensures
        r@.len() == 16,
        r@.subrange(0, 8) == tag@,
        le_u64(r@, 8) == amount,
{
    let mut r = tag;
    let mut amt = u64_to_le_bytes(amount);
    let ghost amt_view = amt@;
    r.append(&mut amt);
    proof {
        assert(r@.subrange(0, 8) =~= r@.subrange(0, 8));
        assert(forall|k: int| 0 <= k < 8 ==> r@[8 + k] == amt_view[k]);
        assert(le_u64(r@, 8) == le_u64(amt_view, 0));
    }
    r
}

/// Instruction data for a JupLend deposit of `amount`.
pub fn juplend_deposit_instruction_data(amount: u64) -> (r: Vec<u8>)
    ensures
        r@.len() == 16,
        r@.subrange(0, 8) == juplend_deposit_discriminator_spec(),
        le_u64(r@, 8) == amount,
{
    tag_with_u64(tag_bytes(242, 35, 198, 137, 82, 225, 242, 182), amount)
}

/// Instruction data for a JupLend withdrawal of `usdc_amount`.
pub fn juplend_withdraw_instruction_data(usdc_amount: u64) -> (r: Vec<u8>)
    ensures
        r@.len() == 16,
        r@.subrange(0, 8) == juplend_withdraw_discriminator_spec(),
        le_u64(r@, 8) == usdc_amount,
{
    tag_with_u64(tag_bytes(183, 18, 70, 156, 148, 109, 161, 34), usdc_amount)
}

/// Instruction data for a Kamino vault deposit of `amount`.
pub fn kamino_deposit_instruction_data(amount: u64) -> (r: Vec<u8>)
    ensures
        r@.len() == 16,
        r@.subrange(0, 8) == kamino_deposit_discriminator_spec(),
        le_u64(r@, 8) == amount,
{
    tag_with_u64(tag_bytes(242, 35, 198, 137, 82, 225, 242, 182), amount)
}

/// Instruction data for a Kamino withdraw-from-reserve of
/// `shares_amount`.
pub fn kamino_withdraw_instruction_data(shares_amount: u64) -> (r: Vec<u8>)
    ensures
        r@.len() == 16,
        r@.subrange(0, 8) == kamino_withdraw_discriminator_spec(),
        le_u64(r@, 8) == shares_amount,
{
    tag_with_u64(tag_bytes(183, 18, 70, 156, 148, 109, 161, 34), shares_amount)
}

/// Instruction data for a Kamino withdraw-from-available-balance of
/// `shares_amount`.
pub fn kamino_withdraw_from_available_instruction_data(shares_amount: u64) -> (r: Vec<u8>)
    ensures
        r@.len() == 16,
        r@.subrange(0, 8) == kamino_withdraw_from_available_discriminator_spec(),
        le_u64(r@, 8) == shares_amount,
{
    tag_with_u64(tag_bytes(19, 131, 112, 155, 170, 220, 34, 57), shares_amount)
}

/// Instruction data for initializing a farm user state.
pub fn farm_initialize_user_instruction_data() -> (r: Vec<u8>)
    ensures
        r@ == farm_initialize_user_discriminator_spec(),
{
    tag_bytes(111, 17, 185, 250, 60, 122, 38, 254)
}

/// Instruction data for staking `shares_amount` in the farm.
pub fn farm_stake_instruction_data(shares_amount: u64) -> (r: Vec<u8>)
    ensures
        r@.len() == 16,
        r@.subrange(0, 8) == farm_stake_discriminator_spec(),
        le_u64(r@, 8) == shares_amount,
{
    tag_with_u64(tag_bytes(206, 176, 202, 18, 200, 209, 179, 108), shares_amount)
}

/// Instruction data for handing a farm user state's ownership over.
pub fn farm_transfer_ownership_instruction_data() -> (r: Vec<u8>)
    ensures
        r@ == farm_transfer_ownership_discriminator_spec(),
{
    tag_bytes(65, 177, 215, 73, 53, 45, 99, 47)
}

/// Instruction data for unstaking `shares_amount` from the farm. The farm
/// program takes a WAD-scaled quantity, so the amount is scaled by 10^18
/// before encoding.
pub fn farm_unstake_instruction_data(shares_amount: u64) -> (r: Vec<u8>)
    ensures
        r@.len() == 24,
        r@.subrange(0, 8) == farm_unstake_discriminator_spec(),
        le_u128(r@, 8) == shares_amount * WAD,
{
    proof {
        lemma_mul_upper_bound(shares_amount as int, u64::MAX as int, WAD as int, WAD as int);
    }
    let scaled: u128 = (shares_amount as u128) * WAD;
    let mut r = tag_bytes(90, 95, 107, 42, 205, 124, 50, 225);
    let mut amt = u128_to_le_bytes(scaled);
    let ghost amt_view = amt@;
    r.append(&mut amt);
    proof {
        assert(r@.subrange(0, 8) =~= farm_unstake_discriminator_spec());
        assert(forall|k: int| 0 <= k < 16 ==> r@[8 + k] == amt_view[k]);
        assert(le_u128(r@, 8) == le_u128(amt_view, 0));
    }
    r
}

/// Instruction data for withdrawing unstaked deposits from the farm.
pub fn farm_withdraw_unstaked_instruction_data() -> (r: Vec<u8>)
    ensures
        r@ == farm_withdraw_unstaked_discriminator_spec(),
{
    tag_bytes(36, 102, 187, 49, 220, 36, 132, 67)
}

} // verus!
