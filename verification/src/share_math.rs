//! Share accounting: conversion between deposited-asset amounts and vault
//! shares, in both directions.
//!
//! Both conversions deliberately fall back to a default value instead of
//! failing: a deposit whose product overflows mints one share per unit, and
//! a redemption whose product overflows returns zero. These fallbacks are
//! load-bearing rules of the vault, not defensive afterthoughts.

use vstd::prelude::*;

verus! {

/// Shares owed for a deposit of `deposit_amount`, given the current share
/// supply `total_shares` and the vault's current total value `total_deposits`:
/// one share per unit on a fresh (or zero-valued) vault, otherwise
/// `deposit_amount * total_shares / total_deposits` with floor division,
/// falling back to one share per unit when the product overflows.
pub open spec fn shares_to_mint_spec(
    deposit_amount: u64,
    total_shares: u64,
    total_deposits: u64,
) -> int {
    if total_shares == 0 || total_deposits == 0 {
        deposit_amount as int
    } else if deposit_amount * total_shares > u64::MAX {
        deposit_amount as int
    } else {
        deposit_amount * total_shares / (total_deposits as int)
    }
}

/// Asset value redeemable for `shares`, given the share supply `total_shares`
/// and the vault's total value `total_deposits`: zero while no shares exist,
/// otherwise `shares * total_deposits / total_shares` with floor division,
/// falling back to zero when the product overflows.
pub open spec fn usdc_for_shares_spec(
    shares: u64,
    total_shares: u64,
    total_deposits: u64,
) -> int {
    if total_shares == 0 {
        0
    } else if shares * total_deposits > u64::MAX {
        0
    } else {
        shares * total_deposits / (total_shares as int)
    }
}

pub fn calculate_shares_to_mint(
    deposit_amount: u64,
    total_shares: u64,
    total_deposits: u64,
) -> (r: u64)
    ensures
        r == shares_to_mint_spec(deposit_amount, total_shares, total_deposits),
{
    if total_shares == 0 || total_deposits == 0 {
        deposit_amount
    } else {
        match deposit_amount.checked_mul(total_shares) {
            Some(v) => v / total_deposits,
            None => deposit_amount,
        }
    }
}

pub fn calculate_usdc_for_shares(
    shares: u64,
    total_shares: u64,
    total_deposits: u64,
) -> (r: u64)
    ensures
        r == usdc_for_shares_spec(shares, total_shares, total_deposits),
{
    if total_shares == 0 {
        return 0;
    }
    match shares.checked_mul(total_deposits) {
        Some(v) => v / total_shares,
        None => 0,
    }
}

/// The first-depositor rule: while the share supply or the vault's total
/// value is still zero, shares are minted one-to-one with the deposit.
pub proof fn lemma_shares_to_mint_one_to_one(d: u64, s: u64, v: u64)
    ensures
        shares_to_mint_spec(d, 0, v) == d,
        shares_to_mint_spec(d, s, 0) == d,
{
}

/// The no-supply-yet rule: while no shares exist, no value is redeemable.
pub proof fn lemma_usdc_for_shares_no_supply(shares: u64, v: u64)
    ensures
        usdc_for_shares_spec(shares, 0, v) == 0,
{
}

} // verus!
