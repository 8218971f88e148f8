//! The computational cores of the instruction handlers: input validation
//! and share accounting, separated from the token movement the host
//! performs around them.

use vstd::prelude::*;
use crate::errors::AggregatorError;
use crate::share_math::{
    calculate_shares_to_mint,
    calculate_usdc_for_shares,
    shares_to_mint_spec,
    usdc_for_shares_spec,
};

verus! {

/// The checked sum of a prefix of balances.
pub open spec fn sum_spec(s: Seq<u64>, n: int) -> int
    decreases n,
{
    if n <= 0 {
        0
    } else {
        sum_spec(s, n - 1) + s[n - 1]
    }
}

proof fn lemma_sum_mono(s: Seq<u64>, m: int, n: int)
    requires
        0 <= m <= n <= s.len(),
    ensures
        sum_spec(s, m) <= sum_spec(s, n),
    decreases n - m,
{
    if m < n {
        lemma_sum_mono(s, m, n - 1);
    }
}

/// Sums per-venue balances, failing with `MathOverflow` exactly when the
/// total exceeds 64 bits.
pub fn sum_balances(balances: &Vec<u64>) -> (r: Result<u64, AggregatorError>)
    ensures
        sum_spec(balances@, balances@.len() as int) <= u64::MAX ==> (r matches Ok(v) && v
            == sum_spec(balances@, balances@.len() as int)),
        sum_spec(balances@, balances@.len() as int) > u64::MAX ==> (r matches Err(e) && e
            == AggregatorError::MathOverflow),
{
    let n = balances.len();
    let mut acc: u64 = 0;
    let mut i: usize = 0;
    while i < n
        invariant
            i <= n,
            n == balances@.len(),
            acc == sum_spec(balances@, i as int),
        decreases n - i,
    {
        acc = match acc.checked_add(balances[i]) {
            Some(v) => v,
            None => {
                proof {
                    lemma_sum_mono(balances@, i + 1, n as int);
                }
                return Err(AggregatorError::MathOverflow);
            },
        };
        i = i + 1;
    }
    Ok(acc)
}

/// The deposit instruction's computation: a zero amount is rejected with
/// `InvalidAmount` before anything else happens; otherwise the share
/// amount to mint is priced against the pre-deposit, protocol-only total.
pub fn compute_deposit(amount: u64, cusdc_supply: u64, total_usdc_in_protocols: u64) -> (r:
    Result<u64, AggregatorError>)
    ensures
        amount == 0 ==> (r matches Err(e) && e == AggregatorError::InvalidAmount),
        amount != 0 ==> (r matches Ok(shares) && shares == shares_to_mint_spec(
            amount,
            cusdc_supply,
            total_usdc_in_protocols,
        )),
{
    if amount == 0 {
        return Err(AggregatorError::InvalidAmount);
    }
    Ok(calculate_shares_to_mint(amount, cusdc_supply, total_usdc_in_protocols))
}

/// The withdraw instruction's computation: a zero share amount is
/// rejected with `InvalidAmount`; otherwise the asset amount owed for the
/// shares at the current exchange rate.
pub fn compute_withdraw(cusdc_amount: u64, cusdc_supply: u64, total_usdc_in_protocols: u64) -> (r:
    Result<u64, AggregatorError>)
    ensures
        cusdc_amount == 0 ==> (r matches Err(e) && e == AggregatorError::InvalidAmount),
        cusdc_amount != 0 ==> (r matches Ok(usdc) && usdc == usdc_for_shares_spec(
            cusdc_amount,
            cusdc_supply,
            total_usdc_in_protocols,
        )),
{
    if cusdc_amount == 0 {
        return Err(AggregatorError::InvalidAmount);
    }
    Ok(calculate_usdc_for_shares(cusdc_amount, cusdc_supply, total_usdc_in_protocols))
}

/// The read-only view's computation: the holder's redeemable value for
/// their current share balance.
pub fn compute_view(user_cusdc_amount: u64, cusdc_supply: u64, total_usdc_in_protocols: u64) -> (
r: u64)
    ensures
        r == usdc_for_shares_spec(user_cusdc_amount, cusdc_supply, total_usdc_in_protocols),
{
    calculate_usdc_for_shares(user_cusdc_amount, cusdc_supply, total_usdc_in_protocols)
}

} // verus!
