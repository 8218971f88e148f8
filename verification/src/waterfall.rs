//! The withdrawal waterfall: a strict two-bucket greedy policy that
//! drains JupLend first.

use vstd::prelude::*;
use crate::errors::AggregatorError;

verus! {

/// How much to withdraw from each venue to satisfy a request.
#[derive(Debug)]
pub struct WithdrawalPlan {
    pub from_juplend: u64,
    pub from_kamino: u64,
}

/// The waterfall policy: entirely from JupLend when it alone covers the
/// request; otherwise entirely from Kamino when it alone covers it;
/// otherwise all of JupLend plus the shortfall from Kamino.
pub open spec fn waterfall_spec(request: u64, juplend: u64, kamino: u64) -> WithdrawalPlan {
    if juplend >= request {
        WithdrawalPlan { from_juplend: request, from_kamino: 0 }
    } else if kamino >= request {
        WithdrawalPlan { from_juplend: 0, from_kamino: request }
    } else {
        WithdrawalPlan { from_juplend: juplend, from_kamino: (request - juplend) as u64 }
    }
}

/// Plans a withdrawal of `usdc_to_withdraw` against the two venues'
/// balances. Fails with `MathOverflow` when the combined balance
/// overflows, and with `InsufficientBalance` exactly when the request
/// exceeds the combined balance. A successful plan always draws exactly
/// the request, within each venue's balance.
pub fn plan_withdrawal(usdc_to_withdraw: u64, juplend_balance: u64, kamino_balance: u64) -> (r:
    Result<WithdrawalPlan, AggregatorError>)
    ensures
        juplend_balance + kamino_balance > u64::MAX ==> (r matches Err(e) && e
            == AggregatorError::MathOverflow),
        juplend_balance + kamino_balance <= u64::MAX && usdc_to_withdraw > juplend_balance
            + kamino_balance ==> (r matches Err(e) && e == AggregatorError::InsufficientBalance),
        juplend_balance + kamino_balance <= u64::MAX && usdc_to_withdraw <= juplend_balance
            + kamino_balance ==> (r matches Ok(p) && p == waterfall_spec(
            usdc_to_withdraw,
            juplend_balance,
            kamino_balance,
        ) && p.from_juplend + p.from_kamino == usdc_to_withdraw && p.from_juplend
            <= juplend_balance && p.from_kamino <= kamino_balance),
{
    let total = match juplend_balance.checked_add(kamino_balance) {
        Some(v) => v,
        None => {
            return Err(AggregatorError::MathOverflow);
        },
    };
    if usdc_to_withdraw > total {
        return Err(AggregatorError::InsufficientBalance);
    }

    if juplend_balance >= usdc_to_withdraw {
        Ok(WithdrawalPlan { from_juplend: usdc_to_withdraw, from_kamino: 0 })
    } else if kamino_balance >= usdc_to_withdraw {
        Ok(WithdrawalPlan { from_juplend: 0, from_kamino: usdc_to_withdraw })
    } else {
        Ok(
            WithdrawalPlan {
                from_juplend: juplend_balance,
                from_kamino: usdc_to_withdraw - juplend_balance,
            },
        )
    }
}

} // verus!
