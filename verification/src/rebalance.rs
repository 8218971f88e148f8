//! The rebalancing planner: push idle cash into JupLend first, then run at
//! most one corrective leg toward the basis-point target split.

use vstd::prelude::*;
use crate::constants::BPS_BASE;
use crate::errors::AggregatorError;

verus! {

/// The single corrective movement a rebalance performs, if any.
#[derive(PartialEq, Eq, Structural, Debug, Clone, Copy)]
pub enum RebalanceLeg {
    /// Both venues already sit at or under target.
    Hold,
    /// Withdraw the amount from JupLend and run a full Kamino deposit of it.
    JuplendToKamino(u64),
    /// Withdraw the amount's worth of shares from Kamino and deposit it
    /// into JupLend.
    KaminoToJuplend(u64),
}

/// A computed rebalance: deposit the idle balance into JupLend, then run
/// the single corrective leg.
#[derive(Debug)]
pub struct RebalancePlan {
    /// The idle balance, to be deposited into JupLend first (zero skips
    /// the deposit).
    pub deposit_idle_to_juplend: u64,
    /// Target JupLend holding after the rebalance.
    pub target_juplend: u64,
    /// Target Kamino holding after the rebalance.
    pub target_kamino: u64,
    /// The corrective movement.
    pub leg: RebalanceLeg,
}

/// Combined holdings across both venues and the idle balance.
pub open spec fn rebalance_total_spec(juplend: u64, kamino: u64, idle: u64) -> int {
    juplend + kamino + idle
}

/// Planning succeeds when the combined total and the basis-point product
/// fit in 64 bits and the target split does not exceed the total.
pub open spec fn plan_rebalance_ok(juplend: u64, kamino: u64, idle: u64, bps: u16) -> bool {
    let total = rebalance_total_spec(juplend, kamino, idle);
    &&& total <= u64::MAX
    &&& total * bps <= u64::MAX
    &&& total * bps / (BPS_BASE as int) <= total
}

/// Target JupLend holding: the basis-point share of the total, floored.
pub open spec fn target_juplend_spec(juplend: u64, kamino: u64, idle: u64, bps: u16) -> int {
    rebalance_total_spec(juplend, kamino, idle) * bps / (BPS_BASE as int)
}

/// The corrective leg: after idle cash lands in JupLend, whichever venue
/// exceeds its target gives the excess to the other; JupLend is checked
/// first, and at most one leg runs.
pub open spec fn rebalance_leg_spec(juplend: u64, kamino: u64, idle: u64, bps: u16) -> RebalanceLeg {
    let total = rebalance_total_spec(juplend, kamino, idle);
    let target_juplend = target_juplend_spec(juplend, kamino, idle, bps);
    let target_kamino = total - target_juplend;
    let new_juplend = juplend + idle;
    if new_juplend > target_juplend {
        RebalanceLeg::JuplendToKamino((new_juplend - target_juplend) as u64)
    } else if kamino > target_kamino {
        RebalanceLeg::KaminoToJuplend((kamino - target_kamino) as u64)
    } else {
        RebalanceLeg::Hold
    }
}

/// Plans a rebalance from the two venues' current balances and the idle
/// balance. Fails with `MathOverflow` exactly when the total or the
/// basis-point product overflows, or the target exceeds the total (which
/// needs more than 10000 basis points).
pub fn plan_rebalance(juplend_balance: u64, kamino_balance: u64, idle_balance: u64, juplend_allocation_bps: u16) -> (r: Result<
    RebalancePlan,
    AggregatorError,
>)
    ensures
        plan_rebalance_ok(juplend_balance, kamino_balance, idle_balance, juplend_allocation_bps)
            ==> (r matches Ok(p) && p.deposit_idle_to_juplend == idle_balance
            && p.target_juplend == target_juplend_spec(
            juplend_balance,
            kamino_balance,
            idle_balance,
            juplend_allocation_bps,
        ) && p.target_juplend + p.target_kamino == rebalance_total_spec(
            juplend_balance,
            kamino_balance,
            idle_balance,
        ) && p.leg == rebalance_leg_spec(
            juplend_balance,
            kamino_balance,
            idle_balance,
            juplend_allocation_bps,
        )),
        !plan_rebalance_ok(juplend_balance, kamino_balance, idle_balance, juplend_allocation_bps)
            ==> (r matches Err(e) && e == AggregatorError::MathOverflow),
{
    let with_kamino = match juplend_balance.checked_add(kamino_balance) {
        Some(v) => v,
        None => {
            return Err(AggregatorError::MathOverflow);
        },
    };
    let total = match with_kamino.checked_add(idle_balance) {
        Some(v) => v,
        None => {
            return Err(AggregatorError::MathOverflow);
        },
    };

    let scaled = match total.checked_mul(juplend_allocation_bps as u64) {
        Some(v) => v,
        None => {
            return Err(AggregatorError::MathOverflow);
        },
    };
    let target_juplend = scaled / (BPS_BASE as u64);

    let target_kamino = match total.checked_sub(target_juplend) {
        Some(v) => v,
        None => {
            return Err(AggregatorError::MathOverflow);
        },
    };

    let new_juplend = juplend_balance + idle_balance;

    let leg: RebalanceLeg;
    if new_juplend > target_juplend {
        leg = RebalanceLeg::JuplendToKamino(new_juplend - target_juplend);
    } else if kamino_balance > target_kamino {
        leg = RebalanceLeg::KaminoToJuplend(kamino_balance - target_kamino);
    } else {
        leg = RebalanceLeg::Hold;
    }

    Ok(
        RebalancePlan {
            deposit_idle_to_juplend: idle_balance,
            target_juplend,
            target_kamino,
            leg,
        },
    )
}

} // verus!
