//! Decision logic for the Kamino deposit and withdrawal choreographies:
//! which steps run, in what order, with what amounts, and which of them
//! may fail without aborting. The host performs the actual invocations.

use vstd::prelude::*;
use crate::bytes::{is_zero_key, key_is_zero};

verus! {

/// Shares transferred to the depositor and staked under their own
/// signature before ownership of the farm position is handed over
/// (1,000,000 raw units of the 6-decimal shares mint, i.e. one share).
pub const FARM_PREFUND_AMOUNT: u64 = 1000000;

/// Whether the vault declares a farm: a zero (default) farm address means
/// "no farm, skip staking entirely", not an error.
pub fn has_farm(vault_farm_key: &[u8]) -> (r: bool)
    requires
        vault_farm_key@.len() == 32,
    ensures
        r == !is_zero_key(vault_farm_key@),
{
    !key_is_zero(vault_farm_key)
}

/// One step of the farm-staking choreography.
#[derive(PartialEq, Eq, Structural, Debug, Clone, Copy)]
pub enum FarmStakeAction {
    /// Create the depositor's farm user-state record.
    InitializeUserFarmState,
    /// Transfer this many shares from the configuration record's share
    /// account to the depositor's.
    TransferSharesToUser(u64),
    /// Stake this many shares under the depositor's own signature.
    StakeByUser(u64),
    /// Hand the depositor's farm user-state record over to the
    /// configuration record.
    TransferUserStateOwnership,
    /// Stake this many shares under the configuration record's derived
    /// signature.
    StakeByConfig(u64),
}

/// A step together with its failure policy: a tolerated step logs and
/// continues on failure, a non-tolerated one aborts the instruction.
pub struct FarmStakeStep {
    pub action: FarmStakeAction,
    pub tolerated: bool,
}

/// Plans the farm-staking choreography for a freshly deposited share
/// amount. With no farm the plan is empty. Otherwise: initialize the
/// depositor's user state if absent, prefund and stake a fixed amount
/// under the depositor's signature, hand the user state over, then stake
/// the remainder under the vault's own authority — only that final stake
/// is fatal on failure, since it commits the bulk of the deposit.
///
/// The split choreography exists because the farm program requires the
/// staking party's own signature for initialization and ownership
/// transfer before a derived signer can stake on the depositor's behalf.
pub fn plan_farm_staking(vault_farm_key: &[u8], user_farm_state_exists: bool, shares_amount: u64)
    -> (r: Vec<FarmStakeStep>)
    requires
        vault_farm_key@.len() == 32,
        !is_zero_key(vault_farm_key@) ==> shares_amount >= FARM_PREFUND_AMOUNT,
    ensures
        is_zero_key(vault_farm_key@) ==> r@.len() == 0,
        !is_zero_key(vault_farm_key@) ==> {
            let steps = if user_farm_state_exists {
                seq![
                    FarmStakeStep {
                        action: FarmStakeAction::TransferSharesToUser(FARM_PREFUND_AMOUNT),
                        tolerated: true,
                    },
                    FarmStakeStep {
                        action: FarmStakeAction::StakeByUser(FARM_PREFUND_AMOUNT),
                        tolerated: true,
                    },
                    FarmStakeStep {
                        action: FarmStakeAction::TransferUserStateOwnership,
                        tolerated: true,
                    },
                    FarmStakeStep {
                        action: FarmStakeAction::StakeByConfig(
                            (shares_amount - FARM_PREFUND_AMOUNT) as u64,
                        ),
                        tolerated: false,
                    },
                ]
            } else {
                seq![
                    FarmStakeStep {
                        action: FarmStakeAction::InitializeUserFarmState,
                        tolerated: true,
                    },
                    FarmStakeStep {
                        action: FarmStakeAction::TransferSharesToUser(FARM_PREFUND_AMOUNT),
                        tolerated: true,
                    },
                    FarmStakeStep {
                        action: FarmStakeAction::StakeByUser(FARM_PREFUND_AMOUNT),
                        tolerated: true,
                    },
                    FarmStakeStep {
                        action: FarmStakeAction::TransferUserStateOwnership,
                        tolerated: true,
                    },
                    FarmStakeStep {
                        action: FarmStakeAction::StakeByConfig(
                            (shares_amount - FARM_PREFUND_AMOUNT) as u64,
                        ),
                        tolerated: false,
                    },
                ]
            };
            r@ == steps
        },
{
    let mut r: Vec<FarmStakeStep> = Vec::new();
    if key_is_zero(vault_farm_key) {
        return r;
    }
    if !user_farm_state_exists {
        r.push(
            FarmStakeStep { action: FarmStakeAction::InitializeUserFarmState, tolerated: true },
        );
    }
    r.push(
        FarmStakeStep {
            action: FarmStakeAction::TransferSharesToUser(FARM_PREFUND_AMOUNT),
            tolerated: true,
        },
    );
    r.push(
        FarmStakeStep {
            action: FarmStakeAction::StakeByUser(FARM_PREFUND_AMOUNT),
            tolerated: true,
        },
    );
    r.push(
        FarmStakeStep { action: FarmStakeAction::TransferUserStateOwnership, tolerated: true },
    );
    r.push(
        FarmStakeStep {
            action: FarmStakeAction::StakeByConfig(shares_amount - FARM_PREFUND_AMOUNT),
            tolerated: false,
        },
    );
    proof {
        if !is_zero_key(vault_farm_key@) {
            if user_farm_state_exists {
                assert(r@ =~= seq![
                    FarmStakeStep {
                        action: FarmStakeAction::TransferSharesToUser(FARM_PREFUND_AMOUNT),
                        tolerated: true,
                    },
                    FarmStakeStep {
                        action: FarmStakeAction::StakeByUser(FARM_PREFUND_AMOUNT),
                        tolerated: true,
                    },
                    FarmStakeStep {
                        action: FarmStakeAction::TransferUserStateOwnership,
                        tolerated: true,
                    },
                    FarmStakeStep {
                        action: FarmStakeAction::StakeByConfig(
                            (shares_amount - FARM_PREFUND_AMOUNT) as u64,
                        ),
                        tolerated: false,
                    },
                ]);
            } else {
                assert(r@ =~= seq![
                    FarmStakeStep {
                        action: FarmStakeAction::InitializeUserFarmState,
                        tolerated: true,
                    },
                    FarmStakeStep {
                        action: FarmStakeAction::TransferSharesToUser(FARM_PREFUND_AMOUNT),
                        tolerated: true,
                    },
                    FarmStakeStep {
                        action: FarmStakeAction::StakeByUser(FARM_PREFUND_AMOUNT),
                        tolerated: true,
                    },
                    FarmStakeStep {
                        action: FarmStakeAction::TransferUserStateOwnership,
                        tolerated: true,
                    },
                    FarmStakeStep {
                        action: FarmStakeAction::StakeByConfig(
                            (shares_amount - FARM_PREFUND_AMOUNT) as u64,
                        ),
                        tolerated: false,
                    },
                ]);
            }
        }
    }
    r
}

/// The shares that must be unstaked from the farm before a withdrawal of
/// `shares_amount` can proceed: nothing when the unstaked balance already
/// covers the request; the whole-position sentinel passes through
/// unchanged; otherwise exactly the shortfall.
pub fn unstake_shortfall(shares_amount: u64, shares_in_ata: u64) -> (r: Option<u64>)
    ensures
        shares_amount <= shares_in_ata ==> r is None,
        shares_amount > shares_in_ata && shares_amount == u64::MAX ==> r == Some(u64::MAX),
        shares_amount > shares_in_ata && shares_amount != u64::MAX ==> r == Some(
            (shares_amount - shares_in_ata) as u64,
        ),
{
    if shares_amount > shares_in_ata {
        if shares_amount == u64::MAX {
            Some(u64::MAX)
        } else {
            Some(shares_amount - shares_in_ata)
        }
    } else {
        None
    }
}

/// How a Kamino withdrawal is routed.
#[derive(PartialEq, Eq, Structural, Debug, Clone, Copy)]
pub enum KaminoWithdrawPath {
    /// Withdraw through the allocated reserves.
    WithAllocations,
    /// Withdraw from the vault's unallocated idle balance.
    FromAvailable,
}

/// Chooses the withdrawal path: through the reserves whenever any reserve
/// allocation is configured, from the idle balance otherwise.
pub fn choose_withdraw_path(num_reserve_allocations: usize) -> (r: KaminoWithdrawPath)
    ensures
        num_reserve_allocations > 0 ==> r == KaminoWithdrawPath::WithAllocations,
        num_reserve_allocations == 0 ==> r == KaminoWithdrawPath::FromAvailable,
{
    if num_reserve_allocations > 0 {
        KaminoWithdrawPath::WithAllocations
    } else {
        KaminoWithdrawPath::FromAvailable
    }
}

/// The per-reserve share amounts of a multi-reserve withdrawal: the whole
/// request goes to the last configured reserve, every earlier reserve
/// gets zero — a withdrawal is never split across reserves.
pub fn reserve_withdraw_amounts(num_reserves: usize, shares_amount: u64) -> (r: Vec<u64>)
    ensures
        r@.len() == num_reserves,
        forall|i: int| 0 <= i < num_reserves - 1 ==> r@[i] == 0,
        num_reserves > 0 ==> r@[num_reserves - 1] == shares_amount,
{
    let mut r: Vec<u64> = Vec::new();
    let mut i: usize = 0;
    while i < num_reserves
        invariant
            i <= num_reserves,
            r@.len() == i,
            forall|k: int| 0 <= k < i ==> (k < num_reserves - 1 ==> r@[k] == 0) && (k
                == num_reserves - 1 ==> r@[k] == shares_amount),
        decreases num_reserves - i,
    {
        if i == num_reserves - 1 {
            r.push(shares_amount);
        } else {
            r.push(0);
        }
        i = i + 1;
    }
    r
}

} // verus!
