//! The vault's flat error taxonomy, shared by every component.

use vstd::prelude::*;

verus! {

/// Everything that can go wrong inside the vault's own logic. External
/// venues' failures are folded into `CpiToLendingProgramFailed`; their own
/// detailed error taxonomies are never validated against independently.
#[derive(Clone, Copy, Debug, PartialEq, Eq, Structural)]
pub enum AggregatorError {
    /// An allocation outside 0..=10000 basis points.
    InvalidAllocation,
    /// A zero (or otherwise disallowed) amount.
    InvalidAmount,
    /// Checked arithmetic failed.
    MathOverflow,
    /// A venue cannot cover the requested movement.
    InsufficientLiquidity,
    /// An outgoing call to a lending program failed.
    CpiToLendingProgramFailed,
    /// An external account's bytes are missing, short, or mistagged.
    InvalidAccountData,
    /// A withdrawal request exceeds the combined venue holdings.
    InsufficientBalance,
    /// The caller-supplied trailing account list is too short.
    MissingAccount,
    /// A protocol index outside the known venues.
    InvalidProtocolIndex,
    /// Reloading an account's state failed.
    AccountReloadFailed,
    /// A zero or otherwise disallowed share amount.
    InvalidShares,
}

} // verus!
