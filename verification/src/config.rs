//! The program's one persistent configuration record.

use vstd::prelude::*;
use crate::constants::BPS_BASE;
use crate::errors::AggregatorError;

verus! {

/// The vault's configuration: authority, the mints and holding account it
/// works with, the target allocation split, and the cumulative deposit
/// counter. `total_deposits` only ever grows — it is not a live balance.
#[derive(Debug)]
pub struct AggregatorConfig {
    pub authority: Vec<u8>,
    pub usdc_mint: Vec<u8>,
    pub cusdc_mint: Vec<u8>,
    pub vault_usdc: Vec<u8>,
    pub juplend_allocation_bps: u16,
    pub kamino_allocation_bps: u16,
    pub total_deposits: u64,
    pub bump: u8,
}

impl AggregatorConfig {
    /// The allocation invariant: the two venue targets always split
    /// exactly 10000 basis points.
    pub open spec fn allocation_well_formed(&self) -> bool {
        &&& self.juplend_allocation_bps <= BPS_BASE
        &&& self.juplend_allocation_bps + self.kamino_allocation_bps == BPS_BASE
    }

    /// Creates the configuration record. Rejects an allocation above
    /// 10000 basis points with `InvalidAllocation`; otherwise stores the
    /// split (with the Kamino side derived as the complement) and zeroes
    /// the cumulative deposit counter.
    pub fn init_aggregator_config(
        authority: Vec<u8>,
        usdc_mint: Vec<u8>,
        cusdc_mint: Vec<u8>,
        vault_usdc: Vec<u8>,
        juplend_allocation_bps: u16,
        bump: u8,
    ) -> (r: Result<AggregatorConfig, AggregatorError>)
        ensures
            juplend_allocation_bps <= BPS_BASE ==> (r matches Ok(c)
                && c.authority@ == authority@
                && c.usdc_mint@ == usdc_mint@
                && c.cusdc_mint@ == cusdc_mint@
                && c.vault_usdc@ == vault_usdc@
                && c.juplend_allocation_bps == juplend_allocation_bps
                && c.kamino_allocation_bps == BPS_BASE - juplend_allocation_bps
                && c.total_deposits == 0
                && c.bump == bump
                && c.allocation_well_formed()),
            juplend_allocation_bps > BPS_BASE ==> (r matches Err(e) && e
                == AggregatorError::InvalidAllocation),
    {
        if juplend_allocation_bps > BPS_BASE {
            return Err(AggregatorError::InvalidAllocation);
        }
        Ok(
            AggregatorConfig {
                authority,
                usdc_mint,
                cusdc_mint,
                vault_usdc,
                juplend_allocation_bps,
                kamino_allocation_bps: BPS_BASE - juplend_allocation_bps,
                total_deposits: 0,
                bump,
            },
        )
    }

    /// Stores a new target split. Rejects an allocation above 10000 basis
    /// points with `InvalidAllocation` and leaves the record unchanged;
    /// otherwise updates both sides (the Kamino side as the complement)
    /// and touches nothing else.
    pub fn update_strategy(&mut self, new_juplend_bps: u16) -> (r: Result<(), AggregatorError>)
        ensures
            new_juplend_bps <= BPS_BASE ==> (r matches Ok(u)
                && final(self).juplend_allocation_bps == new_juplend_bps
                && final(self).kamino_allocation_bps == BPS_BASE - new_juplend_bps
                && final(self).allocation_well_formed()
                && final(self).authority@ == old(self).authority@
                && final(self).usdc_mint@ == old(self).usdc_mint@
                && final(self).cusdc_mint@ == old(self).cusdc_mint@
                && final(self).vault_usdc@ == old(self).vault_usdc@
                && final(self).total_deposits == old(self).total_deposits
                && final(self).bump == old(self).bump),
            new_juplend_bps > BPS_BASE ==> (r matches Err(e) && e
                == AggregatorError::InvalidAllocation && *final(self) == *old(self)),
    {
        if new_juplend_bps > BPS_BASE {
            return Err(AggregatorError::InvalidAllocation);
        }
        self.juplend_allocation_bps = new_juplend_bps;
        self.kamino_allocation_bps = BPS_BASE - new_juplend_bps;
        Ok(())
    }

    /// Adds a gross deposit to the cumulative counter. Fails with
    /// `MathOverflow` when the counter would overflow, leaving the record
    /// unchanged.
    pub fn record_deposit(&mut self, amount: u64) -> (r: Result<(), AggregatorError>)
        ensures
            old(self).total_deposits + amount <= u64::MAX ==> (r matches Ok(u)
                && final(self).total_deposits == old(self).total_deposits + amount
                && final(self).juplend_allocation_bps == old(self).juplend_allocation_bps
                && final(self).kamino_allocation_bps == old(self).kamino_allocation_bps
                && final(self).authority@ == old(self).authority@
                && final(self).usdc_mint@ == old(self).usdc_mint@
                && final(self).cusdc_mint@ == old(self).cusdc_mint@
                && final(self).vault_usdc@ == old(self).vault_usdc@
                && final(self).bump == old(self).bump),
            old(self).total_deposits + amount > u64::MAX ==> (r matches Err(e) && e
                == AggregatorError::MathOverflow && *final(self) == *old(self)),
    {
        match self.total_deposits.checked_add(amount) {
            Some(v) => {
                self.total_deposits = v;
                Ok(())
            },
            None => Err(AggregatorError::MathOverflow),
        }
    }
}

} // verus!
