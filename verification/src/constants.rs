//! Scalar constants shared across the vault.

use vstd::prelude::*;

verus! {

/// Basis-point base: 10000 bps == 100%.
pub const BPS_BASE: u16 = 10000;

/// Minimum operable amount; defined and reserved for future
/// minimum-transaction enforcement, currently enforced nowhere.
pub const MIN_OPERATE_AMOUNT: u64 = 1000;

/// WAD scale (10^18), used for farm stake-amount encoding.
pub const WAD: u128 = 1_000_000_000_000_000_000;

/// JupLend exchange-price precision (10^12).
pub const EXCHANGE_PRICES_PRECISION: u128 = 1_000_000_000_000;

/// JupLend percent precision (10^14), used for liquidity-price deltas.
pub const PERCENT_PRECISION: u128 = 100_000_000_000_000;

/// Seconds per year, for JupLend reward accrual.
pub const SECONDS_PER_YEAR: u128 = 31_536_000;

/// Cap on the JupLend reward rate (500% annualized at 10^12 precision).
pub const MAX_REWARDS_RATE: u128 = 50_000_000_000_000;

/// Kamino slots per year, from an assumed 2 slots/second cadence.
pub const SLOTS_PER_YEAR: u64 = 63_072_000;

/// Kamino scale-factor base (10^18), fed through raw fixed-point bits.
pub const SCALE_FACTOR_BASE: u128 = 1_000_000_000_000_000_000;

/// Reward-token slots per farm user state.
pub const MAX_REWARDS_TOKENS: usize = 10;

} // verus!
