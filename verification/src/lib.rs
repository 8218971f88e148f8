//! A yield-aggregating vault library: users deposit a stablecoin and receive
//! proportional claim-token shares; the pooled funds are split between two
//! external lending venues (JupLend and Kamino) according to a configurable
//! basis-point target, and rebalanced as deposits and withdrawals occur.
//!
//! This crate holds the verified core: share accounting, the fixed-point
//! arithmetic used for venue valuation, raw account-layout readers, both
//! venues' balance-valuation math, instruction-data encoders, and the
//! rebalancing and withdrawal-waterfall planners. The host-side account
//! plumbing that feeds these functions lives outside the library.

pub mod aggregate;
pub mod bytes;
pub mod config;
pub mod constants;
pub mod encode;
pub mod errors;
pub mod events;
pub mod farm_balance;
pub mod fraction;
pub mod handlers;
pub mod juplend_reserve;
pub mod juplend_state;
pub mod juplend_valuation;
pub mod kamino_flow;
pub mod kamino_layout;
pub mod kamino_valuation;
pub mod rebalance;
pub mod share_math;
pub mod user_state;
pub mod waterfall;
