//! Single-asset staking with continuously accruing, rate-based rewards.
//!
//! The accrual engine keeps a pool-wide cumulative reward per staked unit and
//! settles each user against it before any stake change, so that every user's
//! reward is known at any instant without periodic per-user work.

pub mod error;
pub mod state;
pub mod accrual;
pub mod policy;
pub mod instructions;
pub mod laws;
