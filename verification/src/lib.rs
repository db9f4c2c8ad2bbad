//! A single-asset staking protocol with per-user escrow: a user locks tokens
//! for a minimum number of slots and reclaims them afterwards.
//!
//! The three operations are in [`instructions`]; they work on the records of
//! [`state`] and [`token`], at the addresses of [`derivation`]. [`ledger`]
//! holds the records of many users and runs the operations on them, and
//! [`laws`] states what holds of the operations on every input.

pub mod address;
pub mod constants;
pub mod derivation;
pub mod error;
pub mod instructions;
pub mod laws;
pub mod ledger;
pub mod state;
pub mod token;

pub use error::{ErrorCode, LedgerError, StakingError};
pub use instructions::{initialize, stake, unstake, Initialize, Stake, UnStake};
pub use state::{StakeInfo, StakeState};
