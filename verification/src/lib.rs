//! Staking of a unique asset in exchange for continuously accruing rewards.
//!
//! A staker holds a [`stake_receipt::StakeReceipt`] for each staked asset and a
//! single [`farmer::Farmer`] aggregate. While a receipt is running, up to
//! [`stake_receipt::MAX_OBJECTS`] whitelisted auxiliary assets may be attached
//! to it, each raising its reward rate. Every rate change first flushes the
//! farmer's pending accrual, so rewards are always time-weighted by the rate
//! that was actually in force.

pub mod error;
pub mod farmer;
pub mod laws;
pub mod pubkey;
pub mod stake_receipt;
pub mod whitelist;
