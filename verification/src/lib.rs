//! Core logic of an on-chain crowdfunding and vesting protocol.
//!
//! Projects are approved by a curator, backed by community and general
//! contributors up to a 50/50 split of a funding target, and released to
//! creators in milestone tranches gated by voting. Token allocations bought
//! during funding stages (seed, presale, IDO) unlock on linear-with-cliff
//! vesting schedules. All arithmetic is integer arithmetic; truncating
//! division rounds down in favor of the protocol.
//!
//! Storage persistence, message serialization, address validation, and the
//! ledger gateway (token transfers, money-market deposit/redeem) are external
//! collaborators: functions here work on plain values and return lists of
//! outbound instructions for the host to schedule.

pub mod accrual;
pub mod contract;
pub mod error;
pub mod funding;
pub mod msg;
pub mod query;
pub mod state;

pub use crate::error::ContractError;
