//! A token-vesting escrow: a company-scoped pool of custodied tokens is
//! released to individual beneficiaries on a time-based schedule with an
//! initial cliff and linear accrual thereafter.
//!
//! Records are located by deterministic address derivation instead of an
//! index, claims are computed from elapsed time with overflow-checked
//! arithmetic, and every mutation is an atomic all-or-nothing step.

pub mod accounts;
pub mod address;
pub mod claim_engine;
pub mod errors;
pub mod escrow;
