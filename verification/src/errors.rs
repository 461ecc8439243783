//! The error kinds of the escrow.  Every operation detects its error before
//! any state mutation, so a failed operation leaves every record unchanged.

use vstd::prelude::*;

verus! {

/// Why an escrow operation was refused.
#[derive(Clone, Copy, Debug, PartialEq, Eq, Structural)]
pub enum MyError {
    /// A pool or employee record already exists at the derived address.
    DuplicateRecord,
    /// The caller does not match the required identity, or a derived-address
    /// cross-check failed.
    Unauthorized,
    /// A schedule with `start_time <= cliff_time <= end_time` violated, or a
    /// negative grant, was handed to record creation.
    InvalidSchedule,
    /// A claim was made before the schedule's cliff.
    ClaimNotAvailable,
    /// The schedule's duration is not positive at claim time.
    InvalidVestingPeriod,
    /// The vesting arithmetic would overflow the numeric range.
    CalculationOverflow,
    /// No newly-vested amount is available to claim.
    NothingToClaim,
    /// The treasury holds less than the claimable amount.
    InsufficientTreasuryBalance,
    /// Address derivation failed: a seed is over the length bound, or no
    /// viable disambiguation nonce exists.
    DerivationFailed,
}

} // verus!
