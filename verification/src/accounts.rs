//! The three record kinds the escrow persists: the per-company vesting pool,
//! the per-beneficiary employee schedule, and token custody records.

use crate::address::Address;
use vstd::prelude::*;

verus! {

/// The longest company name, in bytes, that a pool may carry.
pub const MAX_COMPANY_NAME_LEN: usize = 50;

/// A schedule is valid when its times are ordered and the grant is not
/// negative.
pub open spec fn valid_schedule(start: int, cliff: int, end: int, total: int) -> bool {
    &&& start <= cliff
    &&& cliff <= end
    &&& 0 <= total
}

/// Company-level configuration: one per company name.
pub struct VestingAccount {
    /// The administrator allowed to create employee records.
    pub owner: Address,
    /// The token type this pool distributes.
    pub mint: Address,
    /// The address of the custody record holding the pool's unclaimed tokens.
    pub treasury_token_account: Address,
    /// The company name, part of the derivation seeds; at most 50 bytes.
    pub company_name: Vec<u8>,
    /// Disambiguation nonce of the treasury derivation.
    pub treasury_bump: u8,
    /// Disambiguation nonce of the pool derivation.
    pub bump: u8,
}

impl VestingAccount {
    /// A pool is well formed when its company name fits the length bound.
    pub open spec fn wf(self) -> bool {
        self.company_name@.len() <= MAX_COMPANY_NAME_LEN
    }
}

/// A per-beneficiary vesting schedule and its withdrawal ledger.
#[derive(Clone, Copy)]
pub struct EmployeeAccount {
    /// The identity entitled to claim.
    pub beneficiary: Address,
    /// When vesting accrual starts.
    pub start_time: i64,
    /// The earliest time any vested amount may be claimed.
    pub cliff_time: i64,
    /// When the whole grant is vested.
    pub end_time: i64,
    /// The total grant over the schedule; fixed at creation.
    pub total_amount: i64,
    /// How much has already been transferred to the beneficiary.
    pub total_withdrawn: i64,
    /// The pool this record belongs to.
    pub vesting_account: Address,
    /// Disambiguation nonce of the record's derivation.
    pub bump: u8,
}

impl EmployeeAccount {
    /// An employee record is well formed when its schedule is valid and the
    /// withdrawn amount never exceeds the grant.
    pub open spec fn wf(self) -> bool {
        &&& valid_schedule(
            self.start_time as int,
            self.cliff_time as int,
            self.end_time as int,
            self.total_amount as int,
        )
        &&& 0 <= self.total_withdrawn <= self.total_amount
    }
}

/// A token custody record: a balance of one mint under one authority.
#[derive(Clone, Copy)]
pub struct CustodyAccount {
    /// Where the record lives.
    pub address: Address,
    /// The token type of the balance.
    pub mint: Address,
    /// The identity whose proof authorizes outgoing transfers.
    pub owner: Address,
    /// The custodied balance.
    pub amount: u64,
}

/// A vesting pool together with the derived address it is stored at.
pub struct StoredVestingAccount {
    /// The derived address of the pool.
    pub address: Address,
    /// The pool itself.
    pub account: VestingAccount,
}

/// An employee record together with the derived address it is stored at.
#[derive(Clone, Copy)]
pub struct StoredEmployeeAccount {
    /// The derived address of the record.
    pub address: Address,
    /// The record itself.
    pub account: EmployeeAccount,
}

} // verus!
