//! The escrow's state machine: a store of pools, employee records and
//! custody records keyed by their derived addresses, and the three atomic
//! operations over it — create a pool, create an employee record, claim.
//!
//! Every operation detects its error before any mutation, so a failed
//! operation leaves the store exactly as it was; a successful claim updates
//! the employee ledger and moves the custody balances as one unit.

use crate::accounts::{
    valid_schedule,
    CustodyAccount,
    EmployeeAccount,
    StoredEmployeeAccount,
    StoredVestingAccount,
    VestingAccount,
    MAX_COMPANY_NAME_LEN,
};
use crate::address::{
    address_eq,
    clone_bytes,
    derive_custody_address,
    derive_employee_address,
    derive_pool_address,
    derive_treasury_address,
    derived_custody,
    derived_employee,
    derived_pool,
    derived_treasury,
    Address,
};
use crate::claim_engine::{claim_computation, vested_of};
use crate::errors::MyError;
use vstd::prelude::*;

verus! {

/// Whether some pool in the store lives at the address.
pub open spec fn has_pool_at(pools: Seq<StoredVestingAccount>, addr: Seq<u8>) -> bool {
    exists|i: int| 0 <= i < pools.len() && pools[i].address@ == addr
}

/// The index of the pool at the address (unique in a well-formed store).
pub open spec fn pool_index(pools: Seq<StoredVestingAccount>, addr: Seq<u8>) -> int {
    choose|i: int| 0 <= i < pools.len() && pools[i].address@ == addr
}

/// Whether some employee record in the store lives at the address.
pub open spec fn has_employee_at(emps: Seq<StoredEmployeeAccount>, addr: Seq<u8>) -> bool {
    exists|i: int| 0 <= i < emps.len() && emps[i].address@ == addr
}

/// The index of the employee record at the address (unique in a well-formed
/// store).
pub open spec fn employee_index(emps: Seq<StoredEmployeeAccount>, addr: Seq<u8>) -> int {
    choose|i: int| 0 <= i < emps.len() && emps[i].address@ == addr
}

/// Whether some custody record in the store lives at the address.
pub open spec fn has_custody_at(accts: Seq<CustodyAccount>, addr: Seq<u8>) -> bool {
    exists|i: int| 0 <= i < accts.len() && accts[i].address@ == addr
}

/// The index of the custody record at the address (unique in a well-formed
/// store).
pub open spec fn custody_index(accts: Seq<CustodyAccount>, addr: Seq<u8>) -> int {
    choose|i: int| 0 <= i < accts.len() && accts[i].address@ == addr
}

/// The escrow: all persisted records of one vesting program, each stored at
/// its derived address.
pub struct Escrow {
    /// The program identity under which every address is derived.
    pub program_id: Address,
    /// The vesting pools, one per company name.
    pub vesting_accounts: Vec<StoredVestingAccount>,
    /// The employee vesting records, one per (beneficiary, pool) pair.
    pub employee_accounts: Vec<StoredEmployeeAccount>,
    /// The token custody records: treasuries and beneficiary accounts.
    pub token_accounts: Vec<CustodyAccount>,
}

impl Escrow {
    /// A well-formed store: addresses are unique within each table, every
    /// pool carries a name within the bound, and every employee ledger obeys
    /// `0 <= total_withdrawn <= total_amount` over a valid schedule.
    pub open spec fn wf(self) -> bool {
        &&& forall|i: int, j: int|
            0 <= i < self.vesting_accounts@.len() && 0 <= j < self.vesting_accounts@.len() && i != j
                ==> #[trigger] self.vesting_accounts@[i].address@ != #[trigger] self.vesting_accounts@[j].address@
        &&& forall|i: int, j: int|
            0 <= i < self.employee_accounts@.len() && 0 <= j < self.employee_accounts@.len() && i
                != j
                ==> #[trigger] self.employee_accounts@[i].address@ != #[trigger] self.employee_accounts@[j].address@
        &&& forall|i: int, j: int|
            0 <= i < self.token_accounts@.len() && 0 <= j < self.token_accounts@.len() && i != j
                ==> #[trigger] self.token_accounts@[i].address@ != #[trigger] self.token_accounts@[j].address@
        &&& forall|i: int|
            0 <= i < self.vesting_accounts@.len()
                ==> (#[trigger] self.vesting_accounts@[i]).account.wf()
        &&& forall|i: int|
            0 <= i < self.employee_accounts@.len()
                ==> (#[trigger] self.employee_accounts@[i]).account.wf()
    }

    /// A fresh escrow with no records.
    pub fn new(program_id: Address) -> (r: Escrow)
        ensures
            r.wf(),
            r.program_id == program_id,
            r.vesting_accounts@ == Seq::<StoredVestingAccount>::empty(),
            r.employee_accounts@ == Seq::<StoredEmployeeAccount>::empty(),
            r.token_accounts@ == Seq::<CustodyAccount>::empty(),
    {
        Escrow {
            program_id,
            vesting_accounts: Vec::new(),
            employee_accounts: Vec::new(),
            token_accounts: Vec::new(),
        }
    }

    /// Why creating a pool for the company name would be refused, or `None`
    /// when it succeeds: the name must fit the bound, both derivations must
    /// yield an address, and neither derived address may be taken yet.
    pub open spec fn create_pool_err(self, name: Seq<u8>) -> Option<MyError> {
        if name.len() > MAX_COMPANY_NAME_LEN as nat {
            Some(MyError::DerivationFailed)
        } else if derived_pool(self.program_id@, name) is None {
            Some(MyError::DerivationFailed)
        } else if derived_treasury(self.program_id@, name) is None {
            Some(MyError::DerivationFailed)
        } else if has_pool_at(self.vesting_accounts@, derived_pool(self.program_id@, name).unwrap().0) {
            Some(MyError::DuplicateRecord)
        } else if has_custody_at(
            self.token_accounts@,
            derived_treasury(self.program_id@, name).unwrap().0,
        ) {
            Some(MyError::DuplicateRecord)
        } else {
            None
        }
    }

    /// Creates the pool and its treasury custody record for a company name,
    /// in one atomic step.  The treasury's authority is its own derived
    /// address, so only logic that can re-derive it from the company name
    /// authorizes outgoing transfers.  Re-creation under a name whose derived
    /// address is taken fails with DuplicateRecord and changes nothing.
    pub fn create_vesting_account(
        &mut self,
        signer: &Address,
        mint: &Address,
        company_name: &Vec<u8>,
    ) -> (r: Result<Address, MyError>)
        requires
            old(self).wf(),
        ensures
            final(self).wf(),
            final(self).program_id == old(self).program_id,
            final(self).employee_accounts@ == old(self).employee_accounts@,
            match r {
                Err(e) => {
                    &&& final(self).vesting_accounts@ == old(self).vesting_accounts@
                    &&& final(self).token_accounts@ == old(self).token_accounts@
                    &&& old(self).create_pool_err(company_name@) == Some(e)
                },
                Ok(addr) => {
                    let dp = derived_pool(old(self).program_id@, company_name@);
                    let dt = derived_treasury(old(self).program_id@, company_name@);
                    let n = old(self).vesting_accounts@.len();
                    let m = old(self).token_accounts@.len();
                    &&& old(self).create_pool_err(company_name@) == None::<MyError>
                    &&& dp is Some
                    &&& dt is Some
                    &&& addr@ == dp.unwrap().0
                    &&& final(self).vesting_accounts@.len() == n + 1
                    &&& final(self).vesting_accounts@.subrange(0, n as int) == old(self).vesting_accounts@
                    &&& final(self).vesting_accounts@[n as int].address@ == dp.unwrap().0
                    &&& final(self).vesting_accounts@[n as int].account.owner == *signer
                    &&& final(self).vesting_accounts@[n as int].account.mint == *mint
                    &&& final(self).vesting_accounts@[n as int].account.treasury_token_account@ == dt.unwrap().0
                    &&& final(self).vesting_accounts@[n as int].account.company_name@ == company_name@
                    &&& final(self).vesting_accounts@[n as int].account.treasury_bump == dt.unwrap().1
                    &&& final(self).vesting_accounts@[n as int].account.bump == dp.unwrap().1
                    &&& final(self).token_accounts@.len() == m + 1
                    &&& final(self).token_accounts@.subrange(0, m as int) == old(self).token_accounts@
                    &&& final(self).token_accounts@[m as int].address@ == dt.unwrap().0
                    &&& final(self).token_accounts@[m as int].mint == *mint
                    &&& final(self).token_accounts@[m as int].owner@ == dt.unwrap().0
                    &&& final(self).token_accounts@[m as int].amount == 0u64
                },
            },
    {
        if company_name.len() > MAX_COMPANY_NAME_LEN {
            return Err(MyError::DerivationFailed);
        }
        let dp = match derive_pool_address(&self.program_id, company_name) {
            None => {
                return Err(MyError::DerivationFailed);
            },
            Some(p) => p,
        };
        let dt = match derive_treasury_address(&self.program_id, company_name) {
            None => {
                return Err(MyError::DerivationFailed);
            },
            Some(p) => p,
        };
        if find_pool_index(&self.vesting_accounts, &dp.0).is_some() {
            return Err(MyError::DuplicateRecord);
        }
        if find_custody_index(&self.token_accounts, &dt.0).is_some() {
            return Err(MyError::DuplicateRecord);
        }
        let pool = VestingAccount {
            owner: *signer,
            mint: *mint,
            treasury_token_account: dt.0,
            company_name: clone_bytes(company_name),
            treasury_bump: dt.1,
            bump: dp.1,
        };
        self.vesting_accounts.push(StoredVestingAccount { address: dp.0, account: pool });
        self.token_accounts.push(
            CustodyAccount { address: dt.0, mint: *mint, owner: dt.0, amount: 0 },
        );
        Ok(dp.0)
    }

    /// Why creating an employee record would be refused, or `None` when it
    /// succeeds: the pool must exist, the caller must be its administrator,
    /// the schedule must be valid, the derivation must yield an address, and
    /// that address must not be taken yet.
    pub open spec fn create_employee_err(
        self,
        signer: Address,
        pool_addr: Address,
        beneficiary: Address,
        start: int,
        cliff: int,
        end: int,
        total: int,
    ) -> Option<MyError> {
        if !has_pool_at(self.vesting_accounts@, pool_addr@) {
            Some(MyError::Unauthorized)
        } else if self.vesting_accounts@[pool_index(
            self.vesting_accounts@,
            pool_addr@,
        )].account.owner@ != signer@ {
            Some(MyError::Unauthorized)
        } else if !valid_schedule(start, cliff, end, total) {
            Some(MyError::InvalidSchedule)
        } else if derived_employee(self.program_id@, beneficiary@, pool_addr@) is None {
            Some(MyError::DerivationFailed)
        } else if has_employee_at(
            self.employee_accounts@,
            derived_employee(self.program_id@, beneficiary@, pool_addr@).unwrap().0,
        ) {
            Some(MyError::DuplicateRecord)
        } else {
            None
        }
    }

    /// Creates the employee vesting record for a beneficiary under a pool.
    /// Only the pool's administrator may create one; the schedule must be
    /// ordered with a non-negative grant; re-creation for the same
    /// (beneficiary, pool) pair fails with DuplicateRecord and changes
    /// nothing.  The ledger starts with nothing withdrawn.
    pub fn create_employee_account(
        &mut self,
        signer: &Address,
        vesting_account: &Address,
        beneficiary: &Address,
        start_time: i64,
        cliff_time: i64,
        end_time: i64,
        total_amount: i64,
    ) -> (r: Result<Address, MyError>)
        requires
            old(self).wf(),
        ensures
            final(self).wf(),
            final(self).program_id == old(self).program_id,
            final(self).vesting_accounts@ == old(self).vesting_accounts@,
            final(self).token_accounts@ == old(self).token_accounts@,
            match r {
                Err(e) => {
                    &&& final(self).employee_accounts@ == old(self).employee_accounts@
                    &&& old(self).create_employee_err(
                        *signer,
                        *vesting_account,
                        *beneficiary,
                        start_time as int,
                        cliff_time as int,
                        end_time as int,
                        total_amount as int,
                    ) == Some(e)
                },
                Ok(addr) => ({
                    let de = derived_employee(
                        old(self).program_id@,
                        beneficiary@,
                        vesting_account@,
                    );
                    let n = old(self).employee_accounts@.len();
                    &&& old(self).create_employee_err(
                        *signer,
                        *vesting_account,
                        *beneficiary,
                        start_time as int,
                        cliff_time as int,
                        end_time as int,
                        total_amount as int,
                    ) == None::<MyError>
                    &&& de is Some
                    &&& addr@ == de.unwrap().0
                    &&& final(self).employee_accounts@.len() == n + 1
                    &&& final(self).employee_accounts@.subrange(0, n as int) == old(self).employee_accounts@
                    &&& final(self).employee_accounts@[n as int].address@ == de.unwrap().0
                    &&& final(self).employee_accounts@[n as int].account == (EmployeeAccount {
                        beneficiary: *beneficiary,
                        start_time,
                        cliff_time,
                        end_time,
                        total_amount,
                        total_withdrawn: 0i64,
                        vesting_account: *vesting_account,
                        bump: de.unwrap().1,
                    })
                }),
            },
    {
        let pool_i = match find_pool_index(&self.vesting_accounts, vesting_account) {
            None => {
                return Err(MyError::Unauthorized);
            },
            Some(i) => i,
        };
        proof {
            assert(has_pool_at(self.vesting_accounts@, vesting_account@));
            let k = pool_index(self.vesting_accounts@, vesting_account@);
            assert(0 <= k < self.vesting_accounts@.len() && self.vesting_accounts@[k].address@
                == vesting_account@);
            assert(k == pool_i as int);
        }
        if !address_eq(&self.vesting_accounts[pool_i].account.owner, signer) {
            return Err(MyError::Unauthorized);
        }
        if !(start_time <= cliff_time && cliff_time <= end_time && total_amount >= 0) {
            return Err(MyError::InvalidSchedule);
        }
        let de = match derive_employee_address(&self.program_id, beneficiary, vesting_account) {
            None => {
                return Err(MyError::DerivationFailed);
            },
            Some(p) => p,
        };
        if find_employee_index(&self.employee_accounts, &de.0).is_some() {
            return Err(MyError::DuplicateRecord);
        }
        let account = EmployeeAccount {
            beneficiary: *beneficiary,
            start_time,
            cliff_time,
            end_time,
            total_amount,
            total_withdrawn: 0,
            vesting_account: *vesting_account,
            bump: de.1,
        };
        self.employee_accounts.push(StoredEmployeeAccount { address: de.0, account });
        Ok(de.0)
    }

    /// Why the custody transfer of an authorized, computed claim would be
    /// refused, or `None` when it goes through: the beneficiary custody
    /// address must derive, must differ from the treasury, must belong to the
    /// beneficiary for the pool's mint where it already exists, the treasury
    /// must cover the amount, and the credited balance must fit.
    pub open spec fn claim_transfer_err(
        self,
        beneficiary: Address,
        mint: Address,
        treasury_addr: Address,
        amount: int,
    ) -> Option<MyError> {
        let dc = derived_custody(self.program_id@, beneficiary@, mint@);
        let treasury = self.token_accounts@[custody_index(self.token_accounts@, treasury_addr@)];
        if dc is None {
            Some(MyError::DerivationFailed)
        } else if dc.unwrap().0 == treasury_addr@ {
            Some(MyError::Unauthorized)
        } else if has_custody_at(self.token_accounts@, dc.unwrap().0) && ({
            let c = self.token_accounts@[custody_index(self.token_accounts@, dc.unwrap().0)];
            c.owner@ != beneficiary@ || c.mint@ != mint@
        }) {
            Some(MyError::Unauthorized)
        } else if treasury.amount < amount {
            Some(MyError::InsufficientTreasuryBalance)
        } else if has_custody_at(self.token_accounts@, dc.unwrap().0) && self.token_accounts@[
            custody_index(self.token_accounts@, dc.unwrap().0)
        ].amount + amount > u64::MAX {
            Some(MyError::CalculationOverflow)
        } else {
            None
        }
    }

    /// Why a claim would be refused, or `None` when it goes through.  The
    /// checks run in the order the claim performs them: re-derive and verify
    /// every address (anything that does not match fails with Unauthorized),
    /// then decide the claimable amount, then the custody transfer.
    pub open spec fn claim_err(self, beneficiary: Address, name: Seq<u8>, now: int) -> Option<
        MyError,
    > {
        let dp = derived_pool(self.program_id@, name);
        if dp is None {
            Some(MyError::DerivationFailed)
        } else if !has_pool_at(self.vesting_accounts@, dp.unwrap().0) {
            Some(MyError::Unauthorized)
        } else {
            let pool = self.vesting_accounts@[pool_index(
                self.vesting_accounts@,
                dp.unwrap().0,
            )].account;
            let de = derived_employee(self.program_id@, beneficiary@, dp.unwrap().0);
            if de is None {
                Some(MyError::DerivationFailed)
            } else if !has_employee_at(self.employee_accounts@, de.unwrap().0) {
                Some(MyError::Unauthorized)
            } else {
                let emp = self.employee_accounts@[employee_index(
                    self.employee_accounts@,
                    de.unwrap().0,
                )].account;
                if emp.beneficiary@ != beneficiary@ || emp.vesting_account@ != dp.unwrap().0 {
                    Some(MyError::Unauthorized)
                } else if !has_custody_at(self.token_accounts@, pool.treasury_token_account@) {
                    Some(MyError::Unauthorized)
                } else {
                    let treasury = self.token_accounts@[custody_index(
                        self.token_accounts@,
                        pool.treasury_token_account@,
                    )];
                    let dt = derived_treasury(self.program_id@, pool.company_name@);
                    if dt is None {
                        Some(MyError::DerivationFailed)
                    } else if treasury.owner@ != dt.unwrap().0 {
                        Some(MyError::Unauthorized)
                    } else {
                        match claim_computation(
                            emp.total_amount as int,
                            emp.total_withdrawn as int,
                            emp.start_time as int,
                            emp.cliff_time as int,
                            emp.end_time as int,
                            now,
                        ) {
                            Err(e) => Some(e),
                            Ok(amount) => self.claim_transfer_err(
                                beneficiary,
                                pool.mint,
                                pool.treasury_token_account,
                                amount,
                            ),
                        }
                    }
                }
            }
        }
    }

    /// Claims whatever has newly vested for the beneficiary under the pool of
    /// the company name at time `now`, and returns the transferred amount.
    ///
    /// The claim re-derives and cross-checks every address, computes the
    /// claimable amount with overflow-checked arithmetic, and then, as one
    /// atomic unit, debits the treasury, credits the beneficiary's custody
    /// record (created on demand, scoped to beneficiary and mint), and adds
    /// the amount to the ledger's withdrawn total.  A refused claim leaves
    /// the store exactly as it was; before the cliff it is refused with
    /// ClaimNotAvailable; a successful claim pays the ledger up to exactly
    /// the vested amount, never past the grant, and from the schedule's end
    /// on it settles the whole grant.  Right after a successful claim, the
    /// same claim at the same instant is refused with NothingToClaim.
    pub fn claim_token(&mut self, beneficiary: &Address, company_name: &Vec<u8>, now: i64) -> (r:
        Result<i64, MyError>)
        requires
            old(self).wf(),
        ensures
            final(self).wf(),
            final(self).program_id == old(self).program_id,
            final(self).vesting_accounts@ == old(self).vesting_accounts@,
            match r {
                Err(e) => {
                    &&& final(self).employee_accounts@ == old(self).employee_accounts@
                    &&& final(self).token_accounts@ == old(self).token_accounts@
                    &&& old(self).claim_err(*beneficiary, company_name@, now as int) == Some(e)
                },
                Ok(amount) => ({
                    let dp = derived_pool(old(self).program_id@, company_name@);
                    let pool = old(self).vesting_accounts@[pool_index(
                        old(self).vesting_accounts@,
                        dp.unwrap().0,
                    )].account;
                    let de = derived_employee(old(self).program_id@, beneficiary@, dp.unwrap().0);
                    let ei = employee_index(old(self).employee_accounts@, de.unwrap().0);
                    let emp = old(self).employee_accounts@[ei].account;
                    let ti = custody_index(
                        old(self).token_accounts@,
                        pool.treasury_token_account@,
                    );
                    let dc = derived_custody(old(self).program_id@, beneficiary@, pool.mint@);
                    let had_custody = has_custody_at(old(self).token_accounts@, dc.unwrap().0);
                    let ci = custody_index(old(self).token_accounts@, dc.unwrap().0);
                    &&& old(self).claim_err(*beneficiary, company_name@, now as int)
                        == None::<MyError>
                    &&& final(self).claim_err(*beneficiary, company_name@, now as int) == Some(
                        MyError::NothingToClaim,
                    )
                    &&& 0 < amount
                    &&& Ok::<int, MyError>(amount as int) == claim_computation(
                        emp.total_amount as int,
                        emp.total_withdrawn as int,
                        emp.start_time as int,
                        emp.cliff_time as int,
                        emp.end_time as int,
                        now as int,
                    )
                    &&& emp.total_withdrawn + amount == vested_of(
                        emp.total_amount as int,
                        emp.start_time as int,
                        emp.end_time as int,
                        now as int,
                    )
                    &&& emp.total_withdrawn + amount <= emp.total_amount
                    &&& now >= emp.end_time ==> emp.total_withdrawn + amount == emp.total_amount
                    &&& final(self).employee_accounts@.len() == old(self).employee_accounts@.len()
                    &&& final(self).employee_accounts@[ei].address == old(self).employee_accounts@[ei].address
                    &&& final(self).employee_accounts@[ei].account.total_withdrawn
                        == emp.total_withdrawn + amount
                    &&& final(self).employee_accounts@[ei].account.beneficiary == emp.beneficiary
                    &&& final(self).employee_accounts@[ei].account.start_time == emp.start_time
                    &&& final(self).employee_accounts@[ei].account.cliff_time == emp.cliff_time
                    &&& final(self).employee_accounts@[ei].account.end_time == emp.end_time
                    &&& final(self).employee_accounts@[ei].account.total_amount == emp.total_amount
                    &&& final(self).employee_accounts@[ei].account.vesting_account
                        == emp.vesting_account
                    &&& final(self).employee_accounts@[ei].account.bump == emp.bump
                    &&& forall|k: int|
                        0 <= k < old(self).employee_accounts@.len() && k != ei ==> final(self).employee_accounts@[k] == old(self).employee_accounts@[k]
                    &&& final(self).token_accounts@.len() == (if had_custody {
                        old(self).token_accounts@.len() as int
                    } else {
                        old(self).token_accounts@.len() as int + 1
                    })
                    &&& final(self).token_accounts@[ti].address == old(self).token_accounts@[ti].address
                    &&& final(self).token_accounts@[ti].mint == old(self).token_accounts@[ti].mint
                    &&& final(self).token_accounts@[ti].owner == old(self).token_accounts@[ti].owner
                    &&& final(self).token_accounts@[ti].amount == old(self).token_accounts@[ti].amount - amount
                    &&& (if had_custody {
                        &&& final(self).token_accounts@[ci].address == old(self).token_accounts@[ci].address
                        &&& final(self).token_accounts@[ci].mint == old(self).token_accounts@[ci].mint
                        &&& final(self).token_accounts@[ci].owner == old(self).token_accounts@[ci].owner
                        &&& final(self).token_accounts@[ci].amount == old(self).token_accounts@[ci].amount + amount
                    } else {
                        &&& final(self).token_accounts@.last().address@ == dc.unwrap().0
                        &&& final(self).token_accounts@.last().mint == pool.mint
                        &&& final(self).token_accounts@.last().owner == *beneficiary
                        &&& final(self).token_accounts@.last().amount == amount
                    })
                    &&& forall|k: int|
                        0 <= k < old(self).token_accounts@.len() && k != ti && (had_custody ==> k
                            != ci) ==> final(self).token_accounts@[k] == old(self).token_accounts@[k]
                }),
            },
    {
        let dp = match derive_pool_address(&self.program_id, company_name) {
            None => {
                return Err(MyError::DerivationFailed);
            },
            Some(p) => p,
        };
        let pool_i = match find_pool_index(&self.vesting_accounts, &dp.0) {
            None => {
                return Err(MyError::Unauthorized);
            },
            Some(i) => i,
        };
        proof {
            assert(has_pool_at(self.vesting_accounts@, dp.0@));
            let k = pool_index(self.vesting_accounts@, dp.0@);
            assert(0 <= k < self.vesting_accounts@.len() && self.vesting_accounts@[k].address@
                == dp.0@);
            assert(k == pool_i as int);
        }
        let de = match derive_employee_address(&self.program_id, beneficiary, &dp.0) {
            None => {
                return Err(MyError::DerivationFailed);
            },
            Some(p) => p,
        };
        let emp_i = match find_employee_index(&self.employee_accounts, &de.0) {
            None => {
                return Err(MyError::Unauthorized);
            },
            Some(i) => i,
        };
        proof {
            assert(has_employee_at(self.employee_accounts@, de.0@));
            let k = employee_index(self.employee_accounts@, de.0@);
            assert(0 <= k < self.employee_accounts@.len() && self.employee_accounts@[k].address@
                == de.0@);
            assert(k == emp_i as int);
        }
        let emp = self.employee_accounts[emp_i].account;
        if !address_eq(&emp.beneficiary, beneficiary) || !address_eq(&emp.vesting_account, &dp.0) {
            return Err(MyError::Unauthorized);
        }
        let treasury_addr = self.vesting_accounts[pool_i].account.treasury_token_account;
        let treas_i = match find_custody_index(&self.token_accounts, &treasury_addr) {
            None => {
                return Err(MyError::Unauthorized);
            },
            Some(i) => i,
        };
        proof {
            assert(has_custody_at(self.token_accounts@, treasury_addr@));
            let k = custody_index(self.token_accounts@, treasury_addr@);
            assert(0 <= k < self.token_accounts@.len() && self.token_accounts@[k].address@
                == treasury_addr@);
            assert(k == treas_i as int);
        }
        let treasury = self.token_accounts[treas_i];
        let dt = match derive_treasury_address(
            &self.program_id,
            &self.vesting_accounts[pool_i].account.company_name,
        ) {
            None => {
                return Err(MyError::DerivationFailed);
            },
            Some(p) => p,
        };
        if !address_eq(&treasury.owner, &dt.0) {
            return Err(MyError::Unauthorized);
        }
        proof {
            assert(self.employee_accounts@[emp_i as int].account.wf());
        }
        let amount = match crate::claim_engine::compute_claimable_amount(
            emp.total_amount,
            emp.total_withdrawn,
            emp.start_time,
            emp.cliff_time,
            emp.end_time,
            now,
        ) {
            Err(e) => {
                return Err(e);
            },
            Ok(a) => a,
        };
        let mint = self.vesting_accounts[pool_i].account.mint;
        let dc = match derive_custody_address(&self.program_id, beneficiary, &mint) {
            None => {
                return Err(MyError::DerivationFailed);
            },
            Some(p) => p,
        };
        if address_eq(&dc.0, &treasury_addr) {
            return Err(MyError::Unauthorized);
        }
        let cust_i_opt = find_custody_index(&self.token_accounts, &dc.0);
        let amount_u64 = amount as u64;
        match cust_i_opt {
            Some(cust_i) => {
                proof {
                    assert(has_custody_at(self.token_accounts@, dc.0@));
                    let k = custody_index(self.token_accounts@, dc.0@);
                    assert(0 <= k < self.token_accounts@.len() && self.token_accounts@[k].address@
                        == dc.0@);
                    assert(k == cust_i as int);
                    assert(cust_i != treas_i);
                }
                let custody = self.token_accounts[cust_i];
                if !address_eq(&custody.owner, beneficiary) || !address_eq(&custody.mint, &mint) {
                    return Err(MyError::Unauthorized);
                }
                if treasury.amount < amount_u64 {
                    return Err(MyError::InsufficientTreasuryBalance);
                }
                let credited = match custody.amount.checked_add(amount_u64) {
                    None => {
                        return Err(MyError::CalculationOverflow);
                    },
                    Some(v) => v,
                };
                self.token_accounts[cust_i] = CustodyAccount {
                    address: custody.address,
                    mint: custody.mint,
                    owner: custody.owner,
                    amount: credited,
                };
            },
            None => {
                if treasury.amount < amount_u64 {
                    return Err(MyError::InsufficientTreasuryBalance);
                }
                self.token_accounts.push(
                    CustodyAccount {
                        address: dc.0,
                        mint,
                        owner: *beneficiary,
                        amount: amount_u64,
                    },
                );
            },
        }
        self.token_accounts[treas_i] = CustodyAccount {
            address: treasury.address,
            mint: treasury.mint,
            owner: treasury.owner,
            amount: treasury.amount - amount_u64,
        };
        let stored_emp = self.employee_accounts[emp_i];
        self.employee_accounts[emp_i] = StoredEmployeeAccount {
            address: stored_emp.address,
            account: EmployeeAccount {
                beneficiary: emp.beneficiary,
                start_time: emp.start_time,
                cliff_time: emp.cliff_time,
                end_time: emp.end_time,
                total_amount: emp.total_amount,
                total_withdrawn: emp.total_withdrawn + amount,
                vesting_account: emp.vesting_account,
                bump: emp.bump,
            },
        };
        Ok(amount)
    }
}

/// Derivation is deterministic, so a store that already holds a pool at the
/// address derived from a company name refuses to create a pool for that
/// name again, always with DuplicateRecord.
pub proof fn lemma_recreate_pool_fails(s: Escrow, name: Seq<u8>)
    requires
        name.len() <= MAX_COMPANY_NAME_LEN as nat,
        derived_pool(s.program_id@, name) is Some,
        derived_treasury(s.program_id@, name) is Some,
        has_pool_at(s.vesting_accounts@, derived_pool(s.program_id@, name).unwrap().0),
    ensures
        s.create_pool_err(name) == Some(MyError::DuplicateRecord),
{
}

/// Derivation is deterministic, so a store that already holds an employee
/// record at the address derived from a (beneficiary, pool) pair refuses to
/// create a record for that pair again, always with DuplicateRecord — even
/// for the administrator with a valid schedule.
pub proof fn lemma_recreate_employee_fails(
    s: Escrow,
    signer: Address,
    pool_addr: Address,
    beneficiary: Address,
    start: int,
    cliff: int,
    end: int,
    total: int,
)
    requires
        has_pool_at(s.vesting_accounts@, pool_addr@),
        s.vesting_accounts@[pool_index(s.vesting_accounts@, pool_addr@)].account.owner@ == signer@,
        valid_schedule(start, cliff, end, total),
        derived_employee(s.program_id@, beneficiary@, pool_addr@) is Some,
        has_employee_at(
            s.employee_accounts@,
            derived_employee(s.program_id@, beneficiary@, pool_addr@).unwrap().0,
        ),
    ensures
        s.create_employee_err(signer, pool_addr, beneficiary, start, cliff, end, total) == Some(
            MyError::DuplicateRecord,
        ),
{
}

/// Finds the index of the pool stored at the address, if any.
pub fn find_pool_index(pools: &Vec<StoredVestingAccount>, addr: &Address) -> (r: Option<usize>)
    ensures
        match r {
            Some(i) => i < pools@.len() && pools@[i as int].address@ == addr@,
            None => !has_pool_at(pools@, addr@),
        },
{
    let mut i: usize = 0;
    while i < pools.len()
        invariant
            i <= pools@.len(),
            forall|j: int| 0 <= j < i ==> pools@[j].address@ != addr@,
        decreases pools@.len() - i,
    {
        if address_eq(&pools[i].address, addr) {
            return Some(i);
        }
        i += 1;
    }
    None
}

/// Finds the index of the employee record stored at the address, if any.
pub fn find_employee_index(emps: &Vec<StoredEmployeeAccount>, addr: &Address) -> (r: Option<usize>)
    ensures
        match r {
            Some(i) => i < emps@.len() && emps@[i as int].address@ == addr@,
            None => !has_employee_at(emps@, addr@),
        },
{
    let mut i: usize = 0;
    while i < emps.len()
        invariant
            i <= emps@.len(),
            forall|j: int| 0 <= j < i ==> emps@[j].address@ != addr@,
        decreases emps@.len() - i,
    {
        if address_eq(&emps[i].address, addr) {
            return Some(i);
        }
        i += 1;
    }
    None
}

/// Finds the index of the custody record stored at the address, if any.
pub fn find_custody_index(accts: &Vec<CustodyAccount>, addr: &Address) -> (r: Option<usize>)
    ensures
        match r {
            Some(i) => i < accts@.len() && accts@[i as int].address@ == addr@,
            None => !has_custody_at(accts@, addr@),
        },
{
    let mut i: usize = 0;
    while i < accts.len()
        invariant
            i <= accts@.len(),
            forall|j: int| 0 <= j < i ==> accts@[j].address@ != addr@,
        decreases accts@.len() - i,
    {
        if address_eq(&accts[i].address, addr) {
            return Some(i);
        }
        i += 1;
    }
    None
}

} // verus!
