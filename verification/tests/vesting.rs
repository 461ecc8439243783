use token_vesting::accounts::CustodyAccount;
use token_vesting::address::{address_eq, Address};
use token_vesting::claim_engine::{compute_claimable_amount, compute_vested_amount};
use token_vesting::errors::MyError;
use token_vesting::escrow::Escrow;

fn addr(tag: u8) -> Address {
    Address::new([tag; 32])
}

fn name_bytes(s: &str) -> Vec<u8> {
    s.as_bytes().to_vec()
}

/// Sets up a pool and one employee schedule, and funds the treasury.
fn setup(
    start: i64,
    cliff: i64,
    end: i64,
    total: i64,
    treasury_funds: u64,
) -> (Escrow, Address, Vec<u8>) {
    let mut esc = Escrow::new(addr(1));
    let admin = addr(2);
    let mint = addr(3);
    let beneficiary = addr(4);
    let company = name_bytes("acme");
    let pool_addr = esc
        .create_vesting_account(&admin, &mint, &company)
        .expect("pool creation");
    esc.create_employee_account(&admin, &pool_addr, &beneficiary, start, cliff, end, total)
        .expect("employee creation");
    let treasury_addr = esc.vesting_accounts[0].account.treasury_token_account;
    for acct in esc.token_accounts.iter_mut() {
        if address_eq(&acct.address, &treasury_addr) {
            acct.amount = treasury_funds;
        }
    }
    (esc, beneficiary, company)
}

fn custody_amount_of(esc: &Escrow, owner: &Address) -> Option<u64> {
    for acct in esc.token_accounts.iter() {
        if address_eq(&acct.owner, owner) {
            return Some(acct.amount);
        }
    }
    None
}

#[test]
fn scenario_linear_schedule() {
    let (mut esc, beneficiary, company) = setup(0, 100, 1000, 1000, 10_000);
    assert_eq!(
        esc.claim_token(&beneficiary, &company, 50),
        Err(MyError::ClaimNotAvailable)
    );
    assert_eq!(esc.claim_token(&beneficiary, &company, 100), Ok(100));
    assert_eq!(esc.employee_accounts[0].account.total_withdrawn, 100);
    assert_eq!(esc.claim_token(&beneficiary, &company, 550), Ok(450));
    assert_eq!(esc.employee_accounts[0].account.total_withdrawn, 550);
    assert_eq!(esc.claim_token(&beneficiary, &company, 1000), Ok(450));
    assert_eq!(esc.employee_accounts[0].account.total_withdrawn, 1000);
    assert_eq!(
        esc.claim_token(&beneficiary, &company, 2000),
        Err(MyError::NothingToClaim)
    );
    assert_eq!(esc.employee_accounts[0].account.total_withdrawn, 1000);
    assert_eq!(custody_amount_of(&esc, &beneficiary), Some(1000));
}

#[test]
fn before_cliff_never_mutates() {
    let (mut esc, beneficiary, company) = setup(0, 100, 1000, 1000, 10_000);
    let before: Vec<u64> = esc.token_accounts.iter().map(|a| a.amount).collect();
    assert_eq!(
        esc.claim_token(&beneficiary, &company, 99),
        Err(MyError::ClaimNotAvailable)
    );
    assert_eq!(esc.employee_accounts[0].account.total_withdrawn, 0);
    let after: Vec<u64> = esc.token_accounts.iter().map(|a| a.amount).collect();
    assert_eq!(before, after);
}

#[test]
fn reclaim_at_same_instant_finds_nothing() {
    let (mut esc, beneficiary, company) = setup(0, 100, 1000, 1000, 10_000);
    assert_eq!(esc.claim_token(&beneficiary, &company, 550), Ok(550));
    assert_eq!(
        esc.claim_token(&beneficiary, &company, 550),
        Err(MyError::NothingToClaim)
    );
    assert_eq!(esc.employee_accounts[0].account.total_withdrawn, 550);
}

#[test]
fn full_vesting_settles_whole_grant() {
    let (mut esc, beneficiary, company) = setup(5, 10, 20, 777, 1_000);
    assert_eq!(esc.claim_token(&beneficiary, &company, 20), Ok(777));
    assert_eq!(esc.employee_accounts[0].account.total_withdrawn, 777);
    assert_eq!(
        esc.claim_token(&beneficiary, &company, 10_000),
        Err(MyError::NothingToClaim)
    );
    assert_eq!(custody_amount_of(&esc, &beneficiary), Some(777));
}

#[test]
fn treasury_debited_and_custody_credited() {
    let (mut esc, beneficiary, company) = setup(0, 100, 1000, 1000, 10_000);
    assert_eq!(esc.claim_token(&beneficiary, &company, 1000), Ok(1000));
    let treasury_addr = esc.vesting_accounts[0].account.treasury_token_account;
    let treasury: &CustodyAccount = esc
        .token_accounts
        .iter()
        .find(|a| address_eq(&a.address, &treasury_addr))
        .expect("treasury exists");
    assert_eq!(treasury.amount, 9_000);
    assert_eq!(custody_amount_of(&esc, &beneficiary), Some(1000));
}

#[test]
fn overflow_fails_with_calculation_overflow() {
    let (mut esc, beneficiary, company) = setup(0, 0, 1_000_000, i64::MAX, u64::MAX);
    assert_eq!(
        esc.claim_token(&beneficiary, &company, 2),
        Err(MyError::CalculationOverflow)
    );
    assert_eq!(esc.employee_accounts[0].account.total_withdrawn, 0);
}

#[test]
fn overflow_in_computation_alone() {
    assert_eq!(
        compute_claimable_amount(i64::MAX, 0, 0, 0, 1_000_000, 3),
        Err(MyError::CalculationOverflow)
    );
    assert_eq!(
        compute_vested_amount(i64::MAX, 0, 1_000_000, 5),
        Err(MyError::CalculationOverflow)
    );
}

#[test]
fn vested_amount_concrete_values() {
    assert_eq!(compute_vested_amount(1000, 0, 1000, 550), Ok(550));
    assert_eq!(compute_vested_amount(1000, 0, 1000, 1000), Ok(1000));
    assert_eq!(compute_vested_amount(1000, 0, 1000, 2000), Ok(1000));
    // truncation toward zero
    assert_eq!(compute_vested_amount(10, 0, 3, 1), Ok(3));
    assert_eq!(compute_claimable_amount(1000, 100, 0, 100, 1000, 550), Ok(450));
    assert_eq!(
        compute_claimable_amount(1000, 0, 0, 100, 1000, 50),
        Err(MyError::ClaimNotAvailable)
    );
}

#[test]
fn vested_amount_is_monotone_in_time() {
    let mut last: i64 = 0;
    for now in [0i64, 1, 99, 100, 250, 500, 999, 1000, 5000] {
        let v = compute_vested_amount(1000, 0, 1000, now).expect("no overflow");
        assert!(v >= last);
        last = v;
    }
}

#[test]
fn degenerate_schedule_is_invalid_vesting_period() {
    let (mut esc, beneficiary, company) = setup(7, 7, 7, 100, 1_000);
    assert_eq!(
        esc.claim_token(&beneficiary, &company, 7),
        Err(MyError::InvalidVestingPeriod)
    );
}

#[test]
fn insufficient_treasury_fails_and_mutates_nothing() {
    let (mut esc, beneficiary, company) = setup(0, 100, 1000, 1000, 0);
    assert_eq!(
        esc.claim_token(&beneficiary, &company, 500),
        Err(MyError::InsufficientTreasuryBalance)
    );
    assert_eq!(esc.employee_accounts[0].account.total_withdrawn, 0);
}

#[test]
fn duplicate_pool_is_refused() {
    let mut esc = Escrow::new(addr(1));
    let company = name_bytes("acme");
    esc.create_vesting_account(&addr(2), &addr(3), &company)
        .expect("first creation");
    assert!(matches!(
        esc.create_vesting_account(&addr(2), &addr(3), &company),
        Err(MyError::DuplicateRecord)
    ));
    assert_eq!(esc.vesting_accounts.len(), 1);
}

#[test]
fn duplicate_employee_is_refused() {
    let mut esc = Escrow::new(addr(1));
    let admin = addr(2);
    let pool_addr = esc
        .create_vesting_account(&admin, &addr(3), &name_bytes("acme"))
        .expect("pool");
    esc.create_employee_account(&admin, &pool_addr, &addr(4), 0, 1, 2, 10)
        .expect("first employee");
    assert!(matches!(
        esc.create_employee_account(&admin, &pool_addr, &addr(4), 5, 6, 7, 20),
        Err(MyError::DuplicateRecord)
    ));
    assert_eq!(esc.employee_accounts.len(), 1);
}

#[test]
fn distinct_seeds_give_distinct_addresses() {
    let mut esc = Escrow::new(addr(1));
    let admin = addr(2);
    let a = esc
        .create_vesting_account(&admin, &addr(3), &name_bytes("alpha"))
        .expect("alpha");
    let b = esc
        .create_vesting_account(&admin, &addr(3), &name_bytes("beta"))
        .expect("beta");
    assert!(!address_eq(&a, &b));
    let treasury_a = esc.vesting_accounts[0].account.treasury_token_account;
    assert!(!address_eq(&a, &treasury_a));
    let e1 = esc
        .create_employee_account(&admin, &a, &addr(4), 0, 1, 2, 10)
        .expect("employee one");
    let e2 = esc
        .create_employee_account(&admin, &a, &addr(5), 0, 1, 2, 10)
        .expect("employee two");
    assert!(!address_eq(&e1, &e2));
}

#[test]
fn derivation_is_deterministic_and_not_an_echo() {
    let mut esc1 = Escrow::new(addr(1));
    let mut esc2 = Escrow::new(addr(1));
    let mut esc3 = Escrow::new(addr(9));
    let a1 = esc1
        .create_vesting_account(&addr(2), &addr(3), &name_bytes("acme"))
        .expect("one");
    let a2 = esc2
        .create_vesting_account(&addr(2), &addr(3), &name_bytes("acme"))
        .expect("two");
    let a3 = esc3
        .create_vesting_account(&addr(2), &addr(3), &name_bytes("acme"))
        .expect("three");
    // same program and seeds: same address; another program: another address
    assert!(address_eq(&a1, &a2));
    assert!(!address_eq(&a1, &a3));
    // the derived address echoes neither the program id nor the signer
    assert!(!address_eq(&a1, &addr(1)));
    assert!(!address_eq(&a1, &addr(2)));
}

#[test]
fn company_name_over_bound_is_refused() {
    let mut esc = Escrow::new(addr(1));
    let long_name = vec![97u8; 51];
    assert!(matches!(
        esc.create_vesting_account(&addr(2), &addr(3), &long_name),
        Err(MyError::DerivationFailed)
    ));
    // within the escrow's bound but over the derivation scheme's seed bound
    let mid_name = vec![97u8; 40];
    assert!(matches!(
        esc.create_vesting_account(&addr(2), &addr(3), &mid_name),
        Err(MyError::DerivationFailed)
    ));
}

#[test]
fn only_the_administrator_creates_employees() {
    let mut esc = Escrow::new(addr(1));
    let pool_addr = esc
        .create_vesting_account(&addr(2), &addr(3), &name_bytes("acme"))
        .expect("pool");
    assert!(matches!(
        esc.create_employee_account(&addr(7), &pool_addr, &addr(4), 0, 1, 2, 10),
        Err(MyError::Unauthorized)
    ));
}

#[test]
fn invalid_schedule_is_refused_at_creation() {
    let mut esc = Escrow::new(addr(1));
    let admin = addr(2);
    let pool_addr = esc
        .create_vesting_account(&admin, &addr(3), &name_bytes("acme"))
        .expect("pool");
    assert!(matches!(
        esc.create_employee_account(&admin, &pool_addr, &addr(4), 10, 5, 20, 10),
        Err(MyError::InvalidSchedule)
    ));
    assert!(matches!(
        esc.create_employee_account(&admin, &pool_addr, &addr(4), 0, 5, 4, 10),
        Err(MyError::InvalidSchedule)
    ));
    assert!(matches!(
        esc.create_employee_account(&admin, &pool_addr, &addr(4), 0, 5, 20, -1),
        Err(MyError::InvalidSchedule)
    ));
}

#[test]
fn claiming_without_a_record_is_unauthorized() {
    let (mut esc, _beneficiary, company) = setup(0, 100, 1000, 1000, 10_000);
    // a stranger has no employee record at the derived address
    assert_eq!(
        esc.claim_token(&addr(8), &company, 500),
        Err(MyError::Unauthorized)
    );
    // an unknown company name has no pool
    assert_eq!(
        esc.claim_token(&addr(4), &name_bytes("ghost"), 500),
        Err(MyError::Unauthorized)
    );
}

#[test]
fn treasury_under_foreign_authority_is_unauthorized() {
    let (mut esc, beneficiary, company) = setup(0, 100, 1000, 1000, 10_000);
    // the treasury's authority must be its own derived address; a treasury
    // under any other authority refuses the pool's transfer
    let treasury_addr = esc.vesting_accounts[0].account.treasury_token_account;
    for acct in esc.token_accounts.iter_mut() {
        if address_eq(&acct.address, &treasury_addr) {
            acct.owner = addr(9);
        }
    }
    assert_eq!(
        esc.claim_token(&beneficiary, &company, 500),
        Err(MyError::Unauthorized)
    );
    assert_eq!(esc.employee_accounts[0].account.total_withdrawn, 0);
}

#[test]
fn credit_overflow_is_refused_before_any_mutation() {
    let (mut esc, beneficiary, company) = setup(0, 100, 1000, 1000, u64::MAX);
    assert_eq!(esc.claim_token(&beneficiary, &company, 500), Ok(500));
    // swell the beneficiary's custody balance to the numeric maximum
    for acct in esc.token_accounts.iter_mut() {
        if address_eq(&acct.owner, &beneficiary) {
            acct.amount = u64::MAX;
        }
    }
    assert_eq!(
        esc.claim_token(&beneficiary, &company, 1000),
        Err(MyError::CalculationOverflow)
    );
    assert_eq!(esc.employee_accounts[0].account.total_withdrawn, 500);
}
