//! The claim computation: how much of a grant has vested at a moment, and how
//! much of that can still be claimed.
//!
//! A schedule is in one of three states as a pure function of wall-clock
//! time: before the cliff nothing may be claimed; between cliff and end the
//! vested amount grows linearly with elapsed time (integer arithmetic,
//! truncation toward zero); from the end on the whole grant is vested.  The
//! claimable amount is the vested amount less what was already withdrawn.

use crate::errors::MyError;
use vstd::arithmetic::div_mod::{
    lemma_div_is_ordered,
    lemma_div_multiples_vanish,
    lemma_div_pos_is_pos,
};
use vstd::arithmetic::mul::{lemma_mul_inequality, lemma_mul_nonnegative};
use vstd::prelude::*;

verus! {

/// The cumulative amount earned by elapsed time, independent of prior
/// withdrawals: the whole grant from `end` on, and the linearly accrued
/// share before it.
pub open spec fn vested_of(total: int, start: int, end: int, now: int) -> int
    recommends
        start < end,
{
    if now >= end {
        total
    } else {
        total * (now - start) / (end - start)
    }
}

/// What a claim at time `now` decides, given the schedule and the amount
/// already withdrawn: the positive amount to transfer, or why the claim is
/// refused.  Checks run in this order: the cliff, the schedule span, the
/// vesting arithmetic, and last whether anything new has vested.
pub open spec fn claim_computation(
    total: int,
    withdrawn: int,
    start: int,
    cliff: int,
    end: int,
    now: int,
) -> Result<int, MyError> {
    if now < cliff {
        Err(MyError::ClaimNotAvailable)
    } else if end - start > i64::MAX {
        Err(MyError::CalculationOverflow)
    } else if end - start <= 0 {
        Err(MyError::InvalidVestingPeriod)
    } else if now < end && total * (now - start) > i64::MAX {
        Err(MyError::CalculationOverflow)
    } else {
        let claimable = vested_of(total, start, end, now) - withdrawn;
        if claimable <= 0 {
            Err(MyError::NothingToClaim)
        } else {
            Ok(claimable)
        }
    }
}

/// A claim result with its amount as a mathematical integer.
pub open spec fn result_view(r: Result<i64, MyError>) -> Result<int, MyError> {
    match r {
        Ok(v) => Ok(v as int),
        Err(e) => Err(e),
    }
}

/// The vested amount lies between zero and the whole grant.
pub proof fn lemma_vested_bounds(total: int, start: int, end: int, now: int)
    requires
        0 <= total,
        start <= now,
        start < end,
    ensures
        0 <= vested_of(total, start, end, now) <= total,
{
    if now < end {
        lemma_mul_nonnegative(total, now - start);
        lemma_div_pos_is_pos(total * (now - start), end - start);
        lemma_mul_inequality(now - start, end - start, total);
        lemma_div_is_ordered(total * (now - start), total * (end - start), end - start);
        lemma_div_multiples_vanish(total, end - start);
        assert(total * (end - start) == (end - start) * total) by (nonlinear_arith);
        assert((now - start) * total == total * (now - start)) by (nonlinear_arith);
    }
}

/// The vested amount never decreases as time advances: of two claims on one
/// record, the later one sees at least the vested amount the earlier one saw.
pub proof fn lemma_vested_monotonic(total: int, start: int, end: int, t1: int, t2: int)
    requires
        0 <= total,
        start <= t1 <= t2,
        start < end,
    ensures
        vested_of(total, start, end, t1) <= vested_of(total, start, end, t2),
{
    if t2 < end {
        lemma_mul_inequality(t1 - start, t2 - start, total);
        assert((t1 - start) * total == total * (t1 - start)) by (nonlinear_arith);
        assert((t2 - start) * total == total * (t2 - start)) by (nonlinear_arith);
        lemma_div_is_ordered(total * (t1 - start), total * (t2 - start), end - start);
    } else {
        lemma_vested_bounds(total, start, end, t1);
    }
}

/// Before the cliff a claim always fails with ClaimNotAvailable, whatever
/// the rest of the schedule or the ledger holds.
pub proof fn lemma_claim_before_cliff(
    total: int,
    withdrawn: int,
    start: int,
    cliff: int,
    end: int,
    now: int,
)
    requires
        now < cliff,
    ensures
        claim_computation(total, withdrawn, start, cliff, end, now) == Err::<
            int,
            MyError,
        >(MyError::ClaimNotAvailable),
{
}

/// A successful claim never lets the withdrawn total pass the grant: what it
/// pays out tops the ledger up to exactly the vested amount.
pub proof fn lemma_no_overdraw(
    total: int,
    withdrawn: int,
    start: int,
    cliff: int,
    end: int,
    now: int,
    paid: int,
)
    requires
        0 <= total,
        start <= cliff <= end,
        claim_computation(total, withdrawn, start, cliff, end, now) == Ok::<int, MyError>(paid),
    ensures
        withdrawn + paid == vested_of(total, start, end, now),
        withdrawn + paid <= total,
        now >= end ==> withdrawn + paid == total,
{
    lemma_vested_bounds(total, start, end, now);
}

/// Claiming twice at the same instant: after a successful claim, a second
/// claim at the same time finds nothing new vested and fails with
/// NothingToClaim.
pub proof fn lemma_reclaim_same_instant(
    total: int,
    withdrawn: int,
    start: int,
    cliff: int,
    end: int,
    now: int,
    paid: int,
)
    requires
        0 <= total,
        start <= cliff <= end,
        claim_computation(total, withdrawn, start, cliff, end, now) == Ok::<int, MyError>(paid),
    ensures
        claim_computation(total, withdrawn + paid, start, cliff, end, now) == Err::<
            int,
            MyError,
        >(MyError::NothingToClaim),
{
}

/// Computes the vested amount at `now` for a positive-span schedule, failing
/// with CalculationOverflow where the product would leave the numeric range.
pub fn compute_vested_amount(total_amount: i64, start_time: i64, end_time: i64, now: i64) -> (r:
    Result<i64, MyError>)
    requires
        0 <= total_amount,
        start_time < end_time,
        end_time - start_time <= i64::MAX,
        start_time <= now,
    ensures
        now >= end_time ==> r == Ok::<i64, MyError>(total_amount),
        now < end_time && total_amount * (now - start_time) > i64::MAX ==> r == Err::<
            i64,
            MyError,
        >(MyError::CalculationOverflow),
        now < end_time && total_amount * (now - start_time) <= i64::MAX ==> (r matches Ok(v)
            && v == vested_of(
            total_amount as int,
            start_time as int,
            end_time as int,
            now as int,
        )),
        r matches Ok(v) ==> 0 <= v <= total_amount && v == vested_of(
            total_amount as int,
            start_time as int,
            end_time as int,
            now as int,
        ),
{
    if now >= end_time {
        return Ok(total_amount);
    }
    let span = end_time - start_time;
    let elapsed = now - start_time;
    proof {
        lemma_mul_nonnegative(total_amount as int, elapsed as int);
    }
    match total_amount.checked_mul(elapsed) {
        None => Err(MyError::CalculationOverflow),
        Some(product) => {
            let vested = ((product as u64) / (span as u64)) as i64;
            proof {
                lemma_div_pos_is_pos(product as int, span as int);
                lemma_vested_bounds(
                    total_amount as int,
                    start_time as int,
                    end_time as int,
                    now as int,
                );
            }
            Ok(vested)
        },
    }
}

/// Computes the claimable amount at `now`: the vested amount less what was
/// already withdrawn.  Returns exactly what `claim_computation` decides, and
/// on success pays the ledger up to the vested amount, never past the grant;
/// from the schedule's end on, a success settles the whole grant.
pub fn compute_claimable_amount(
    total_amount: i64,
    total_withdrawn: i64,
    start_time: i64,
    cliff_time: i64,
    end_time: i64,
    now: i64,
) -> (r: Result<i64, MyError>)
    requires
        crate::accounts::valid_schedule(
            start_time as int,
            cliff_time as int,
            end_time as int,
            total_amount as int,
        ),
        0 <= total_withdrawn <= total_amount,
    ensures
        result_view(r) == claim_computation(
            total_amount as int,
            total_withdrawn as int,
            start_time as int,
            cliff_time as int,
            end_time as int,
            now as int,
        ),
        r matches Ok(v) ==> 0 < v && total_withdrawn + v == vested_of(
            total_amount as int,
            start_time as int,
            end_time as int,
            now as int,
        ) && total_withdrawn + v <= total_amount,
        now >= end_time ==> (r matches Ok(v) ==> total_withdrawn + v == total_amount),
{
    if now < cliff_time {
        return Err(MyError::ClaimNotAvailable);
    }
    let span = match end_time.checked_sub(start_time) {
        None => {
            return Err(MyError::CalculationOverflow);
        },
        Some(s) => s,
    };
    if span <= 0 {
        return Err(MyError::InvalidVestingPeriod);
    }
    match compute_vested_amount(total_amount, start_time, end_time, now) {
        Err(e) => Err(e),
        Ok(vested) => {
            let claimable = vested - total_withdrawn;
            proof {
                lemma_vested_bounds(
                    total_amount as int,
                    start_time as int,
                    end_time as int,
                    now as int,
                );
            }
            if claimable <= 0 {
                Err(MyError::NothingToClaim)
            } else {
                Ok(claimable)
            }
        },
    }
}

} // verus!
