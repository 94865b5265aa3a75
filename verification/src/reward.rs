//! The reward engine: a pure function from principal, rate and elapsed
//! locked time to the accrued reward.
//!
//! The reward is proportional to the principal, the schedule-selected
//! rate and the number of completed accrual periods: for every full
//! `ACCRUAL_PERIOD_SECONDS` of locked time, `rate` percent of the
//! principal is credited, as an integer quotient.  Intermediate products
//! are computed in 128 bits; a result that does not fit in 64 bits is an
//! `ArithmeticOverflow` error, never a silently wrapped value.

use vstd::arithmetic::div_mod::{lemma_basic_div, lemma_div_is_ordered, lemma_div_multiples_vanish};
use vstd::arithmetic::mul::{lemma_mul_inequality, lemma_mul_nonnegative, lemma_mul_upper_bound};
use vstd::prelude::*;

use crate::error::StakeError;

verus! {

/// Seconds in one day.
pub const SECONDS_PER_DAY: u64 = 86_400;

/// Seconds in one accrual period: reward is credited once per completed
/// period of locked time.
pub const ACCRUAL_PERIOD_SECONDS: u64 = 30 * 86_400;

/// The rate denominator: a rate of `n` pays `n` percent of the principal
/// per completed accrual period.
pub const RATE_SCALE: u64 = 100;

/// The accrued reward as a mathematical integer:
/// `amount * rate * (completed periods) / RATE_SCALE`.
pub open spec fn spec_accrue(amount: u64, rate: u64, elapsed_seconds: u64) -> int {
    amount * rate * (elapsed_seconds as int / (ACCRUAL_PERIOD_SECONDS as int))
        / (RATE_SCALE as int)
}

/// Computes the accrued reward, failing with `ArithmeticOverflow` exactly
/// when the mathematical reward does not fit in 64 bits.
///
/// A zero principal or an elapsed time under one accrual period yields
/// zero reward, never an error.
pub fn calculate_reward(amount: u64, rate: u64, elapsed_seconds: u64) -> (r: Result<
    u64,
    StakeError,
>)
    ensures
        spec_accrue(amount, rate, elapsed_seconds) <= u64::MAX ==> r == Ok::<u64, StakeError>(
            spec_accrue(amount, rate, elapsed_seconds) as u64,
        ),
        spec_accrue(amount, rate, elapsed_seconds) > u64::MAX ==> r == Err::<u64, StakeError>(
            StakeError::ArithmeticOverflow,
        ),
{
    let periods: u64 = elapsed_seconds / ACCRUAL_PERIOD_SECONDS;
    proof {
        lemma_mul_upper_bound(amount as int, u64::MAX as int, rate as int, u64::MAX as int);
        lemma_mul_nonnegative(amount as int, rate as int);
    }
    let base: u128 = (amount as u128) * (rate as u128);
    match base.checked_mul(periods as u128) {
        None => {
            proof {
                let numerator = base as int * periods as int;
                let threshold = RATE_SCALE as int * (u64::MAX as int + 1);
                lemma_div_multiples_vanish(u64::MAX as int + 1, RATE_SCALE as int);
                lemma_div_is_ordered(threshold, numerator, RATE_SCALE as int);
            }
            Err(StakeError::ArithmeticOverflow)
        },
        Some(t) => {
            let q: u128 = t / (RATE_SCALE as u128);
            if q > u64::MAX as u128 {
                Err(StakeError::ArithmeticOverflow)
            } else {
                Ok(q as u64)
            }
        },
    }
}

/// Zero elapsed time accrues zero reward, for every principal and rate.
pub proof fn lemma_accrue_zero_elapsed(amount: u64, rate: u64)
    ensures
        spec_accrue(amount, rate, 0) == 0,
{
    lemma_basic_div(0, ACCRUAL_PERIOD_SECONDS as int);
    lemma_basic_div(0, RATE_SCALE as int);
}

/// A zero principal accrues zero reward, for every rate and elapsed time.
pub proof fn lemma_accrue_zero_amount(rate: u64, elapsed_seconds: u64)
    ensures
        spec_accrue(0, rate, elapsed_seconds) == 0,
{
    let q = elapsed_seconds as int / (ACCRUAL_PERIOD_SECONDS as int);
    assert(0 * rate * q == 0);
    lemma_basic_div(0, RATE_SCALE as int);
}

/// For a fixed positive principal and rate, the accrued reward never
/// decreases as the elapsed time grows.
pub proof fn lemma_accrue_monotone_in_elapsed(amount: u64, rate: u64, e1: u64, e2: u64)
    requires
        amount > 0,
        rate > 0,
        e1 <= e2,
    ensures
        spec_accrue(amount, rate, e1) <= spec_accrue(amount, rate, e2),
{
    let p = ACCRUAL_PERIOD_SECONDS as int;
    lemma_div_is_ordered(e1 as int, e2 as int, p);
    lemma_mul_nonnegative(amount as int, rate as int);
    lemma_mul_inequality(e1 as int / p, e2 as int / p, amount as int * rate as int);
    lemma_div_is_ordered(
        amount as int * rate as int * (e1 as int / p),
        amount as int * rate as int * (e2 as int / p),
        RATE_SCALE as int,
    );
}

} // verus!
