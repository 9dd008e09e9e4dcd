//! The checks that every request passes before anything is moved.
//!
//! Products of two balances are formed in 128 bits, twice the width of a
//! balance, so that no overflow can hide a broken rule.

use vstd::prelude::*;
use crate::constants::RATIO_TOLERANCE_DIVISOR;
use crate::curve::{lemma_quotient_bounds, lemma_quotient_is_largest};
use crate::error::AmmError;
use crate::math::widening_mul;
use crate::state::config::Config;

verus! {

/// `Ok` where `holds`, and `error` where it does not.
pub open spec fn verdict(holds: bool, error: AmmError) -> Result<(), AmmError> {
    if holds {
        Ok(())
    } else {
        Err(error)
    }
}

/// A request is in time up to and including its deadline.
pub open spec fn in_time(now: i64, deadline: i64) -> bool {
    now <= deadline
}

/// The product of the two reserves after a swap is no smaller than before it.
pub open spec fn product_holds(old_in: int, old_out: int, new_in: int, new_out: int) -> bool {
    new_in * new_out >= old_in * old_out
}

/// How far the exchange ratio `y / x` has moved, times both old and new `x`:
/// the distance between `new_y / new_x` and `old_y / old_x`, cleared of
/// fractions.
pub open spec fn ratio_drift(old_x: int, old_y: int, new_x: int, new_y: int) -> int {
    let d = new_y * old_x - old_y * new_x;
    if d >= 0 {
        d
    } else {
        -d
    }
}

/// The exchange ratio `y / x` has moved by no more than one part in
/// `RATIO_TOLERANCE_DIVISOR` of what it was.
pub open spec fn ratio_holds(old_x: int, old_y: int, new_x: int, new_y: int) -> bool {
    ratio_drift(old_x, old_y, new_x, new_y) * RATIO_TOLERANCE_DIVISOR <= old_y * new_x
}

/// Turns a request down once its deadline has passed.
pub fn check_deadline(now: i64, deadline: i64) -> (r: Result<(), AmmError>)
    ensures
        r == verdict(in_time(now, deadline), AmmError::Expired),
{
    if now <= deadline {
        Ok(())
    } else {
        Err(AmmError::Expired)
    }
}

/// Turns a request down while the pool is locked.
pub fn check_unlocked(pool: &Config) -> (r: Result<(), AmmError>)
    ensures
        r == verdict(!pool.locked, AmmError::PoolLocked),
{
    if pool.locked {
        Err(AmmError::PoolLocked)
    } else {
        Ok(())
    }
}

/// Turns a swap down if it would lower the product of the reserves.
pub fn check_product(old_in: u64, old_out: u64, new_in: u64, new_out: u64) -> (r: Result<
    (),
    AmmError,
>)
    ensures
        r == verdict(
            product_holds(old_in as int, old_out as int, new_in as int, new_out as int),
            AmmError::InvariantViolation,
        ),
{
    let before: u128 = widening_mul(old_in, old_out);
    let after: u128 = widening_mul(new_in, new_out);
    if after >= before {
        Ok(())
    } else {
        Err(AmmError::InvariantViolation)
    }
}

/// Turns a deposit down if it would move the exchange ratio by more than the
/// tolerance.
pub fn check_ratio(old_x: u64, old_y: u64, new_x: u64, new_y: u64) -> (r: Result<(), AmmError>)
    ensures
        r == verdict(
            ratio_holds(old_x as int, old_y as int, new_x as int, new_y as int),
            AmmError::InvariantViolation,
        ),
{
    let crossed_new: u128 = widening_mul(new_y, old_x);
    let crossed_old: u128 = widening_mul(old_y, new_x);
    let drift: u128 = if crossed_new >= crossed_old {
        crossed_new - crossed_old
    } else {
        crossed_old - crossed_new
    };
    let allowed: u128 = crossed_old / (RATIO_TOLERANCE_DIVISOR as u128);
    proof {
        let k = RATIO_TOLERANCE_DIVISOR as int;
        assert(drift == ratio_drift(old_x as int, old_y as int, new_x as int, new_y as int));
        lemma_quotient_bounds(crossed_old as int, k);
        if drift <= allowed {
            assert(drift * k <= crossed_old) by (nonlinear_arith)
                requires
                    0 <= drift <= allowed,
                    allowed * k <= crossed_old,
                    k > 0,
            ;
        } else {
            if drift * k <= crossed_old {
                lemma_quotient_is_largest(crossed_old as int, k, drift as int);
            }
        }
    }
    if drift <= allowed {
        Ok(())
    } else {
        Err(AmmError::InvariantViolation)
    }
}

} // verus!
