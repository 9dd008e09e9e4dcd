//! Swapping one asset of the pool for the other.

use vstd::prelude::*;
use crate::constants::{BASIS_POINTS, MAX_FEE_BASIS_POINTS};
use crate::curve::{
    input_after_fee, lemma_curve_output_bounds, lemma_input_after_fee_bounds,
    lemma_product_never_decreases, swap_output,
};
use crate::error::AmmError;
use crate::guard::{check_deadline, check_product, check_unlocked, in_time, product_holds};
use crate::math::mul_div_floor;
use crate::state::config::Config;
use crate::state::reserve::ReserveState;

verus! {

/// Which asset a swap brings, and which it takes.
#[derive(Clone, Copy, Debug, PartialEq, Eq, Structural)]
pub enum Direction {
    /// Asset X comes in, asset Y goes out.
    XToY,
    /// Asset Y comes in, asset X goes out.
    YToX,
}

/// A request to swap. It is used once.
#[derive(Clone, Copy, Debug, PartialEq, Eq)]
pub struct SwapRequest {
    pub direction: Direction,
    /// How much of the incoming asset the swapper hands over, fee included.
    pub input_amount: u64,
    /// The least the swapper will accept of the outgoing asset.
    pub min_output: u64,
    /// The last moment at which the request may run.
    pub deadline: i64,
}

/// What a swap that went through moves, and the balances it leaves.
#[derive(Clone, Copy, Debug, PartialEq, Eq)]
pub struct SwapOutcome {
    pub direction: Direction,
    /// Goes from the swapper into custody.
    pub input_amount: u64,
    /// Goes from custody to the swapper.
    pub output_amount: u64,
    /// The pool's balances once both transfers are made.
    pub reserve_after: ReserveState,
}

impl Direction {
    /// The direction that brings X if `is_x` holds, and Y if not.
    pub fn from_is_x(is_x: bool) -> (d: Direction)
        ensures
            d == (if is_x {
                Direction::XToY
            } else {
                Direction::YToX
            }),
    {
        if is_x {
            Direction::XToY
        } else {
            Direction::YToX
        }
    }
}

impl ReserveState {
    /// The balance of the asset that a swap in `direction` brings.
    pub open spec fn reserve_in(&self, direction: Direction) -> u64 {
        match direction {
            Direction::XToY => self.reserve_x,
            Direction::YToX => self.reserve_y,
        }
    }

    /// The balance of the asset that a swap in `direction` takes.
    pub open spec fn reserve_out(&self, direction: Direction) -> u64 {
        match direction {
            Direction::XToY => self.reserve_y,
            Direction::YToX => self.reserve_x,
        }
    }

    /// The balances once `input` has come in and `output` has gone out in
    /// `direction`. The claim supply stays.
    pub open spec fn after_swap(&self, direction: Direction, input: int, output: int)
        -> ReserveState {
        match direction {
            Direction::XToY => ReserveState {
                reserve_x: (self.reserve_x + input) as u64,
                reserve_y: (self.reserve_y - output) as u64,
                claim_supply: self.claim_supply,
            },
            Direction::YToX => ReserveState {
                reserve_x: (self.reserve_x - output) as u64,
                reserve_y: (self.reserve_y + input) as u64,
                claim_supply: self.claim_supply,
            },
        }
    }
}

/// What a swap pays out: the curve's price for the input less the pool's fee.
pub open spec fn quoted_output(pool: Config, reserve: ReserveState, request: SwapRequest) -> int {
    swap_output(
        reserve.reserve_in(request.direction) as int,
        reserve.reserve_out(request.direction) as int,
        request.input_amount as int,
        pool.fee as int,
    )
}

/// The answer to a swap request, for every pool, snapshot, request and time.
///
/// The checks come in this order, and the first that fails decides: the
/// deadline, the lock, the input, the swapper's bound, the pool's liquidity,
/// the range of the balance that grows.
pub open spec fn swap_result(
    pool: Config,
    reserve: ReserveState,
    request: SwapRequest,
    now: i64,
) -> Result<SwapOutcome, AmmError> {
    let output = quoted_output(pool, reserve, request);
    if !in_time(now, request.deadline) {
        Err(AmmError::Expired)
    } else if pool.locked {
        Err(AmmError::PoolLocked)
    } else if request.input_amount == 0 {
        Err(AmmError::InvalidAmount)
    } else if output < request.min_output {
        Err(AmmError::SlippageExceeded)
    } else if output == 0 || output >= reserve.reserve_out(request.direction) {
        Err(AmmError::InsufficientLiquidity)
    } else if reserve.reserve_in(request.direction) + request.input_amount > u64::MAX {
        Err(AmmError::ArithmeticOverflow)
    } else {
        Ok(
            SwapOutcome {
                direction: request.direction,
                input_amount: request.input_amount,
                output_amount: output as u64,
                reserve_after: reserve.after_swap(
                    request.direction,
                    request.input_amount as int,
                    output,
                ),
            },
        )
    }
}

/// What a swap of `input_amount` pays out of a pool that holds `reserve_in` of
/// the incoming asset and `reserve_out` of the outgoing one, at a fee of `fee`
/// basis points.
pub fn compute_output(reserve_in: u64, reserve_out: u64, input_amount: u64, fee: u16) -> (output:
    u64)
    requires
        fee <= MAX_FEE_BASIS_POINTS,
    ensures
        output == swap_output(
            reserve_in as int,
            reserve_out as int,
            input_amount as int,
            fee as int,
        ),
        output <= reserve_out,
{
    let kept: u64 = BASIS_POINTS - (fee as u64);
    let effective: u128 = mul_div_floor(input_amount, kept, BASIS_POINTS as u128);
    proof {
        lemma_input_after_fee_bounds(input_amount as int, fee as int);
        lemma_curve_output_bounds(reserve_in as int, reserve_out as int, effective as int);
    }
    let effective: u64 = effective as u64;
    let reach: u128 = (reserve_in as u128) + (effective as u128);
    if reach == 0 {
        0
    } else {
        let output: u128 = mul_div_floor(reserve_out, effective, reach);
        output as u64
    }
}

/// Answers a swap request against the balances as they stand at `now`.
///
/// On `Ok` the caller moves `input_amount` of the incoming asset into custody
/// and `output_amount` of the outgoing asset out of it, both or neither. On
/// `Err` nothing is to be moved.
pub fn execute_swap(pool: &Config, reserve: &ReserveState, request: &SwapRequest, now: i64) -> (r:
    Result<SwapOutcome, AmmError>)
    requires
        pool.wf(),
    ensures
        r == swap_result(*pool, *reserve, *request, now),
        request.deadline < now ==> r == Err::<SwapOutcome, AmmError>(AmmError::Expired),
        pool.locked ==> r is Err,
        pool.locked && now <= request.deadline ==> r == Err::<SwapOutcome, AmmError>(
            AmmError::PoolLocked,
        ),
        r matches Ok(outcome) ==> {
            &&& 0 < outcome.output_amount < reserve.reserve_out(request.direction)
            &&& outcome.output_amount >= request.min_output
            &&& product_holds(
                reserve.reserve_in(request.direction) as int,
                reserve.reserve_out(request.direction) as int,
                outcome.reserve_after.reserve_in(request.direction) as int,
                outcome.reserve_after.reserve_out(request.direction) as int,
            )
            &&& reserve.wf() ==> outcome.reserve_after.wf()
        },
{
    check_deadline(now, request.deadline)?;
    check_unlocked(pool)?;
    if request.input_amount == 0 {
        return Err(AmmError::InvalidAmount);
    }
    let (reserve_in, reserve_out) = match request.direction {
        Direction::XToY => (reserve.reserve_x, reserve.reserve_y),
        Direction::YToX => (reserve.reserve_y, reserve.reserve_x),
    };
    let output: u64 = compute_output(reserve_in, reserve_out, request.input_amount, pool.fee);
    if output < request.min_output {
        return Err(AmmError::SlippageExceeded);
    }
    if output == 0 || output >= reserve_out {
        return Err(AmmError::InsufficientLiquidity);
    }
    let new_in: u64 = match reserve_in.checked_add(request.input_amount) {
        Some(sum) => sum,
        None => {
            return Err(AmmError::ArithmeticOverflow);
        },
    };
    let new_out: u64 = reserve_out - output;
    proof {
        lemma_input_after_fee_bounds(request.input_amount as int, pool.fee as int);
        lemma_product_never_decreases(
            reserve_in as int,
            reserve_out as int,
            request.input_amount as int,
            input_after_fee(request.input_amount as int, pool.fee as int),
        );
    }
    check_product(reserve_in, reserve_out, new_in, new_out)?;
    let reserve_after = match request.direction {
        Direction::XToY => ReserveState {
            reserve_x: new_in,
            reserve_y: new_out,
            claim_supply: reserve.claim_supply,
        },
        Direction::YToX => ReserveState {
            reserve_x: new_out,
            reserve_y: new_in,
            claim_supply: reserve.claim_supply,
        },
    };
    Ok(
        SwapOutcome {
            direction: request.direction,
            input_amount: request.input_amount,
            output_amount: output,
            reserve_after,
        },
    )
}

} // verus!
