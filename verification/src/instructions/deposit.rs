//! Adding liquidity to the pool.

use vstd::prelude::*;
use crate::error::AmmError;
use crate::guard::{check_deadline, check_ratio, check_unlocked, in_time, ratio_holds};
use crate::math::{isqrt, mul_div_ceil, widening_mul};
use crate::shares::{deposit_share, initial_claims, lemma_initial_claims_positive};
use crate::state::config::Config;
use crate::state::reserve::ReserveState;

verus! {

/// A request to deposit. It is used once.
#[derive(Clone, Copy, Debug, PartialEq, Eq)]
pub struct DepositRequest {
    /// The claim tokens asked for. The first deposit into a pool does not read
    /// it.
    pub claim_amount: u64,
    /// The most the depositor will pay of asset X.
    pub max_x: u64,
    /// The most the depositor will pay of asset Y.
    pub max_y: u64,
    /// The last moment at which the request may run.
    pub deadline: i64,
}

/// What a deposit that went through moves, and the balances it leaves.
#[derive(Clone, Copy, Debug, PartialEq, Eq)]
pub struct DepositOutcome {
    /// Goes from the depositor into custody, of asset X.
    pub x_used: u64,
    /// Goes from the depositor into custody, of asset Y.
    pub y_used: u64,
    /// Claim tokens minted to the depositor.
    pub claims_minted: u64,
    /// The pool's balances once the transfers and the mint are made.
    pub reserve_after: ReserveState,
}

impl ReserveState {
    /// The balances once a deposit has brought `x` and `y` and minted
    /// `claims`.
    pub open spec fn after_deposit(&self, x: int, y: int, claims: int) -> ReserveState {
        ReserveState {
            reserve_x: (self.reserve_x + x) as u64,
            reserve_y: (self.reserve_y + y) as u64,
            claim_supply: (self.claim_supply + claims) as u64,
        }
    }
}

/// What the deposit takes of asset X. The first deposit into a pool takes all
/// that the depositor offers, and so sets the exchange ratio; a later one takes
/// the share that its claims stand for, rounded up.
pub open spec fn x_due(reserve: ReserveState, request: DepositRequest) -> int {
    if reserve.claim_supply == 0 {
        request.max_x as int
    } else {
        deposit_share(
            request.claim_amount as int,
            reserve.reserve_x as int,
            reserve.claim_supply as int,
        )
    }
}

/// What the deposit takes of asset Y: as [`x_due`].
pub open spec fn y_due(reserve: ReserveState, request: DepositRequest) -> int {
    if reserve.claim_supply == 0 {
        request.max_y as int
    } else {
        deposit_share(
            request.claim_amount as int,
            reserve.reserve_y as int,
            reserve.claim_supply as int,
        )
    }
}

/// The claim tokens that the deposit mints. The first deposit into a pool
/// mints the integer square root of the product of the two amounts it brings,
/// whatever the request asks for; a later one mints what the request asks for.
pub open spec fn claims_due(reserve: ReserveState, request: DepositRequest) -> int {
    if reserve.claim_supply == 0 {
        initial_claims(request.max_x as int, request.max_y as int)
    } else {
        request.claim_amount as int
    }
}

/// The answer to a deposit request, for every pool, snapshot, request and time.
///
/// The checks come in this order, and the first that fails decides: the
/// deadline, the lock, the depositor's bounds, the range of the balances, the
/// exchange ratio. The ratio is checked only while claims are outstanding:
/// into a pool without claims the depositor brings the ratio.
pub open spec fn deposit_result(
    pool: Config,
    reserve: ReserveState,
    request: DepositRequest,
    now: i64,
) -> Result<DepositOutcome, AmmError> {
    let x = x_due(reserve, request);
    let y = y_due(reserve, request);
    let claims = claims_due(reserve, request);
    if !in_time(now, request.deadline) {
        Err(AmmError::Expired)
    } else if pool.locked {
        Err(AmmError::PoolLocked)
    } else if x > request.max_x || y > request.max_y {
        Err(AmmError::SlippageExceeded)
    } else if reserve.reserve_x + x > u64::MAX || reserve.reserve_y + y > u64::MAX
        || reserve.claim_supply + claims > u64::MAX {
        Err(AmmError::ArithmeticOverflow)
    } else if reserve.claim_supply > 0 && !ratio_holds(
        reserve.reserve_x as int,
        reserve.reserve_y as int,
        reserve.reserve_x + x,
        reserve.reserve_y + y,
    ) {
        Err(AmmError::InvariantViolation)
    } else {
        Ok(
            DepositOutcome {
                x_used: x as u64,
                y_used: y as u64,
                claims_minted: claims as u64,
                reserve_after: reserve.after_deposit(x, y, claims),
            },
        )
    }
}

/// Answers a deposit request against the balances as they stand at `now`.
///
/// On `Ok` the caller moves `x_used` and `y_used` from the depositor into
/// custody and mints `claims_minted` claim tokens to the depositor, all or
/// none. On `Err` nothing is to be moved.
pub fn execute_deposit(
    pool: &Config,
    reserve: &ReserveState,
    request: &DepositRequest,
    now: i64,
) -> (r: Result<DepositOutcome, AmmError>)
    ensures
        r == deposit_result(*pool, *reserve, *request, now),
        request.deadline < now ==> r == Err::<DepositOutcome, AmmError>(AmmError::Expired),
        pool.locked ==> r is Err,
        pool.locked && now <= request.deadline ==> r == Err::<DepositOutcome, AmmError>(
            AmmError::PoolLocked,
        ),
        r matches Ok(outcome) ==> {
            &&& outcome.x_used <= request.max_x
            &&& outcome.y_used <= request.max_y
            &&& reserve.claim_supply > 0 ==> ratio_holds(
                reserve.reserve_x as int,
                reserve.reserve_y as int,
                outcome.reserve_after.reserve_x as int,
                outcome.reserve_after.reserve_y as int,
            )
            &&& reserve.wf() ==> outcome.reserve_after.wf()
        },
{
    check_deadline(now, request.deadline)?;
    check_unlocked(pool)?;
    let first: bool = reserve.claim_supply == 0;
    let x_used: u64;
    let y_used: u64;
    let claims: u64;
    if first {
        x_used = request.max_x;
        y_used = request.max_y;
        claims = isqrt(widening_mul(request.max_x, request.max_y));
        proof {
            lemma_initial_claims_positive(request.max_x as int, request.max_y as int);
        }
    } else {
        let supply: u128 = reserve.claim_supply as u128;
        let x_share: u128 = mul_div_ceil(request.claim_amount, reserve.reserve_x, supply);
        let y_share: u128 = mul_div_ceil(request.claim_amount, reserve.reserve_y, supply);
        if x_share > request.max_x as u128 || y_share > request.max_y as u128 {
            return Err(AmmError::SlippageExceeded);
        }
        x_used = x_share as u64;
        y_used = y_share as u64;
        claims = request.claim_amount;
    }
    let new_x: u64 = match reserve.reserve_x.checked_add(x_used) {
        Some(sum) => sum,
        None => {
            return Err(AmmError::ArithmeticOverflow);
        },
    };
    let new_y: u64 = match reserve.reserve_y.checked_add(y_used) {
        Some(sum) => sum,
        None => {
            return Err(AmmError::ArithmeticOverflow);
        },
    };
    let new_supply: u64 = match reserve.claim_supply.checked_add(claims) {
        Some(sum) => sum,
        None => {
            return Err(AmmError::ArithmeticOverflow);
        },
    };
    if !first {
        check_ratio(reserve.reserve_x, reserve.reserve_y, new_x, new_y)?;
    }
    Ok(
        DepositOutcome {
            x_used,
            y_used,
            claims_minted: claims,
            reserve_after: ReserveState {
                reserve_x: new_x,
                reserve_y: new_y,
                claim_supply: new_supply,
            },
        },
    )
}

} // verus!
