//! Taking liquidity out of the pool.

use vstd::prelude::*;
use crate::error::AmmError;
use crate::guard::{check_deadline, in_time};
use crate::math::mul_div_floor;
use crate::shares::{lemma_withdraw_share_bounds, withdraw_share};
use crate::state::reserve::ReserveState;

verus! {

/// A request to withdraw. It is used once.
#[derive(Clone, Copy, Debug, PartialEq, Eq)]
pub struct WithdrawRequest {
    /// The claim tokens to burn.
    pub claim_amount: u64,
    /// The least the holder will accept of asset X.
    pub min_x: u64,
    /// The least the holder will accept of asset Y.
    pub min_y: u64,
    /// The last moment at which the request may run.
    pub deadline: i64,
}

/// What a withdrawal that went through moves, and the balances it leaves.
#[derive(Clone, Copy, Debug, PartialEq, Eq)]
pub struct WithdrawOutcome {
    /// Goes from custody to the holder, of asset X.
    pub x_returned: u64,
    /// Goes from custody to the holder, of asset Y.
    pub y_returned: u64,
    /// Claim tokens burned from the holder.
    pub claims_burned: u64,
    /// The pool's balances once the transfers and the burn are made.
    pub reserve_after: ReserveState,
}

impl ReserveState {
    /// The balances once a withdrawal has returned `x` and `y` and burned
    /// `claims`.
    pub open spec fn after_withdraw(&self, x: int, y: int, claims: int) -> ReserveState {
        ReserveState {
            reserve_x: (self.reserve_x - x) as u64,
            reserve_y: (self.reserve_y - y) as u64,
            claim_supply: (self.claim_supply - claims) as u64,
        }
    }
}

/// What the withdrawal returns of asset X: the share that the burned claims
/// stand for, rounded down.
pub open spec fn x_owed(reserve: ReserveState, request: WithdrawRequest) -> int {
    withdraw_share(
        request.claim_amount as int,
        reserve.reserve_x as int,
        reserve.claim_supply as int,
    )
}

/// What the withdrawal returns of asset Y: as [`x_owed`].
pub open spec fn y_owed(reserve: ReserveState, request: WithdrawRequest) -> int {
    withdraw_share(
        request.claim_amount as int,
        reserve.reserve_y as int,
        reserve.claim_supply as int,
    )
}

/// The answer to a withdrawal request, for every snapshot, request, holder and
/// time. `holder_claims` is what the holder owns of claim tokens.
///
/// The checks come in this order, and the first that fails decides: the
/// deadline, the holder's claims, the claim supply, the holder's bounds. A
/// holder with more claims than the supply counts is a snapshot that cannot
/// be: it is answered with `InvariantViolation`. The lock is not asked: a
/// locked pool still pays its holders out.
pub open spec fn withdraw_result(
    reserve: ReserveState,
    request: WithdrawRequest,
    holder_claims: u64,
    now: i64,
) -> Result<WithdrawOutcome, AmmError> {
    let x = x_owed(reserve, request);
    let y = y_owed(reserve, request);
    if !in_time(now, request.deadline) {
        Err(AmmError::Expired)
    } else if holder_claims < request.claim_amount {
        Err(AmmError::InsufficientClaims)
    } else if request.claim_amount > reserve.claim_supply {
        Err(AmmError::InvariantViolation)
    } else if x < request.min_x || y < request.min_y {
        Err(AmmError::SlippageExceeded)
    } else {
        Ok(
            WithdrawOutcome {
                x_returned: x as u64,
                y_returned: y as u64,
                claims_burned: request.claim_amount,
                reserve_after: reserve.after_withdraw(x, y, request.claim_amount as int),
            },
        )
    }
}

/// Answers a withdrawal request against the balances as they stand at `now`.
///
/// On `Ok` the caller burns `claims_burned` claim tokens from the holder and
/// moves `x_returned` and `y_returned` out of custody to the holder, all or
/// none. On `Err` nothing is to be moved.
pub fn execute_withdraw(
    reserve: &ReserveState,
    request: &WithdrawRequest,
    holder_claims: u64,
    now: i64,
) -> (r: Result<WithdrawOutcome, AmmError>)
    ensures
        r == withdraw_result(*reserve, *request, holder_claims, now),
        request.deadline < now ==> r == Err::<WithdrawOutcome, AmmError>(AmmError::Expired),
        r matches Ok(outcome) ==> {
            &&& outcome.x_returned <= reserve.reserve_x
            &&& outcome.y_returned <= reserve.reserve_y
            &&& outcome.x_returned >= request.min_x
            &&& outcome.y_returned >= request.min_y
            &&& reserve.wf() ==> outcome.reserve_after.wf()
        },
{
    check_deadline(now, request.deadline)?;
    if holder_claims < request.claim_amount {
        return Err(AmmError::InsufficientClaims);
    }
    if request.claim_amount > reserve.claim_supply {
        return Err(AmmError::InvariantViolation);
    }
    proof {
        lemma_withdraw_share_bounds(
            request.claim_amount as int,
            reserve.reserve_x as int,
            reserve.claim_supply as int,
        );
        lemma_withdraw_share_bounds(
            request.claim_amount as int,
            reserve.reserve_y as int,
            reserve.claim_supply as int,
        );
    }
    let x_returned: u64;
    let y_returned: u64;
    if reserve.claim_supply == 0 {
        x_returned = 0;
        y_returned = 0;
    } else {
        let supply: u128 = reserve.claim_supply as u128;
        x_returned = mul_div_floor(request.claim_amount, reserve.reserve_x, supply) as u64;
        y_returned = mul_div_floor(request.claim_amount, reserve.reserve_y, supply) as u64;
    }
    if x_returned < request.min_x || y_returned < request.min_y {
        return Err(AmmError::SlippageExceeded);
    }
    Ok(
        WithdrawOutcome {
            x_returned,
            y_returned,
            claims_burned: request.claim_amount,
            reserve_after: ReserveState {
                reserve_x: reserve.reserve_x - x_returned,
                reserve_y: reserve.reserve_y - y_returned,
                claim_supply: reserve.claim_supply - request.claim_amount,
            },
        },
    )
}

} // verus!
