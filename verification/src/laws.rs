//! What holds of the pool whatever is asked of it.
//!
//! Each law is stated over the same functions that the operations' own
//! contracts use, so that it holds of every answer the library gives.

use vstd::prelude::*;
use crate::constants::RATIO_TOLERANCE_DIVISOR;
use crate::curve::{
    curve_output, input_after_fee, lemma_curve_output_bounds, lemma_curve_output_monotonic,
    lemma_input_after_fee_bounds, lemma_product_never_decreases, swap_output,
};
use crate::error::AmmError;
use crate::guard::{product_holds, ratio_drift};
use crate::instructions::deposit::{
    claims_due, deposit_result, x_due, y_due, DepositOutcome, DepositRequest,
};
use crate::instructions::swap::{swap_result, SwapOutcome, SwapRequest};
use crate::instructions::withdraw::{withdraw_result, WithdrawOutcome, WithdrawRequest};
use crate::shares::{
    deposit_share, lemma_deposit_share_bounds, lemma_initial_claims_positive, lemma_round_trip,
    lemma_withdraw_share_bounds, withdraw_share,
};
use crate::state::config::Config;
use crate::state::reserve::ReserveState;

verus! {

/// No swap lowers the product of the reserves: after every swap that goes
/// through, the balance of the asset that came in times the balance of the
/// asset that went out is at least what it was before.
pub proof fn swap_never_lowers_product(
    pool: Config,
    reserve: ReserveState,
    request: SwapRequest,
    now: i64,
)
    requires
        pool.wf(),
        swap_result(pool, reserve, request, now) is Ok,
    ensures
        ({
            let after = swap_result(pool, reserve, request, now)->Ok_0.reserve_after;
            product_holds(
                reserve.reserve_in(request.direction) as int,
                reserve.reserve_out(request.direction) as int,
                after.reserve_in(request.direction) as int,
                after.reserve_out(request.direction) as int,
            )
        }),
{
    let reserve_in = reserve.reserve_in(request.direction) as int;
    let reserve_out = reserve.reserve_out(request.direction) as int;
    let input = request.input_amount as int;
    lemma_input_after_fee_bounds(input, pool.fee as int);
    lemma_product_never_decreases(
        reserve_in,
        reserve_out,
        input,
        input_after_fee(input, pool.fee as int),
    );
}

/// A swap leaves a pool that has claims outstanding with some of each asset,
/// and so does a deposit and a withdrawal.
pub proof fn balances_stay_well_formed(
    pool: Config,
    reserve: ReserveState,
    swap: SwapRequest,
    deposit: DepositRequest,
    withdrawal: WithdrawRequest,
    holder_claims: u64,
    now: i64,
)
    requires
        pool.wf(),
        reserve.wf(),
    ensures
        swap_result(pool, reserve, swap, now) matches Ok(outcome) ==> outcome.reserve_after.wf(),
        deposit_result(pool, reserve, deposit, now) matches Ok(outcome)
            ==> outcome.reserve_after.wf(),
        withdraw_result(reserve, withdrawal, holder_claims, now) matches Ok(outcome)
            ==> outcome.reserve_after.wf(),
{
    lemma_initial_claims_positive(deposit.max_x as int, deposit.max_y as int);
    if withdrawal.claim_amount <= reserve.claim_supply {
        lemma_withdraw_share_bounds(
            withdrawal.claim_amount as int,
            reserve.reserve_x as int,
            reserve.claim_supply as int,
        );
        lemma_withdraw_share_bounds(
            withdrawal.claim_amount as int,
            reserve.reserve_y as int,
            reserve.claim_supply as int,
        );
    }
}

/// Whether a deposit into this snapshot is one of which the round trip below
/// is claimed. Left out is the first deposit into a pool that already holds
/// assets but no claims: its claims stand for all the pool holds, the assets
/// found there included.
pub open spec fn round_trip_applies(reserve: ReserveState, deposit: DepositRequest) -> bool {
    ||| reserve.claim_supply > 0
    ||| claims_due(reserve, deposit) == 0
    ||| (reserve.reserve_x == 0 && reserve.reserve_y == 0)
}

/// Whoever deposits and at once burns the claims that the deposit minted gets
/// back no more than was paid, of either asset.
pub proof fn deposit_then_withdraw_returns_no_more(
    pool: Config,
    reserve: ReserveState,
    deposit: DepositRequest,
    withdrawal: WithdrawRequest,
    holder_claims: u64,
    now: i64,
    later: i64,
)
    requires
        round_trip_applies(reserve, deposit),
        deposit_result(pool, reserve, deposit, now) is Ok,
        withdrawal.claim_amount == deposit_result(pool, reserve, deposit, now)->Ok_0.claims_minted,
        withdraw_result(
            deposit_result(pool, reserve, deposit, now)->Ok_0.reserve_after,
            withdrawal,
            holder_claims,
            later,
        ) is Ok,
    ensures
        ({
            let paid = deposit_result(pool, reserve, deposit, now)->Ok_0;
            let returned = withdraw_result(
                paid.reserve_after,
                withdrawal,
                holder_claims,
                later,
            )->Ok_0;
            &&& returned.x_returned <= paid.x_used
            &&& returned.y_returned <= paid.y_used
        }),
{
    let paid = deposit_result(pool, reserve, deposit, now)->Ok_0;
    let supply = reserve.claim_supply as int;
    let claims = paid.claims_minted as int;
    assert(paid.x_used == x_due(reserve, deposit));
    assert(paid.y_used == y_due(reserve, deposit));
    assert(claims == claims_due(reserve, deposit));
    if supply > 0 {
        lemma_deposit_share_bounds(claims, reserve.reserve_x as int, supply);
        lemma_deposit_share_bounds(claims, reserve.reserve_y as int, supply);
        lemma_round_trip(claims, reserve.reserve_x as int, supply);
        lemma_round_trip(claims, reserve.reserve_y as int, supply);
    } else {
        lemma_initial_claims_positive(deposit.max_x as int, deposit.max_y as int);
        lemma_withdraw_share_bounds(claims, paid.reserve_after.reserve_x as int, claims);
        lemma_withdraw_share_bounds(claims, paid.reserve_after.reserve_y as int, claims);
    }
}

/// Into a pool that has claims outstanding, whoever deposits and at once burns
/// the claims loses at most one unit of each asset to rounding.
pub proof fn deposit_then_withdraw_loses_at_most_one(
    pool: Config,
    reserve: ReserveState,
    deposit: DepositRequest,
    withdrawal: WithdrawRequest,
    holder_claims: u64,
    now: i64,
    later: i64,
)
    requires
        reserve.claim_supply > 0,
        deposit_result(pool, reserve, deposit, now) is Ok,
        withdrawal.claim_amount == deposit_result(pool, reserve, deposit, now)->Ok_0.claims_minted,
        withdraw_result(
            deposit_result(pool, reserve, deposit, now)->Ok_0.reserve_after,
            withdrawal,
            holder_claims,
            later,
        ) is Ok,
    ensures
        ({
            let paid = deposit_result(pool, reserve, deposit, now)->Ok_0;
            let returned = withdraw_result(
                paid.reserve_after,
                withdrawal,
                holder_claims,
                later,
            )->Ok_0;
            &&& paid.x_used - returned.x_returned <= 1
            &&& paid.y_used - returned.y_returned <= 1
        }),
{
    let supply = reserve.claim_supply as int;
    let claims = deposit.claim_amount as int;
    lemma_deposit_share_bounds(claims, reserve.reserve_x as int, supply);
    lemma_deposit_share_bounds(claims, reserve.reserve_y as int, supply);
    lemma_round_trip(claims, reserve.reserve_x as int, supply);
    lemma_round_trip(claims, reserve.reserve_y as int, supply);
}

/// Each claim stands for at least as much of both assets in `after` as it did
/// in `before`: `reserve / claim_supply` has not fallen, written without the
/// division.
pub open spec fn backing_holds(before: ReserveState, after: ReserveState) -> bool {
    &&& after.reserve_x * before.claim_supply >= before.reserve_x * after.claim_supply
    &&& after.reserve_y * before.claim_supply >= before.reserve_y * after.claim_supply
}

/// A deposit into a pool that has claims outstanding never lowers what a claim
/// stands for: the depositor pays the share rounded up, and those who held
/// claims before lose nothing to the newcomer.
pub proof fn deposit_never_dilutes(
    pool: Config,
    reserve: ReserveState,
    deposit: DepositRequest,
    now: i64,
)
    requires
        reserve.claim_supply > 0,
        deposit_result(pool, reserve, deposit, now) is Ok,
    ensures
        backing_holds(reserve, deposit_result(pool, reserve, deposit, now)->Ok_0.reserve_after),
{
    let supply = reserve.claim_supply as int;
    let claims = deposit.claim_amount as int;
    let big_x = reserve.reserve_x as int;
    let big_y = reserve.reserve_y as int;
    let x = deposit_share(claims, big_x, supply);
    let y = deposit_share(claims, big_y, supply);
    lemma_deposit_share_bounds(claims, big_x, supply);
    lemma_deposit_share_bounds(claims, big_y, supply);
    assert((big_x + x) * supply >= big_x * (supply + claims)) by (nonlinear_arith)
        requires
            x * supply >= claims * big_x,
    ;
    assert((big_y + y) * supply >= big_y * (supply + claims)) by (nonlinear_arith)
        requires
            y * supply >= claims * big_y,
    ;
}

/// A withdrawal never lowers what a claim stands for: the holder takes the
/// share rounded down, and those who stay lose nothing to the one who leaves.
pub proof fn withdrawal_never_dilutes(
    reserve: ReserveState,
    withdrawal: WithdrawRequest,
    holder_claims: u64,
    now: i64,
)
    requires
        withdraw_result(reserve, withdrawal, holder_claims, now) is Ok,
    ensures
        backing_holds(
            reserve,
            withdraw_result(reserve, withdrawal, holder_claims, now)->Ok_0.reserve_after,
        ),
{
    let supply = reserve.claim_supply as int;
    let claims = withdrawal.claim_amount as int;
    let big_x = reserve.reserve_x as int;
    let big_y = reserve.reserve_y as int;
    let x = withdraw_share(claims, big_x, supply);
    let y = withdraw_share(claims, big_y, supply);
    lemma_withdraw_share_bounds(claims, big_x, supply);
    lemma_withdraw_share_bounds(claims, big_y, supply);
    assert((big_x - x) * supply >= big_x * (supply - claims)) by (nonlinear_arith)
        requires
            x * supply <= claims * big_x,
    ;
    assert((big_y - y) * supply >= big_y * (supply - claims)) by (nonlinear_arith)
        requires
            y * supply <= claims * big_y,
    ;
}

/// A fee never buys more: at any fee a swap pays out at most what it would pay
/// out at no fee.
pub proof fn fee_never_raises_output(reserve_in: u64, reserve_out: u64, input: u64, fee: u16)
    requires
        fee <= 10000,
    ensures
        swap_output(reserve_in as int, reserve_out as int, input as int, fee as int)
            <= swap_output(reserve_in as int, reserve_out as int, input as int, 0),
{
    lemma_input_after_fee_bounds(input as int, fee as int);
    lemma_input_after_fee_bounds(input as int, 0);
    lemma_curve_output_monotonic(
        reserve_in as int,
        reserve_out as int,
        input_after_fee(input as int, fee as int),
        input as int,
    );
}

/// At a positive fee a swap pays out strictly less than the curve's price for
/// the whole input: the payout `q` lies below the exact quotient
/// `reserve_out * input / (reserve_in + input)`, which is to say
/// `q * (reserve_in + input) < reserve_out * input`.
pub proof fn fee_keeps_output_below_curve(reserve_in: u64, reserve_out: u64, input: u64, fee: u16)
    requires
        0 < fee <= 10000,
        input > 0,
        reserve_in > 0,
        reserve_out > 0,
    ensures
        swap_output(reserve_in as int, reserve_out as int, input as int, fee as int) * (reserve_in
            + input) < reserve_out * input,
{
    let effective = input_after_fee(input as int, fee as int);
    let q = curve_output(reserve_in as int, reserve_out as int, effective);
    lemma_input_after_fee_bounds(input as int, fee as int);
    lemma_curve_output_bounds(reserve_in as int, reserve_out as int, effective);
    assert(q * (reserve_in + input) < reserve_out * input) by (nonlinear_arith)
        requires
            q * (reserve_in + effective) <= reserve_out * effective,
            0 <= q < reserve_out,
            0 <= effective < input,
            0 < reserve_in,
    ;
}

/// A request whose deadline has passed is answered with `Expired`, whatever
/// else it holds and whatever state the pool is in.
pub proof fn expired_request_fails(
    pool: Config,
    reserve: ReserveState,
    swap: SwapRequest,
    deposit: DepositRequest,
    withdrawal: WithdrawRequest,
    holder_claims: u64,
    now: i64,
)
    ensures
        swap.deadline < now ==> swap_result(pool, reserve, swap, now) == Err::<
            SwapOutcome,
            AmmError,
        >(AmmError::Expired),
        deposit.deadline < now ==> deposit_result(pool, reserve, deposit, now) == Err::<
            DepositOutcome,
            AmmError,
        >(AmmError::Expired),
        withdrawal.deadline < now ==> withdraw_result(reserve, withdrawal, holder_claims, now)
            == Err::<WithdrawOutcome, AmmError>(AmmError::Expired),
{
}

/// Once the authority has locked the pool, every deposit and every swap
/// fails: with `PoolLocked` if it is in time, with `Expired` if it is not. Once
/// the authority has unlocked it, none fails with `PoolLocked`.
pub proof fn lock_decides(
    pool: Config,
    reserve: ReserveState,
    swap: SwapRequest,
    deposit: DepositRequest,
    now: i64,
)
    ensures
        swap_result(pool.with_lock(true), reserve, swap, now) == Err::<SwapOutcome, AmmError>(
            if swap.deadline < now {
                AmmError::Expired
            } else {
                AmmError::PoolLocked
            },
        ),
        deposit_result(pool.with_lock(true), reserve, deposit, now) == Err::<
            DepositOutcome,
            AmmError,
        >(
            if deposit.deadline < now {
                AmmError::Expired
            } else {
                AmmError::PoolLocked
            },
        ),
        swap_result(pool.with_lock(false), reserve, swap, now) != Err::<SwapOutcome, AmmError>(
            AmmError::PoolLocked,
        ),
        deposit_result(pool.with_lock(false), reserve, deposit, now) != Err::<
            DepositOutcome,
            AmmError,
        >(AmmError::PoolLocked),
{
}

/// The lock changes nothing but whether the pool answers: with the lock off,
/// a pool answers as it did before it was locked.
pub proof fn unlock_restores(
    pool: Config,
    reserve: ReserveState,
    swap: SwapRequest,
    deposit: DepositRequest,
    now: i64,
)
    requires
        !pool.locked,
    ensures
        swap_result(pool.with_lock(true).with_lock(false), reserve, swap, now) == swap_result(
            pool,
            reserve,
            swap,
            now,
        ),
        deposit_result(pool.with_lock(true).with_lock(false), reserve, deposit, now)
            == deposit_result(pool, reserve, deposit, now),
{
    assert(pool.with_lock(true).with_lock(false) == pool);
}

/// A deposit into a pool that holds at least `RATIO_TOLERANCE_DIVISOR` of each
/// asset never moves the exchange ratio beyond the tolerance: rounding alone
/// cannot trip the check there.
pub proof fn deep_pool_deposit_keeps_ratio(
    pool: Config,
    reserve: ReserveState,
    deposit: DepositRequest,
    now: i64,
)
    requires
        reserve.claim_supply > 0,
        reserve.reserve_x >= RATIO_TOLERANCE_DIVISOR,
        reserve.reserve_y >= RATIO_TOLERANCE_DIVISOR,
    ensures
        deposit_result(pool, reserve, deposit, now) != Err::<DepositOutcome, AmmError>(
            AmmError::InvariantViolation,
        ),
{
    let big_x = reserve.reserve_x as int;
    let big_y = reserve.reserve_y as int;
    let supply = reserve.claim_supply as int;
    let claims = deposit.claim_amount as int;
    let x = deposit_share(claims, big_x, supply);
    let y = deposit_share(claims, big_y, supply);
    lemma_deposit_share_bounds(claims, big_x, supply);
    lemma_deposit_share_bounds(claims, big_y, supply);
    let k = RATIO_TOLERANCE_DIVISOR as int;
    let a = x * supply - claims * big_x;
    let b = y * supply - claims * big_y;
    assert(0 <= a < supply && 0 <= b < supply) by (nonlinear_arith)
        requires
            a == x * supply - claims * big_x,
            b == y * supply - claims * big_y,
            x * supply >= claims * big_x,
            (x - 1) * supply < claims * big_x,
            y * supply >= claims * big_y,
            (y - 1) * supply < claims * big_y,
    ;
    let d = (big_y + y) * big_x - big_y * (big_x + x);
    assert(d == y * big_x - x * big_y) by (nonlinear_arith)
        requires
            d == (big_y + y) * big_x - big_y * (big_x + x),
    ;
    let paid_x = x * supply;
    let paid_y = y * supply;
    let exact = claims * big_x * big_y;
    assert(d * supply == paid_y * big_x - paid_x * big_y) by (nonlinear_arith)
        requires
            d == y * big_x - x * big_y,
            paid_x == x * supply,
            paid_y == y * supply,
    ;
    assert(paid_y * big_x == b * big_x + exact) by (nonlinear_arith)
        requires
            paid_y == b + claims * big_y,
            exact == claims * big_x * big_y,
    ;
    assert(paid_x * big_y == a * big_y + exact) by (nonlinear_arith)
        requires
            paid_x == a + claims * big_x,
            exact == claims * big_x * big_y,
    ;
    assert(d * supply == b * big_x - a * big_y);
    let drift = ratio_drift(big_x, big_y, big_x + x, big_y + y);
    assert(drift == if d >= 0 { d } else { -d });
    assert(drift * k <= big_y * (big_x + x)) by (nonlinear_arith)
        requires
            drift == if d >= 0 { d } else { -d },
            d * supply == b * big_x - a * big_y,
            0 <= a < supply,
            0 <= b < supply,
            big_x >= k,
            big_y >= k,
            k > 0,
            x >= 0,
    ;
}

} // verus!
