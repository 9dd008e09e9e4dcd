//! The operations that callers see. Each names its pool by the seed.
//!
//! None of them moves anything. An answer of `Ok` says what the caller is to
//! move, all of it or none; an answer of `Err` says that nothing is to be
//! moved, and the registry is then as it was.

use vstd::prelude::*;
use crate::address::Address;
use crate::error::AmmError;
use crate::instructions::deposit::{
    deposit_result, execute_deposit, DepositOutcome, DepositRequest,
};
use crate::instructions::initialize::{handler, handler_result};
use crate::instructions::swap::{execute_swap, swap_result, Direction, SwapOutcome, SwapRequest};
use crate::instructions::withdraw::{
    execute_withdraw, withdraw_result, WithdrawOutcome, WithdrawRequest,
};
use crate::state::config::Config;
use crate::state::registry::{keeps_identities, set_lock_result, Registry};
use crate::state::reserve::ReserveState;

verus! {

/// The answer to a request for a new pool: the seed under which it now stands,
/// or why it was turned down. A seed that is taken is turned down first, then
/// the fee, then the pair.
pub open spec fn initialize_result(
    pools: Map<u64, Config>,
    seed: u64,
    fee: u16,
    mint_x: Address,
    mint_y: Address,
) -> Result<u64, AmmError> {
    if pools.contains_key(seed) {
        Err(AmmError::AlreadyExists)
    } else {
        match handler_result(fee, mint_x, mint_y) {
            Ok(_) => Ok(seed),
            Err(e) => Err(e),
        }
    }
}

/// The request that a call of [`deposit`] stands for.
pub open spec fn deposit_request(amount: u64, max_x: u64, max_y: u64, expiration: i64)
    -> DepositRequest {
    DepositRequest { claim_amount: amount, max_x, max_y, deadline: expiration }
}

/// The request that a call of [`swap`] stands for.
pub open spec fn swap_request(is_x: bool, amount: u64, min: u64, expiration: i64) -> SwapRequest {
    SwapRequest {
        direction: if is_x {
            Direction::XToY
        } else {
            Direction::YToX
        },
        input_amount: amount,
        min_output: min,
        deadline: expiration,
    }
}

/// The request that a call of [`withdraw`] stands for.
pub open spec fn withdraw_request(amount: u64, min_x: u64, min_y: u64, expiration: i64)
    -> WithdrawRequest {
    WithdrawRequest { claim_amount: amount, min_x, min_y, deadline: expiration }
}

/// Creates a pool over `mint_x` and `mint_y` under `seed`, unlocked, and
/// answers with the seed.
pub fn initialize(
    registry: &mut Registry,
    seed: u64,
    fee: u16,
    authority: Option<Address>,
    mint_x: Address,
    mint_y: Address,
    auth_bump: u8,
    config_bump: u8,
    lp_bump: u8,
) -> (r: Result<u64, AmmError>)
    requires
        old(registry).wf(),
    ensures
        final(registry).wf(),
        r == initialize_result(old(registry)@, seed, fee, mint_x, mint_y),
        r is Ok ==> final(registry)@ == old(registry)@.insert(
            seed,
            Config {
                seed,
                authority,
                mint_x,
                mint_y,
                fee,
                locked: false,
                auth_bump,
                config_bump,
                lp_bump,
            },
        ),
        r is Err ==> final(registry)@ == old(registry)@,
        keeps_identities(old(registry)@, final(registry)@),
{
    if registry.contains(seed) {
        return Err(AmmError::AlreadyExists);
    }
    let mut config = Config::blank();
    handler(&mut config, seed, fee, authority, mint_x, mint_y, auth_bump, config_bump, lp_bump)?;
    registry.register(config)?;
    Ok(seed)
}

/// Locks or unlocks the pool under `seed` at its authority's word.
pub fn set_lock(registry: &mut Registry, seed: u64, new_locked: bool, caller: &Address) -> (r:
    Result<(), AmmError>)
    requires
        old(registry).wf(),
    ensures
        final(registry).wf(),
        r == set_lock_result(old(registry)@, seed, *caller),
        r is Ok ==> final(registry)@ == old(registry)@.insert(
            seed,
            old(registry)@[seed].with_lock(new_locked),
        ),
        r is Err ==> final(registry)@ == old(registry)@,
        keeps_identities(old(registry)@, final(registry)@),
{
    registry.set_lock(seed, new_locked, caller)
}

/// Answers a deposit into the pool under `seed`: `amount` claim tokens for at
/// most `max_x` and `max_y`, no later than `expiration`.
pub fn deposit(
    registry: &Registry,
    seed: u64,
    reserve: &ReserveState,
    amount: u64,
    max_x: u64,
    max_y: u64,
    expiration: i64,
    now: i64,
) -> (r: Result<DepositOutcome, AmmError>)
    ensures
        !registry@.contains_key(seed) ==> r == Err::<DepositOutcome, AmmError>(
            AmmError::PoolNotFound,
        ),
        registry@.contains_key(seed) ==> r == deposit_result(
            registry@[seed],
            *reserve,
            deposit_request(amount, max_x, max_y, expiration),
            now,
        ),
        registry@.contains_key(seed) && expiration < now ==> r == Err::<DepositOutcome, AmmError>(
            AmmError::Expired,
        ),
        registry@.contains_key(seed) && registry@[seed].locked && now <= expiration ==> r == Err::<
            DepositOutcome,
            AmmError,
        >(AmmError::PoolLocked),
{
    let pool = registry.get(seed)?;
    let request = DepositRequest { claim_amount: amount, max_x, max_y, deadline: expiration };
    execute_deposit(&pool, reserve, &request, now)
}

/// Answers a withdrawal from the pool under `seed`: `amount` claim tokens of
/// a holder who owns `holder_claims`, for at least `min_x` and `min_y`, no
/// later than `expiration`.
pub fn withdraw(
    registry: &Registry,
    seed: u64,
    reserve: &ReserveState,
    holder_claims: u64,
    amount: u64,
    min_x: u64,
    min_y: u64,
    expiration: i64,
    now: i64,
) -> (r: Result<WithdrawOutcome, AmmError>)
    ensures
        !registry@.contains_key(seed) ==> r == Err::<WithdrawOutcome, AmmError>(
            AmmError::PoolNotFound,
        ),
        registry@.contains_key(seed) ==> r == withdraw_result(
            *reserve,
            withdraw_request(amount, min_x, min_y, expiration),
            holder_claims,
            now,
        ),
        registry@.contains_key(seed) && expiration < now ==> r == Err::<WithdrawOutcome, AmmError>(
            AmmError::Expired,
        ),
{
    registry.get(seed)?;
    let request = WithdrawRequest { claim_amount: amount, min_x, min_y, deadline: expiration };
    execute_withdraw(reserve, &request, holder_claims, now)
}

/// Answers a swap against the pool under `seed`: `amount` of asset X if `is_x`
/// holds, of asset Y if not, for at least `min` of the other, no later than
/// `expiration`.
pub fn swap(
    registry: &Registry,
    seed: u64,
    reserve: &ReserveState,
    is_x: bool,
    amount: u64,
    min: u64,
    expiration: i64,
    now: i64,
) -> (r: Result<SwapOutcome, AmmError>)
    requires
        registry.wf(),
    ensures
        !registry@.contains_key(seed) ==> r == Err::<SwapOutcome, AmmError>(
            AmmError::PoolNotFound,
        ),
        registry@.contains_key(seed) ==> r == swap_result(
            registry@[seed],
            *reserve,
            swap_request(is_x, amount, min, expiration),
            now,
        ),
        registry@.contains_key(seed) && expiration < now ==> r == Err::<SwapOutcome, AmmError>(
            AmmError::Expired,
        ),
        registry@.contains_key(seed) && registry@[seed].locked && now <= expiration ==> r == Err::<
            SwapOutcome,
            AmmError,
        >(AmmError::PoolLocked),
{
    let pool = registry.get(seed)?;
    let request = SwapRequest {
        direction: Direction::from_is_x(is_x),
        input_amount: amount,
        min_output: min,
        deadline: expiration,
    };
    execute_swap(&pool, reserve, &request, now)
}

} // verus!
