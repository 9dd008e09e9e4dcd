//! The ways in which a request can fail.

use vstd::prelude::*;

verus! {

/// Why a request was turned down. A request that fails has changed nothing.
#[derive(Clone, Copy, Debug, PartialEq, Eq, Structural)]
pub enum AmmError {
    /// The fee is above one hundred percent.
    InvalidFee,
    /// Both sides of the pool name the same asset.
    InvalidAssetPair,
    /// No pool is registered under the given seed.
    PoolNotFound,
    /// A pool is already registered under the given seed.
    AlreadyExists,
    /// The caller is not the pool's authority, or the pool has none.
    Unauthorized,
    /// The pool is locked.
    PoolLocked,
    /// The request's deadline has passed.
    Expired,
    /// An amount that must be positive is zero.
    InvalidAmount,
    /// The result lies outside the bounds that the caller set.
    SlippageExceeded,
    /// The pool cannot pay out anything, or would be drained.
    InsufficientLiquidity,
    /// The holder owns fewer claim tokens than the request burns.
    InsufficientClaims,
    /// A balance would leave the range of a 64-bit unsigned integer.
    ArithmeticOverflow,
    /// The balances read, or the balances that would result, break a rule of
    /// the pool.
    InvariantViolation,
}

} // verus!
