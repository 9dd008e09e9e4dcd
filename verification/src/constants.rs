//! Fixed parameters of the pool.

use vstd::prelude::*;

verus! {

/// One hundred percent, in basis points. No pool charges a larger fee.
pub const MAX_FEE_BASIS_POINTS: u16 = 10000;

/// The denominator of a fee: a fee of `f` basis points keeps `f / 10000` of a
/// swap's input.
pub const BASIS_POINTS: u64 = 10000;

/// A deposit may move the exchange ratio by at most one part in this many.
pub const RATIO_TOLERANCE_DIVISOR: u64 = 10000;

} // verus!
