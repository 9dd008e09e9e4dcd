//! A snapshot of the balances that the custody layer holds for one pool.

use vstd::prelude::*;

verus! {

/// The pool's balances at one moment: what it holds of each asset, and how many
/// claim tokens are outstanding. The pool never keeps these: each request
/// brings the balances as they stand when it runs.
#[derive(Clone, Copy, Debug, PartialEq, Eq)]
pub struct ReserveState {
    pub reserve_x: u64,
    pub reserve_y: u64,
    pub claim_supply: u64,
}

impl ReserveState {
    /// While claim tokens are outstanding, the pool holds some of each asset.
    pub open spec fn wf(&self) -> bool {
        self.claim_supply > 0 ==> self.reserve_x > 0 && self.reserve_y > 0
    }

    /// The snapshot with the given balances.
    pub fn new(reserve_x: u64, reserve_y: u64, claim_supply: u64) -> (r: ReserveState)
        ensures
            r == (ReserveState { reserve_x, reserve_y, claim_supply }),
    {
        ReserveState { reserve_x, reserve_y, claim_supply }
    }

    /// Whether the snapshot is one that a pool can be in: see [`ReserveState::wf`].
    pub fn is_valid(&self) -> (r: bool)
        ensures
            r == self.wf(),
    {
        self.claim_supply == 0 || (self.reserve_x > 0 && self.reserve_y > 0)
    }
}

} // verus!
