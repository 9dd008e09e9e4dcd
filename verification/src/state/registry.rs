//! The pools that exist, each under its seed.

use vstd::prelude::*;
use std::collections::HashMap;
use crate::address::Address;
use crate::error::AmmError;
use crate::state::config::Config;

verus! {

broadcast use vstd::std_specs::hash::group_hash_axioms;

/// The pools that exist. A pool is found by its seed, and no two pools share
/// one. The registry alone holds the configurations: a request names its pool
/// by the seed.
pub struct Registry {
    pools: HashMap<u64, Config>,
}

impl View for Registry {
    type V = Map<u64, Config>;

    closed spec fn view(&self) -> Map<u64, Config> {
        self.pools@
    }
}

impl Registry {
    /// Every record is a pool, and stands under its own seed.
    pub open spec fn wf(&self) -> bool {
        forall|seed: u64| #[trigger]
            self@.contains_key(seed) ==> self@[seed].wf() && self@[seed].seed == seed
    }

    /// A registry without pools.
    pub fn new() -> (registry: Registry)
        ensures
            registry@ == Map::<u64, Config>::empty(),
            registry.wf(),
    {
        Registry { pools: HashMap::new() }
    }

    /// Whether a pool stands under `seed`.
    pub fn contains(&self, seed: u64) -> (r: bool)
        ensures
            r == self@.contains_key(seed),
    {
        self.pools.contains_key(&seed)
    }

    /// How many pools exist.
    pub fn len(&self) -> (n: usize)
        ensures
            n == self@.len(),
    {
        self.pools.len()
    }

    /// The pool under `seed`, or `PoolNotFound`.
    pub fn get(&self, seed: u64) -> (r: Result<Config, AmmError>)
        ensures
            self@.contains_key(seed) ==> r == Ok::<Config, AmmError>(self@[seed]),
            !self@.contains_key(seed) ==> r == Err::<Config, AmmError>(AmmError::PoolNotFound),
            self.wf() ==> (r matches Ok(config) ==> config.wf() && config.seed == seed),
    {
        match self.pools.get(&seed) {
            Some(config) => Ok(*config),
            None => Err(AmmError::PoolNotFound),
        }
    }

    /// Enters a new pool under its seed, or answers `AlreadyExists` and
    /// changes nothing where a pool stands there already.
    pub fn register(&mut self, config: Config) -> (r: Result<(), AmmError>)
        requires
            old(self).wf(),
            config.wf(),
        ensures
            final(self).wf(),
            old(self)@.contains_key(config.seed) ==> r == Err::<(), AmmError>(
                AmmError::AlreadyExists,
            ) && final(self)@ == old(self)@,
            !old(self)@.contains_key(config.seed) ==> r == Ok::<(), AmmError>(()) && final(self)@
                == old(self)@.insert(config.seed, config),
            keeps_identities(old(self)@, final(self)@),
    {
        if self.pools.contains_key(&config.seed) {
            return Err(AmmError::AlreadyExists);
        }
        self.pools.insert(config.seed, config);
        Ok(())
    }

    /// Locks or unlocks the pool under `seed` at its authority's word.
    ///
    /// Answers `PoolNotFound` where no pool stands under `seed`, and
    /// `Unauthorized` where `caller` is not the pool's authority or the pool
    /// has none. Only that pool's `locked` changes, and nothing where the call
    /// fails.
    pub fn set_lock(&mut self, seed: u64, new_locked: bool, caller: &Address) -> (r: Result<
        (),
        AmmError,
    >)
        requires
            old(self).wf(),
        ensures
            final(self).wf(),
            r == set_lock_result(old(self)@, seed, *caller),
            r is Ok ==> final(self)@ == old(self)@.insert(
                seed,
                old(self)@[seed].with_lock(new_locked),
            ),
            r is Err ==> final(self)@ == old(self)@,
            keeps_identities(old(self)@, final(self)@),
    {
        let mut config: Config = match self.pools.get(&seed) {
            Some(config) => *config,
            None => {
                return Err(AmmError::PoolNotFound);
            },
        };
        config.set_lock(new_locked, caller)?;
        self.pools.insert(seed, config);
        Ok(())
    }
}

/// Every pool of `before` still stands in `after`, under the same seed, over
/// the same two assets and at the same fee.
pub open spec fn keeps_identities(before: Map<u64, Config>, after: Map<u64, Config>) -> bool {
    forall|seed: u64| #[trigger]
        before.contains_key(seed) ==> {
            &&& after.contains_key(seed)
            &&& after[seed].seed == before[seed].seed
            &&& after[seed].mint_x == before[seed].mint_x
            &&& after[seed].mint_y == before[seed].mint_y
            &&& after[seed].fee == before[seed].fee
        }
}

/// Whether `caller` may lock or unlock the pool under `seed`.
pub open spec fn set_lock_result(pools: Map<u64, Config>, seed: u64, caller: Address) -> Result<
    (),
    AmmError,
> {
    if !pools.contains_key(seed) {
        Err(AmmError::PoolNotFound)
    } else if !pools[seed].is_managed_by(caller) {
        Err(AmmError::Unauthorized)
    } else {
        Ok(())
    }
}

} // verus!
