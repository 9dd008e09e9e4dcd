//! The configuration record of one pool.

use vstd::prelude::*;
use crate::address::Address;
use crate::constants::MAX_FEE_BASIS_POINTS;
use crate::error::AmmError;

verus! {

/// The configuration of one pool.
///
/// `seed`, `mint_x` and `mint_y` never change once the pool exists. `locked`
/// changes only at the authority's word. The three bumps belong to the custody
/// layer, which derives the pool's signing authority and storage places from
/// them; the pool carries them and reads nothing from them.
#[derive(Clone, Copy, Debug, PartialEq, Eq)]
pub struct Config {
    /// Tells apart several pools over the same pair of assets.
    pub seed: u64,
    /// Who may lock and unlock the pool. A pool without one is never managed.
    pub authority: Option<Address>,
    /// The first asset of the pair.
    pub mint_x: Address,
    /// The second asset of the pair.
    pub mint_y: Address,
    /// The share of a swap's input that the pool keeps, in basis points.
    pub fee: u16,
    /// While set, the pool takes neither deposits nor swaps.
    pub locked: bool,
    /// From which the custody layer derives the pool's signing authority.
    pub auth_bump: u8,
    /// From which the storage layer derives the place of this record.
    pub config_bump: u8,
    /// From which the custody layer derives the place of the claim token.
    pub lp_bump: u8,
}

impl Config {
    /// What holds of every pool that exists: the fee is at most one hundred
    /// percent, and the two assets differ.
    pub open spec fn wf(&self) -> bool {
        &&& self.fee <= MAX_FEE_BASIS_POINTS
        &&& self.mint_x != self.mint_y
    }

    /// Whether `caller` may manage this pool: the pool has an authority, and
    /// `caller` is that authority.
    pub open spec fn is_managed_by(&self, caller: Address) -> bool {
        self.authority == Some(caller)
    }

    /// The same pool, locked or unlocked as `locked` says.
    pub open spec fn with_lock(self, locked: bool) -> Config {
        Config { locked, ..self }
    }

    /// Whether every field is blank: no authority, and zero everywhere else.
    pub open spec fn is_blank(&self) -> bool {
        &&& self.seed == 0
        &&& self.authority is None
        &&& self.mint_x.is_zero()
        &&& self.mint_y.is_zero()
        &&& self.fee == 0
        &&& !self.locked
        &&& self.auth_bump == 0
        &&& self.config_bump == 0
        &&& self.lp_bump == 0
    }

    /// A record with every field blank, as the storage layer hands it out
    /// before the pool is set up. It is not a pool yet: both assets are the
    /// same.
    pub fn blank() -> (config: Config)
        ensures
            config.is_blank(),
    {
        Config {
            seed: 0,
            authority: None,
            mint_x: Address::zero(),
            mint_y: Address::zero(),
            fee: 0,
            locked: false,
            auth_bump: 0,
            config_bump: 0,
            lp_bump: 0,
        }
    }

    /// Fills the record in. The pool starts unlocked, whatever the record held.
    pub fn init(
        &mut self,
        seed: u64,
        authority: Option<Address>,
        mint_x: Address,
        mint_y: Address,
        fee: u16,
        auth_bump: u8,
        config_bump: u8,
        lp_bump: u8,
    )
        ensures
            *final(self) == (Config {
                seed,
                authority,
                mint_x,
                mint_y,
                fee,
                locked: false,
                auth_bump,
                config_bump,
                lp_bump,
            }),
    {
        self.seed = seed;
        self.authority = authority;
        self.mint_x = mint_x;
        self.mint_y = mint_y;
        self.fee = fee;
        self.locked = false;
        self.auth_bump = auth_bump;
        self.config_bump = config_bump;
        self.lp_bump = lp_bump;
    }

    /// Whether the record is a pool: see [`Config::wf`].
    pub fn is_valid(&self) -> (r: bool)
        ensures
            r == self.wf(),
    {
        self.fee <= MAX_FEE_BASIS_POINTS && !self.mint_x.same_as(&self.mint_y)
    }

    /// Whether `caller` may manage this pool.
    pub fn may_manage(&self, caller: &Address) -> (r: bool)
        ensures
            r == self.is_managed_by(*caller),
    {
        match &self.authority {
            Some(authority) => authority.same_as(caller),
            None => false,
        }
    }

    /// Locks or unlocks the pool at its authority's word.
    ///
    /// Anyone else is turned away with `Unauthorized`, and so is everyone where
    /// the pool has no authority. Nothing but `locked` changes, and nothing at
    /// all when the call fails.
    pub fn set_lock(&mut self, new_locked: bool, caller: &Address) -> (r: Result<(), AmmError>)
        ensures
            old(self).is_managed_by(*caller) ==> r == Ok::<(), AmmError>(()) && *final(self)
                == old(self).with_lock(new_locked),
            !old(self).is_managed_by(*caller) ==> r == Err::<(), AmmError>(
                AmmError::Unauthorized,
            ) && *final(self) == *old(self),
            old(self).wf() ==> final(self).wf(),
    {
        if !self.may_manage(caller) {
            return Err(AmmError::Unauthorized);
        }
        self.locked = new_locked;
        Ok(())
    }
}

} // verus!
