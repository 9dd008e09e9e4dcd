//! Setting a pool up.

use vstd::prelude::*;
use crate::address::Address;
use crate::constants::MAX_FEE_BASIS_POINTS;
use crate::error::AmmError;
use crate::state::config::Config;

verus! {

/// Whether a pool may be set up with this fee over these two assets: a fee
/// above one hundred percent is turned down first, then a pair of one asset
/// with itself.
pub open spec fn handler_result(fee: u16, mint_x: Address, mint_y: Address) -> Result<
    (),
    AmmError,
> {
    if fee > MAX_FEE_BASIS_POINTS {
        Err(AmmError::InvalidFee)
    } else if mint_x == mint_y {
        Err(AmmError::InvalidAssetPair)
    } else {
        Ok(())
    }
}

/// Sets a pool up in the record `config`.
///
/// Where the fee and the pair are in order the record is filled in, unlocked,
/// and is a pool from then on. Where they are not, the record stays as it was.
pub fn handler(
    config: &mut Config,
    seed: u64,
    fee: u16,
    authority: Option<Address>,
    mint_x: Address,
    mint_y: Address,
    auth_bump: u8,
    config_bump: u8,
    lp_bump: u8,
) -> (r: Result<(), AmmError>)
    ensures
        r == handler_result(fee, mint_x, mint_y),
        r is Ok ==> final(config).wf() && *final(config) == (Config {
            seed,
            authority,
            mint_x,
            mint_y,
            fee,
            locked: false,
            auth_bump,
            config_bump,
            lp_bump,
        }),
        r is Err ==> *final(config) == *old(config),
{
    // No pool charges more than all of the input.
    if fee > MAX_FEE_BASIS_POINTS {
        return Err(AmmError::InvalidFee);
    }
    if mint_x.same_as(&mint_y) {
        return Err(AmmError::InvalidAssetPair);
    }
    config.init(seed, authority, mint_x, mint_y, fee, auth_bump, config_bump, lp_bump);
    Ok(())
}

} // verus!
