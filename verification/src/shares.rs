//! What a claim on the pool is worth.
//!
//! A claim token stands for an equal share of both reserves. A depositor who
//! asks for claims pays the share rounded up; a holder who burns claims gets
//! the share rounded down. Either way the rounding stays in the pool.

use vstd::prelude::*;
use crate::curve::{lemma_quotient_bounds, lemma_quotient_is_largest};
use crate::math::{
    ceil_div, floor_sqrt, is_floor_sqrt, lemma_ceil_div_bounds, lemma_floor_sqrt_exists,
};

verus! {

/// What `claim` new claim tokens cost of an asset of which the pool holds
/// `reserve`, while `supply > 0` tokens are outstanding: the proportional
/// share, rounded up.
pub open spec fn deposit_share(claim: int, reserve: int, supply: int) -> int {
    ceil_div(claim * reserve, supply)
}

/// What burning `claim` claim tokens returns of an asset of which the pool
/// holds `reserve`, while `supply` tokens are outstanding: the proportional
/// share, rounded down. Where no token is outstanding there is nothing to
/// share.
pub open spec fn withdraw_share(claim: int, reserve: int, supply: int) -> int {
    if supply == 0 {
        0
    } else {
        claim * reserve / supply
    }
}

/// The claim tokens that the first deposit of `x` and `y` mints: the integer
/// square root of `x * y`. The depositor has no say in it.
pub open spec fn initial_claims(x: int, y: int) -> int {
    floor_sqrt((x * y) as nat) as int
}

/// The depositor pays at least the exact share, and less than one unit more.
pub proof fn lemma_deposit_share_bounds(claim: int, reserve: int, supply: int)
    requires
        0 <= claim,
        0 <= reserve,
        0 < supply,
    ensures
        0 <= deposit_share(claim, reserve, supply),
        deposit_share(claim, reserve, supply) * supply >= claim * reserve,
        (deposit_share(claim, reserve, supply) - 1) * supply < claim * reserve,
        claim == 0 ==> deposit_share(claim, reserve, supply) == 0,
        claim > 0 && reserve > 0 ==> deposit_share(claim, reserve, supply) > 0,
{
    let n = claim * reserve;
    assert(n >= 0) by (nonlinear_arith)
        requires
            n == claim * reserve,
            0 <= claim,
            0 <= reserve,
    ;
    lemma_ceil_div_bounds(n, supply);
    let s = deposit_share(claim, reserve, supply);
    if claim == 0 {
        assert(n == 0) by (nonlinear_arith)
            requires
                n == claim * reserve,
                claim == 0,
        ;
        assert(s == 0) by (nonlinear_arith)
            requires
                (s - 1) * supply < 0,
                s >= 0,
                supply > 0,
        ;
    }
    if claim > 0 && reserve > 0 {
        assert(n > 0) by (nonlinear_arith)
            requires
                n == claim * reserve,
                claim > 0,
                reserve > 0,
        ;
        assert(s > 0) by (nonlinear_arith)
            requires
                s * supply >= n,
                n > 0,
                s >= 0,
        ;
    }
}

/// The holder gets at most the exact share, and never the whole reserve while
/// other claims remain.
pub proof fn lemma_withdraw_share_bounds(claim: int, reserve: int, supply: int)
    requires
        0 <= claim <= supply,
        0 <= reserve,
    ensures
        0 <= withdraw_share(claim, reserve, supply) <= reserve,
        withdraw_share(claim, reserve, supply) * supply <= claim * reserve,
        claim < supply && reserve > 0 ==> withdraw_share(claim, reserve, supply) < reserve,
        0 < claim == supply ==> withdraw_share(claim, reserve, supply) == reserve,
{
    let w = withdraw_share(claim, reserve, supply);
    if supply > 0 {
        let n = claim * reserve;
        assert(0 <= n <= supply * reserve) by (nonlinear_arith)
            requires
                n == claim * reserve,
                0 <= claim <= supply,
                0 <= reserve,
        ;
        lemma_quotient_bounds(n, supply);
        assert(w <= reserve) by (nonlinear_arith)
            requires
                w * supply <= n,
                n <= supply * reserve,
                supply > 0,
                w >= 0,
        ;
        if claim < supply && reserve > 0 {
            assert(w < reserve) by (nonlinear_arith)
                requires
                    w * supply <= n,
                    n == claim * reserve,
                    0 <= claim < supply,
                    reserve > 0,
                    w >= 0,
            ;
        }
        if claim == supply {
            assert(reserve * supply <= n) by (nonlinear_arith)
                requires
                    n == claim * reserve,
                    claim == supply,
            ;
            lemma_quotient_is_largest(n, supply, reserve);
        }
    }
}

/// The first deposit mints claims exactly where it brings some of both assets.
pub proof fn lemma_initial_claims_positive(x: int, y: int)
    requires
        0 <= x,
        0 <= y,
    ensures
        0 <= initial_claims(x, y),
        initial_claims(x, y) > 0 <==> x > 0 && y > 0,
        is_floor_sqrt((x * y) as nat, initial_claims(x, y) as nat),
{
    let n = x * y;
    assert(n >= 0 && (n > 0 <==> x > 0 && y > 0)) by (nonlinear_arith)
        requires
            n == x * y,
            0 <= x,
            0 <= y,
    ;
    lemma_floor_sqrt_exists(n as nat);
    let r = floor_sqrt(n as nat);
    assert(is_floor_sqrt(n as nat, r));
    assert(r > 0 <==> n > 0) by (nonlinear_arith)
        requires
            r * r <= n < (r + 1) * (r + 1),
            r >= 0,
    ;
}

/// Paying for `claim` tokens and burning them at once returns no more than was
/// paid, and at most one unit less.
pub proof fn lemma_round_trip(claim: int, reserve: int, supply: int)
    requires
        0 <= claim,
        0 <= reserve,
        0 < supply,
    ensures
        ({
            let paid = deposit_share(claim, reserve, supply);
            let returned = withdraw_share(claim, reserve + paid, supply + claim);
            paid - 1 <= returned <= paid
        }),
{
    let paid = deposit_share(claim, reserve, supply);
    let returned = withdraw_share(claim, reserve + paid, supply + claim);
    lemma_deposit_share_bounds(claim, reserve, supply);
    let n = claim * (reserve + paid);
    let d = supply + claim;
    assert(0 <= n <= paid * d) by (nonlinear_arith)
        requires
            n == claim * (reserve + paid),
            d == supply + claim,
            paid * supply >= claim * reserve,
            0 <= claim,
            0 <= reserve,
            0 <= paid,
    ;
    lemma_quotient_bounds(n, d);
    assert(returned <= paid) by (nonlinear_arith)
        requires
            returned * d <= n,
            n <= paid * d,
            d > 0,
    ;
    assert(paid - 1 <= returned) by (nonlinear_arith)
        requires
            n < (returned + 1) * d,
            n == claim * (reserve + paid),
            d == supply + claim,
            (paid - 1) * supply < claim * reserve,
            0 <= claim,
            0 < supply,
    ;
}

} // verus!
