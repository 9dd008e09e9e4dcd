//! Integer arithmetic for the price curve, carried out in 128 bits.
//!
//! Every amount of the pool is a `u64`. The product of two of them fits in a
//! `u128`, so the quotients below are exact: nothing wraps and nothing is
//! clamped on the way.

use vstd::prelude::*;
use vstd::arithmetic::div_mod::{lemma_fundamental_div_mod, lemma_div_pos_is_pos};

verus! {

/// The least `q` with `q * d >= n`, for `n >= 0` and `d > 0`.
pub open spec fn ceil_div(n: int, d: int) -> int {
    (n + d - 1) / d
}

/// Whether `r` is the integer square root of `n`.
pub open spec fn is_floor_sqrt(n: nat, r: nat) -> bool {
    r * r <= n < (r + 1) * (r + 1)
}

/// The integer square root of `n`: the one `r` with `r * r <= n < (r + 1) * (r + 1)`.
pub open spec fn floor_sqrt(n: nat) -> nat {
    choose|r: nat| is_floor_sqrt(n, r)
}

/// The product of two 64-bit amounts fits in 128 bits.
pub proof fn lemma_product_fits(a: u64, b: u64)
    ensures
        0 <= a * b <= 0xFFFF_FFFF_FFFF_FFFE_0000_0000_0000_0001,
        a * b <= u128::MAX,
{
    assert(0 <= a * b <= 0xFFFF_FFFF_FFFF_FFFF * 0xFFFF_FFFF_FFFF_FFFF) by (nonlinear_arith)
        requires
            0 <= a <= 0xFFFF_FFFF_FFFF_FFFF,
            0 <= b <= 0xFFFF_FFFF_FFFF_FFFF,
    ;
}

/// `ceil_div(n, d)` is the least multiple count of `d` that reaches `n`.
pub proof fn lemma_ceil_div_bounds(n: int, d: int)
    requires
        n >= 0,
        d > 0,
    ensures
        ceil_div(n, d) >= 0,
        ceil_div(n, d) * d >= n,
        (ceil_div(n, d) - 1) * d < n,
        n / d <= ceil_div(n, d) <= n / d + 1,
        ceil_div(n, d) == (if n % d == 0 { n / d } else { n / d + 1 }),
{
    let q = n / d;
    let r = n % d;
    lemma_fundamental_div_mod(n, d);
    lemma_div_pos_is_pos(n, d);
    assert(n == d * q + r);
    assert(0 <= r < d);
    if r == 0 {
        assert((n + d - 1) / d == q) by (nonlinear_arith)
            requires
                n == d * q,
                d > 0,
        ;
        assert(q * d >= n && (q - 1) * d < n) by (nonlinear_arith)
            requires
                n == d * q,
                d > 0,
        ;
    } else {
        assert((n + d - 1) / d == q + 1) by (nonlinear_arith)
            requires
                n == d * q + r,
                0 < r < d,
        ;
        assert((q + 1) * d >= n && q * d < n) by (nonlinear_arith)
            requires
                n == d * q + r,
                0 < r < d,
        ;
    }
}

/// Every number has an integer square root.
pub proof fn lemma_floor_sqrt_exists(n: nat)
    ensures
        is_floor_sqrt(n, floor_sqrt(n)),
    decreases n,
{
    if n == 0 {
        assert(is_floor_sqrt(0, 0)) by (nonlinear_arith);
    } else {
        lemma_floor_sqrt_exists((n - 1) as nat);
        let r = floor_sqrt((n - 1) as nat);
        assert(is_floor_sqrt((n - 1) as nat, r));
        if n < (r + 1) * (r + 1) {
            assert(is_floor_sqrt(n, r));
        } else {
            assert(is_floor_sqrt(n, r + 1)) by (nonlinear_arith)
                requires
                    r * r <= n - 1 < (r + 1) * (r + 1),
                    n >= (r + 1) * (r + 1),
            ;
        }
    }
}

/// At most one number is the integer square root of `n`.
pub proof fn lemma_floor_sqrt_unique(n: nat, r: nat)
    requires
        is_floor_sqrt(n, r),
    ensures
        floor_sqrt(n) == r,
{
    let s = floor_sqrt(n);
    assert(is_floor_sqrt(n, s));
    assert(s == r) by (nonlinear_arith)
        requires
            r * r <= n < (r + 1) * (r + 1),
            s * s <= n < (s + 1) * (s + 1),
    ;
}

/// `a * b`, widened so that it cannot overflow.
pub fn widening_mul(a: u64, b: u64) -> (p: u128)
    ensures
        p == a * b,
{
    proof {
        lemma_product_fits(a, b);
    }
    (a as u128) * (b as u128)
}

/// `floor(a * b / d)`.
pub fn mul_div_floor(a: u64, b: u64, d: u128) -> (q: u128)
    requires
        d > 0,
    ensures
        q == (a * b) / (d as int),
{
    let p: u128 = widening_mul(a, b);
    p / d
}

/// `ceil(a * b / d)`.
pub fn mul_div_ceil(a: u64, b: u64, d: u128) -> (q: u128)
    requires
        d > 0,
    ensures
        q == ceil_div(a * b, d as int),
{
    let p: u128 = widening_mul(a, b);
    proof {
        lemma_ceil_div_bounds(p as int, d as int);
        lemma_fundamental_div_mod(p as int, d as int);
    }
    let q: u128 = p / d;
    if p % d == 0 {
        q
    } else {
        assert(q < p) by (nonlinear_arith)
            requires
                p == d * q + p % d,
                p % d > 0,
                d > 0,
                q >= 0,
        ;
        q + 1
    }
}

/// The integer square root of `n`, found by bisection.
pub fn isqrt(n: u128) -> (r: u64)
    ensures
        r == floor_sqrt(n as nat),
        is_floor_sqrt(n as nat, r as nat),
{
    let mut lo: u128 = 0;
    let mut hi: u128 = 0x1_0000_0000_0000_0000;
    assert(hi * hi == 0x1_0000_0000_0000_0000_0000_0000_0000_0000) by (nonlinear_arith)
        requires
            hi == 0x1_0000_0000_0000_0000,
    ;
    while hi - lo > 1
        invariant
            lo < hi <= 0x1_0000_0000_0000_0000,
            lo * lo <= n,
            n < hi * hi,
        decreases hi - lo,
    {
        let mid: u128 = lo + (hi - lo) / 2;
        assert(mid * mid <= 0xFFFF_FFFF_FFFF_FFFF * 0xFFFF_FFFF_FFFF_FFFF) by (nonlinear_arith)
            requires
                0 <= mid <= 0xFFFF_FFFF_FFFF_FFFF,
        ;
        if mid * mid <= n {
            lo = mid;
        } else {
            hi = mid;
        }
    }
    assert(hi == lo + 1);
    proof {
        lemma_floor_sqrt_unique(n as nat, lo as nat);
    }
    lo as u64
}

} // verus!
