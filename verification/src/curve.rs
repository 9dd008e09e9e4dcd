//! The constant-product price curve.
//!
//! A swap brings `input` of one asset. The pool keeps its fee, and what is left
//! buys the other asset at the price that holds the product of the two
//! reserves. Both divisions round down, so every rounding error stays in the
//! pool.

use vstd::prelude::*;
use vstd::arithmetic::div_mod::{lemma_fundamental_div_mod, lemma_div_pos_is_pos};

verus! {

/// What is left of `input` once a fee of `fee` basis points is taken,
/// rounded down. The fraction that the rounding drops stays with the pool on
/// top of the fee.
pub open spec fn input_after_fee(input: int, fee: int) -> int {
    input * (10000 - fee) / 10000
}

/// What `effective` units of the one asset buy of the other on the curve,
/// rounded down. A pool that holds nothing and is offered nothing pays nothing.
pub open spec fn curve_output(reserve_in: int, reserve_out: int, effective: int) -> int {
    if reserve_in + effective == 0 {
        0
    } else {
        reserve_out * effective / (reserve_in + effective)
    }
}

/// What a swap of `input` pays out, at a fee of `fee` basis points.
pub open spec fn swap_output(reserve_in: int, reserve_out: int, input: int, fee: int) -> int {
    curve_output(reserve_in, reserve_out, input_after_fee(input, fee))
}

/// A quotient `n / d` is the largest `q` with `q * d <= n`.
pub proof fn lemma_quotient_is_largest(n: int, d: int, q: int)
    requires
        d > 0,
        q * d <= n,
    ensures
        q <= n / d,
{
    lemma_fundamental_div_mod(n, d);
    let k = n / d;
    let r = n % d;
    assert(q <= k) by (nonlinear_arith)
        requires
            n == d * k + r,
            0 <= r < d,
            q * d <= n,
            d > 0,
    ;
}

/// A quotient times its divisor does not exceed the dividend, and comes
/// within one divisor of it.
pub proof fn lemma_quotient_bounds(n: int, d: int)
    requires
        n >= 0,
        d > 0,
    ensures
        0 <= n / d,
        (n / d) * d <= n,
        n < (n / d + 1) * d,
{
    lemma_fundamental_div_mod(n, d);
    lemma_div_pos_is_pos(n, d);
    let k = n / d;
    let r = n % d;
    assert(k * d <= n && n < (k + 1) * d) by (nonlinear_arith)
        requires
            n == d * k + r,
            0 <= r < d,
    ;
}

/// The fee never adds to the input, and a positive fee takes at least one unit
/// of a positive input.
pub proof fn lemma_input_after_fee_bounds(input: int, fee: int)
    requires
        0 <= input,
        0 <= fee <= 10000,
    ensures
        0 <= input_after_fee(input, fee) <= input,
        fee == 0 ==> input_after_fee(input, fee) == input,
        fee > 0 && input > 0 ==> input_after_fee(input, fee) < input,
        fee == 10000 ==> input_after_fee(input, fee) == 0,
{
    let keep = 10000 - fee;
    let n = input * keep;
    assert(0 <= n <= input * 10000) by (nonlinear_arith)
        requires
            0 <= input,
            0 <= keep <= 10000,
            n == input * keep,
    ;
    lemma_quotient_bounds(n, 10000);
    if fee > 0 && input > 0 {
        assert(n < input * 10000) by (nonlinear_arith)
            requires
                0 < input,
                0 <= keep < 10000,
                n == input * keep,
        ;
    }
    if fee == 10000 {
        assert(n == 0) by (nonlinear_arith)
            requires
                keep == 0,
                n == input * keep,
        ;
    }
}

/// The curve never pays more than the pool holds, and pays all of it only
/// where the pool held none of the asset that comes in.
pub proof fn lemma_curve_output_bounds(reserve_in: int, reserve_out: int, effective: int)
    requires
        0 <= reserve_in,
        0 <= reserve_out,
        0 <= effective,
    ensures
        0 <= curve_output(reserve_in, reserve_out, effective) <= reserve_out,
        curve_output(reserve_in, reserve_out, effective) * (reserve_in + effective) <= reserve_out
            * effective,
        effective == 0 ==> curve_output(reserve_in, reserve_out, effective) == 0,
        reserve_in > 0 && reserve_out > 0 ==> curve_output(reserve_in, reserve_out, effective)
            < reserve_out,
{
    let d = reserve_in + effective;
    let n = reserve_out * effective;
    let q = curve_output(reserve_in, reserve_out, effective);
    assert(n >= 0) by (nonlinear_arith)
        requires
            n == reserve_out * effective,
            0 <= reserve_out,
            0 <= effective,
    ;
    if d == 0 {
        assert(q * d == 0) by (nonlinear_arith)
            requires
                d == 0,
        ;
    } else {
        lemma_quotient_bounds(n, d);
        assert(q <= reserve_out) by (nonlinear_arith)
            requires
                q * d <= n,
                n == reserve_out * effective,
                d == reserve_in + effective,
                0 <= reserve_in,
                0 <= reserve_out,
                0 <= effective,
                d > 0,
                q >= 0,
        ;
        if effective == 0 {
            assert(n == 0) by (nonlinear_arith)
                requires
                    n == reserve_out * effective,
                    effective == 0,
            ;
        }
        if reserve_in > 0 && reserve_out > 0 {
            assert(q < reserve_out) by (nonlinear_arith)
                requires
                    q * d <= n,
                    n == reserve_out * effective,
                    d == reserve_in + effective,
                    0 < reserve_in,
                    0 < reserve_out,
                    0 <= effective,
                    q >= 0,
            ;
        }
    }
}

/// A larger input never buys less.
pub proof fn lemma_curve_output_monotonic(
    reserve_in: int,
    reserve_out: int,
    smaller: int,
    larger: int,
)
    requires
        0 <= reserve_in,
        0 <= reserve_out,
        0 <= smaller <= larger,
    ensures
        curve_output(reserve_in, reserve_out, smaller) <= curve_output(
            reserve_in,
            reserve_out,
            larger,
        ),
{
    let q = curve_output(reserve_in, reserve_out, smaller);
    lemma_curve_output_bounds(reserve_in, reserve_out, smaller);
    lemma_curve_output_bounds(reserve_in, reserve_out, larger);
    if reserve_in + larger > 0 {
        assert(q * (reserve_in + larger) <= reserve_out * larger) by (nonlinear_arith)
            requires
                q * (reserve_in + smaller) <= reserve_out * smaller,
                0 <= q <= reserve_out,
                0 <= smaller <= larger,
        ;
        lemma_quotient_is_largest(reserve_out * larger, reserve_in + larger, q);
    }
}

/// Taking `input` in and paying the curve's price for any `effective <= input`
/// leaves the product of the reserves no smaller than it was.
pub proof fn lemma_product_never_decreases(
    reserve_in: int,
    reserve_out: int,
    input: int,
    effective: int,
)
    requires
        0 <= reserve_in,
        0 <= reserve_out,
        0 <= effective <= input,
    ensures
        (reserve_in + input) * (reserve_out - curve_output(reserve_in, reserve_out, effective))
            >= reserve_in * reserve_out,
{
    let q = curve_output(reserve_in, reserve_out, effective);
    lemma_curve_output_bounds(reserve_in, reserve_out, effective);
    assert((reserve_in + input) * (reserve_out - q) >= reserve_in * reserve_out)
        by (nonlinear_arith)
        requires
            q * (reserve_in + effective) <= reserve_out * effective,
            0 <= q <= reserve_out,
            0 <= reserve_in,
            0 <= effective <= input,
    ;
}

} // verus!
