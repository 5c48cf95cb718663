//! Constant-product pricing for a two-asset exchange pool.
//!
//! A swap of `amount_in` units against reserves `(reserve_in, reserve_out)`
//! pays out `floor(amount_in * reserve_out / (reserve_in + amount_in))`,
//! rounding in the pool's favor, so that the product of the two reserves
//! never decreases across a swap.

use vstd::prelude::*;
use vstd::arithmetic::div_mod::{
    lemma_fundamental_div_mod, lemma_mod_bound, lemma_multiply_divide_lt,
};
use vstd::arithmetic::mul::{lemma_mul_strict_inequality, lemma_mul_upper_bound};

verus! {

/// The amount paid out by a constant-product swap, as an integer:
/// `floor(amount_in * reserve_out / (reserve_in + amount_in))`.
pub open spec fn amount_out_spec(reserve_in: int, reserve_out: int, amount_in: int) -> int {
    (amount_in * reserve_out) / (reserve_in + amount_in)
}

/// The pricing computation: the multiplication is carried out at twice the
/// storage width (128 bits for 64-bit balances), so it cannot overflow; the
/// division is integer floor division.
pub fn compute_amount_out(reserve_in: u64, reserve_out: u64, amount_in: u64) -> (amount_out: u64)
    requires
        reserve_in > 0,
        reserve_out > 0,
        reserve_in + amount_in <= u64::MAX,
    ensures
        amount_out == amount_out_spec(reserve_in as int, reserve_out as int, amount_in as int),
        amount_out < reserve_out,
{
    proof {
        lemma_mul_upper_bound(amount_in as int, u64::MAX as int, reserve_out as int, u64::MAX as int);
        lemma_quote_bounds(reserve_in as int, reserve_out as int, amount_in as int);
    }
    let numerator: u128 = (amount_in as u128) * (reserve_out as u128);
    let denominator: u128 = (reserve_in as u128) + (amount_in as u128);
    let quotient: u128 = numerator / denominator;
    quotient as u64
}

/// The quote is never negative and is always strictly below the outbound
/// reserve: a pool can never be fully drained by one swap.
pub proof fn lemma_quote_bounds(reserve_in: int, reserve_out: int, amount_in: int)
    requires
        0 < reserve_in,
        0 < reserve_out,
        0 <= amount_in,
    ensures
        0 <= amount_out_spec(reserve_in, reserve_out, amount_in),
        amount_out_spec(reserve_in, reserve_out, amount_in) < reserve_out,
{
    let d = reserve_in + amount_in;
    lemma_mul_strict_inequality(amount_in, d, reserve_out);
    lemma_multiply_divide_lt(amount_in * reserve_out, d, reserve_out);
    lemma_fundamental_div_mod(amount_in * reserve_out, d);
    lemma_mod_bound(amount_in * reserve_out, d);
    assert(amount_in * reserve_out >= 0) by (nonlinear_arith)
        requires
            0 <= amount_in,
            0 < reserve_out,
    ;
    assert(amount_out_spec(reserve_in, reserve_out, amount_in) >= 0) by (nonlinear_arith)
        requires
            d > 0,
            amount_in * reserve_out >= 0,
            amount_in * reserve_out == d * ((amount_in * reserve_out) / d) + (amount_in
                * reserve_out) % d,
            0 <= (amount_in * reserve_out) % d < d,
            amount_out_spec(reserve_in, reserve_out, amount_in) == (amount_in * reserve_out) / d,
    ;
}

/// The core invariant: the product of the reserves never decreases across a
/// swap priced by `amount_out_spec`.
pub proof fn lemma_constant_product(reserve_in: int, reserve_out: int, amount_in: int)
    requires
        0 < reserve_in,
        0 < reserve_out,
        0 <= amount_in,
    ensures
        (reserve_in + amount_in) * (reserve_out - amount_out_spec(
            reserve_in,
            reserve_out,
            amount_in,
        )) >= reserve_in * reserve_out,
{
    let d = reserve_in + amount_in;
    let q = amount_out_spec(reserve_in, reserve_out, amount_in);
    lemma_fundamental_div_mod(amount_in * reserve_out, d);
    lemma_mod_bound(amount_in * reserve_out, d);
    assert(d * q <= amount_in * reserve_out);
    assert(d * (reserve_out - q) >= reserve_in * reserve_out) by (nonlinear_arith)
        requires
            d == reserve_in + amount_in,
            d * q <= amount_in * reserve_out,
    ;
}

/// A swap of nothing pays nothing: `amount_in == 0` yields `amount_out == 0`,
/// with no division by zero.
pub proof fn lemma_zero_amount_in(reserve_in: int, reserve_out: int)
    requires
        0 < reserve_in,
        0 < reserve_out,
    ensures
        amount_out_spec(reserve_in, reserve_out, 0) == 0,
{
    assert(0 * reserve_out == 0) by (nonlinear_arith);
    assert(0int / reserve_in == 0) by (nonlinear_arith)
        requires
            reserve_in > 0,
    ;
}

/// Round-tripping is never profitable: swapping `amount_in` one way and then
/// swapping the proceeds back yields at most the original `amount_in`.
pub proof fn lemma_round_trip(reserve_in: int, reserve_out: int, amount_in: int)
    requires
        0 < reserve_in,
        0 < reserve_out,
        0 <= amount_in,
    ensures
        amount_out_spec(
            reserve_out - amount_out_spec(reserve_in, reserve_out, amount_in),
            reserve_in + amount_in,
            amount_out_spec(reserve_in, reserve_out, amount_in),
        ) <= amount_in,
{
    let q1 = amount_out_spec(reserve_in, reserve_out, amount_in);
    lemma_quote_bounds(reserve_in, reserve_out, amount_in);
    let ri2 = reserve_out - q1;
    let ro2 = reserve_in + amount_in;
    let q2 = amount_out_spec(ri2, ro2, q1);
    lemma_constant_product(reserve_in, reserve_out, amount_in);
    lemma_constant_product(ri2, ro2, q1);
    assert((ri2 + q1) * (ro2 - q2) == reserve_out * (ro2 - q2));
    assert(reserve_out * (ro2 - q2) >= ri2 * ro2);
    assert(ri2 * ro2 == ro2 * ri2) by (nonlinear_arith);
    assert(ro2 * ri2 >= reserve_in * reserve_out) by (nonlinear_arith)
        requires
            ro2 * ri2 == (reserve_in + amount_in) * (reserve_out - q1),
            (reserve_in + amount_in) * (reserve_out - q1) >= reserve_in * reserve_out,
    ;
    assert(reserve_out * (ro2 - q2) >= reserve_out * reserve_in) by (nonlinear_arith)
        requires
            reserve_out * (ro2 - q2) >= ri2 * ro2,
            ri2 * ro2 >= reserve_in * reserve_out,
            reserve_out * reserve_in == reserve_in * reserve_out,
    ;
    assert(ro2 - q2 >= reserve_in) by (nonlinear_arith)
        requires
            reserve_out > 0,
            reserve_out * (ro2 - q2) >= reserve_out * reserve_in,
    ;
}

} // verus!
