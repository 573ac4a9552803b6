//! Division of natural numbers, rounded to the nearest integer, ties to even.
//!
//! Every conversion between bitcoin and dollars rounds once, here.

use vstd::prelude::*;

verus! {

/// `n / d` rounded to the nearest integer; of two equally near, the even one.
pub open spec fn round_half_even(n: nat, d: nat) -> nat
    recommends
        d > 0,
{
    let q = n / d;
    let r = n % d;
    if 2 * r < d || (2 * r == d && q % 2 == 0) {
        q
    } else {
        q + 1
    }
}

/// The distance between `a` and `b`.
pub open spec fn distance(a: int, b: int) -> nat {
    if a >= b {
        (a - b) as nat
    } else {
        (b - a) as nat
    }
}

/// The rounded quotient is at most half a divisor away from the exact one:
/// `|q * d - n| <= d / 2`, and where it is exactly half, `q` is even.
pub proof fn lemma_round_half_even_nearest(n: nat, d: nat)
    requires
        d > 0,
    ensures
        2 * distance((round_half_even(n, d) * d) as int, n as int) <= d,
        2 * distance((round_half_even(n, d) * d) as int, n as int) == d ==> round_half_even(n, d) % 2 == 0,
{
    let q = n / d;
    let r = n % d;
    assert(n == q * d + r && 0 <= r < d) by (nonlinear_arith)
        requires
            d > 0,
            q == n / d,
            r == n % d,
    ;
    assert((q + 1) * d == q * d + d) by (nonlinear_arith);
}

/// The rounded quotient never exceeds the dividend, and exceeds the exact
/// quotient by at most one.
pub proof fn lemma_round_half_even_bounds(n: nat, d: nat)
    requires
        d > 0,
    ensures
        n / d <= round_half_even(n, d) <= n / d + 1,
        round_half_even(n, d) <= n,
{
    let q = n / d;
    let r = n % d;
    assert(n == q * d + r && 0 <= r < d) by (nonlinear_arith)
        requires
            d > 0,
            q == n / d,
            r == n % d,
    ;
    assert(q * d >= q) by (nonlinear_arith)
        requires
            d >= 1,
            q >= 0,
    ;
    if round_half_even(n, d) == q + 1 {
        if d == 1 {
            assert(r == 0);
        } else {
            assert(q * d >= 2 * q) by (nonlinear_arith)
                requires
                    d >= 2,
                    q >= 0,
            ;
            assert(2 * r >= d);
            assert(r >= 1);
        }
    }
}

/// Divides `n` by `d`, rounding to the nearest integer and ties to even.
pub fn div_round_half_even(n: u128, d: u128) -> (q: u128)
    requires
        d > 0,
    ensures
        q == round_half_even(n as nat, d as nat),
{
    let quotient: u128 = n / d;
    let rest: u128 = n % d;
    proof {
        lemma_round_half_even_bounds(n as nat, d as nat);
    }
    // `rest < d`, so `d - rest` cannot wrap, and comparing the two halves
    // avoids doubling `rest`.
    let other: u128 = d - rest;
    if rest < other || (rest == other && quotient % 2 == 0) {
        quotient
    } else {
        quotient + 1
    }
}

} // verus!
