//! Integer division rounded to the nearest integer, and what is known of it.

use vstd::arithmetic::div_mod::{
    lemma_div_is_ordered_by_denominator, lemma_fundamental_div_mod,
    lemma_fundamental_div_mod_converse, lemma_mod_bound,
};
use vstd::prelude::*;

verus! {

/// Absolute value of an integer.
pub open spec fn magnitude(v: int) -> int {
    if v < 0 {
        -v
    } else {
        v
    }
}

/// A divisor that is never zero: `n`, or one where `n` is less.
pub open spec fn at_least_one(n: int) -> int {
    if n < 1 {
        1
    } else {
        n
    }
}

/// Quotient of a non-negative `a` by a positive `b`, rounded to the nearest
/// integer; an exact half is rounded up.
pub open spec fn round_div_nat(a: int, b: int) -> int {
    a / b + if 2 * (a % b) >= b {
        1int
    } else {
        0int
    }
}

/// Quotient of `a` by a positive `b`, rounded to the nearest integer; an exact
/// half is rounded away from zero, so that `round_div(-a, b) == -round_div(a, b)`.
pub open spec fn round_div(a: int, b: int) -> int {
    if a >= 0 {
        round_div_nat(a, b)
    } else {
        -round_div_nat(-a, b)
    }
}

/// Quotient of `a` by a positive `b`, rounded toward zero.
pub open spec fn truncate_div(a: int, b: int) -> int {
    if a >= 0 {
        a / b
    } else {
        -((-a) / b)
    }
}

/// The rounded quotient is a nearest integer: it is off by at most half a
/// divisor once multiplied back.
pub proof fn lemma_round_div_nearest(a: int, b: int)
    requires
        b > 0,
    ensures
        -b <= 2 * (b * round_div(a, b) - a) <= b,
{
    let m = magnitude(a);
    let q = m / b;
    lemma_fundamental_div_mod(m, b);
    lemma_mod_bound(m, b);
    assert(b * (q + 1) == b * q + b) by (nonlinear_arith);
    assert(b * (-q) == -(b * q)) by (nonlinear_arith);
    assert(b * (-(q + 1)) == -(b * q + b)) by (nonlinear_arith);
}

/// The rounded quotient keeps the sign of the dividend and is no larger in
/// magnitude.
pub proof fn lemma_round_div_bounds(a: int, b: int)
    requires
        b > 0,
    ensures
        a >= 0 ==> 0 <= round_div(a, b) <= a,
        a <= 0 ==> a <= round_div(a, b) <= 0,
{
    let m = magnitude(a);
    let q = m / b;
    let r = m % b;
    lemma_fundamental_div_mod(m, b);
    lemma_mod_bound(m, b);
    assert(q >= 0 && (b >= 2 ==> b * q >= 2 * q) && (b == 1 ==> b * q == q)) by (nonlinear_arith)
        requires
            b > 0,
            m >= 0,
            m == b * q + r,
            0 <= r < b,
    ;
}

/// Division of an exact multiple gives the multiplier back.
pub proof fn lemma_round_div_multiple(k: int, b: int)
    requires
        b > 0,
    ensures
        round_div(k * b, b) == k,
{
    let m = magnitude(k);
    assert(magnitude(k * b) == m * b && (k >= 0 ==> k * b >= 0) && (k < 0 ==> k * b < 0))
        by (nonlinear_arith)
        requires
            b > 0,
            m == magnitude(k),
    ;
    assert(m * b == b * m + 0) by (nonlinear_arith);
    lemma_fundamental_div_mod_converse(m * b, b, m, 0);
}

/// Computes [`round_div`] on machine integers.
pub fn rounded_quotient(a: i128, b: i128) -> (q: i128)
    requires
        b > 0,
        a > i128::MIN,
    ensures
        q == round_div(a as int, b as int),
{
    let negative: bool = a < 0;
    let size: i128 = if negative {
        -a
    } else {
        a
    };
    let whole: i128 = size / b;
    let rest: i128 = size % b;
    proof {
        if rest >= b - rest {
            lemma_div_is_ordered_by_denominator(size as int, 2, b as int);
        }
    }
    let rounded: i128 = if rest >= b - rest {
        whole + 1
    } else {
        whole
    };
    if negative {
        -rounded
    } else {
        rounded
    }
}

/// Computes [`truncate_div`] on machine integers.
pub fn truncated_quotient(a: i128, b: i128) -> (q: i128)
    requires
        b > 0,
        a > i128::MIN,
    ensures
        q == truncate_div(a as int, b as int),
{
    if a < 0 {
        let size: i128 = -a;
        -(size / b)
    } else {
        a / b
    }
}

} // verus!
