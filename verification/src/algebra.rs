//! Identities and inequalities of integer multiplication that the proofs of
//! the conservation laws are built from.

use vstd::prelude::*;

verus! {

/// The square of a difference.
pub proof fn lemma_square_of_difference(x: int, y: int)
    ensures
        (x - y) * (x - y) == x * x - 2 * (x * y) + y * y,
{
    assert((x - y) * (x - y) == x * x - 2 * (x * y) + y * y) by (nonlinear_arith);
}

/// The square of a product is the product of the squares.
pub proof fn lemma_square_of_product(x: int, y: int)
    ensures
        (x * y) * (x * y) == (x * x) * (y * y),
{
    assert((x * y) * (x * y) == (x * x) * (y * y)) by (nonlinear_arith);
}

/// Three factors may be grouped and ordered in any way.
pub proof fn lemma_three_factors(x: int, y: int, z: int)
    ensures
        (x * y) * z == x * (y * z),
        (x * y) * z == (x * z) * y,
        (x * y) * z == y * (x * z),
        (x * y) * z == z * (x * y),
{
    assert((x * y) * z == x * (y * z)) by (nonlinear_arith);
    assert((x * y) * z == (x * z) * y) by (nonlinear_arith);
    assert((x * y) * z == y * (x * z)) by (nonlinear_arith);
    assert((x * y) * z == z * (x * y)) by (nonlinear_arith);
}

/// A factor distributes over a sum of three terms with whole coefficients.
pub proof fn lemma_distribute_three(k: int, a: int, x: int, b: int, y: int, c: int, z: int)
    ensures
        k * (a * x + b * y + c * z) == a * (k * x) + b * (k * y) + c * (k * z),
{
    let p = a * x;
    let q = b * y;
    let r = c * z;
    assert(k * (p + q + r) == k * p + k * q + k * r) by (nonlinear_arith);
    lemma_three_factors(k, a, x);
    lemma_three_factors(k, b, y);
    lemma_three_factors(k, c, z);
    assert(k * (a * x) == a * (k * x)) by (nonlinear_arith);
    assert(k * (b * y) == b * (k * y)) by (nonlinear_arith);
    assert(k * (c * z) == c * (k * z)) by (nonlinear_arith);
}

/// A common factor may be taken out of a sum of two products.
pub proof fn lemma_common_factor(k: int, x: int, y: int)
    ensures
        k * x + k * y == k * (x + y),
        x * k + y * k == k * (x + y),
{
    assert(k * x + k * y == k * (x + y)) by (nonlinear_arith);
    assert(x * k + y * k == k * (x + y)) by (nonlinear_arith);
}

/// A product is no larger in magnitude than the product of bounds on the
/// magnitudes of its factors.
pub proof fn lemma_product_within(x: int, y: int, a: int, b: int)
    requires
        -a <= x <= a,
        -b <= y <= b,
    ensures
        -(a * b) <= x * y <= a * b,
{
    assert(-(a * b) <= x * y <= a * b) by (nonlinear_arith)
        requires
            -a <= x <= a,
            -b <= y <= b,
    ;
}

/// A positive factor may be cancelled from both sides of an inequality.
pub proof fn lemma_cancel_positive(k: int, x: int, y: int)
    requires
        k > 0,
        k * x <= k * y,
    ensures
        x <= y,
{
    assert(x <= y) by (nonlinear_arith)
        requires
            k > 0,
            k * x <= k * y,
    ;
}

} // verus!
