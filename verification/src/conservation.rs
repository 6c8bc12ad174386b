//! What an elastic collision conserves: momentum and kinetic energy, exactly
//! before rounding and within a stated margin after it.

use crate::algebra::{
    lemma_cancel_positive, lemma_common_factor, lemma_distribute_three, lemma_product_within,
    lemma_square_of_difference, lemma_square_of_product, lemma_three_factors,
};
use crate::body::BodyModel;
use crate::fixed::representable;
use crate::resolver::{after_contact, elastic, elastic_numerator, overlapping};
use crate::vector::VectorModel;
use crate::rounding::{lemma_round_div_multiple, lemma_round_div_nearest, magnitude, round_div};
use vstd::prelude::*;

verus! {

/// Momentum of two bodies along one axis.
pub open spec fn momentum(m1: int, v1: int, m2: int, v2: int) -> int {
    m1 * v1 + m2 * v2
}

/// Twice the kinetic energy of two bodies along one axis.
pub open spec fn twice_energy(m1: int, v1: int, m2: int, v2: int) -> int {
    m1 * (v1 * v1) + m2 * (v2 * v2)
}

/// Whether a collision of the two bodies stays inside the fixed-point range
/// on this axis, so that neither new velocity is cut off at a limit.
pub open spec fn unsaturated(m1: int, m2: int, v1: int, v2: int) -> bool {
    &&& representable(round_div(elastic_numerator(m1, m2, v1, v2), m1 + m2))
    &&& representable(round_div(elastic_numerator(m2, m1, v2, v1), m1 + m2))
}

/// Bodies of equal mass exchange their velocities: each leaves the collision
/// with exactly the velocity that the other brought.
pub proof fn lemma_equal_masses_exchange(m: int, v1: int, v2: int)
    requires
        m >= 1,
        representable(v1),
        representable(v2),
    ensures
        elastic(m, m, v1, v2) == v2,
        elastic(m, m, v2, v1) == v1,
{
    assert(elastic_numerator(m, m, v1, v2) == v2 * (m + m)) by (nonlinear_arith);
    assert(elastic_numerator(m, m, v2, v1) == v1 * (m + m)) by (nonlinear_arith);
    lemma_round_div_multiple(v2, m + m);
    lemma_round_div_multiple(v1, m + m);
}

/// The numerator of the law is twice the momentum less the total mass times
/// the old velocity: the body is reflected about the centre of mass.
proof fn lemma_numerator_reflects(m1: int, m2: int, v1: int, v2: int)
    ensures
        elastic_numerator(m1, m2, v1, v2) == 2 * momentum(m1, v1, m2, v2) - (m1 + m2) * v1,
        elastic_numerator(m2, m1, v2, v1) == 2 * momentum(m1, v1, m2, v2) - (m1 + m2) * v2,
{
    assert((m1 - m2) * v1 + 2 * m2 * v2 == 2 * (m1 * v1 + m2 * v2) - (m1 + m2) * v1)
        by (nonlinear_arith);
    assert((m2 - m1) * v2 + 2 * m1 * v1 == 2 * (m1 * v1 + m2 * v2) - (m1 + m2) * v2)
        by (nonlinear_arith);
}

/// `m * (2p - s v)^2`, written out.
proof fn lemma_weighted_square(m: int, p: int, s: int, v: int)
    ensures
        m * ((2 * p - s * v) * (2 * p - s * v)) == 4 * (m * (p * p)) - 4 * ((p * s) * (m * v)) + (s
            * s) * (m * (v * v)),
{
    let n = 2 * p - s * v;
    lemma_square_of_difference(2 * p, s * v);
    lemma_square_of_product(s, v);
    assert((2 * p) * (2 * p) == 4 * (p * p)) by (nonlinear_arith);
    lemma_three_factors(p, s, v);
    assert((2 * p) * (s * v) == 2 * (p * (s * v))) by (nonlinear_arith);
    assert(n * n == 4 * (p * p) - 4 * ((p * s) * v) + (s * s) * (v * v));
    lemma_distribute_three(m, 4, p * p, -4, (p * s) * v, 1, (s * s) * (v * v));
    lemma_three_factors(p * s, m, v);
    lemma_three_factors(s * s, m, v * v);
}

/// The law of elastic collision conserves momentum and kinetic energy
/// exactly: with the new velocities taken as the fractions that the law
/// gives, numerator over total mass, both sums are what they were.
pub proof fn lemma_exact_law_conserves(m1: int, m2: int, v1: int, v2: int)
    ensures
        momentum(
            m1,
            elastic_numerator(m1, m2, v1, v2),
            m2,
            elastic_numerator(m2, m1, v2, v1),
        ) == (m1 + m2) * momentum(m1, v1, m2, v2),
        twice_energy(
            m1,
            elastic_numerator(m1, m2, v1, v2),
            m2,
            elastic_numerator(m2, m1, v2, v1),
        ) == ((m1 + m2) * (m1 + m2)) * twice_energy(m1, v1, m2, v2),
{
    let n1 = elastic_numerator(m1, m2, v1, v2);
    let n2 = elastic_numerator(m2, m1, v2, v1);
    let s = m1 + m2;
    let p = momentum(m1, v1, m2, v2);
    lemma_numerator_reflects(m1, m2, v1, v2);
    // Momentum.
    assert(m1 * n1 + m2 * n2 == s * p) by {
        lemma_distribute_three(m1, 2, p, -1, s * v1, 0, 0);
        lemma_distribute_three(m2, 2, p, -1, s * v2, 0, 0);
        lemma_three_factors(m1, s, v1);
        lemma_three_factors(m2, s, v2);
        lemma_common_factor(s, m1 * v1, m2 * v2);
        lemma_common_factor(p, m1, m2);
        assert(p * s == s * p) by (nonlinear_arith);
    }
    // Energy.
    lemma_weighted_square(m1, p, s, v1);
    lemma_weighted_square(m2, p, s, v2);
    lemma_common_factor(p * p, m1, m2);
    lemma_common_factor(p * s, m1 * v1, m2 * v2);
    lemma_common_factor(s * s, m1 * (v1 * v1), m2 * (v2 * v2));
    lemma_three_factors(p, p, s);
}

/// A collision that stays inside the fixed-point range conserves momentum
/// to within rounding: the momentum changes by no more than half a unit for
/// each unit of total mass.
pub proof fn lemma_momentum_conserved_within_rounding(m1: int, m2: int, v1: int, v2: int)
    requires
        m1 >= 1,
        m2 >= 1,
        unsaturated(m1, m2, v1, v2),
    ensures
        -(m1 + m2) <= 2 * (momentum(m1, elastic(m1, m2, v1, v2), m2, elastic(m2, m1, v2, v1))
            - momentum(m1, v1, m2, v2)) <= m1 + m2,
{
    let n1 = elastic_numerator(m1, m2, v1, v2);
    let n2 = elastic_numerator(m2, m1, v2, v1);
    let s = m1 + m2;
    let w1 = elastic(m1, m2, v1, v2);
    let w2 = elastic(m2, m1, v2, v1);
    let p = momentum(m1, v1, m2, v2);
    let q = momentum(m1, w1, m2, w2);
    lemma_round_div_nearest(n1, s);
    lemma_round_div_nearest(n2, s);
    lemma_exact_law_conserves(m1, m2, v1, v2);
    let d1 = 2 * (s * w1 - n1);
    let d2 = 2 * (s * w2 - n2);
    lemma_product_within(m1, d1, m1, s);
    lemma_product_within(m2, d2, m2, s);
    lemma_common_factor(s, m1, m2);
    // 2 s (q - p) == m1 d1 + m2 d2, which lies within s * s of zero.
    assert(2 * (s * q) - 2 * (s * p) == m1 * d1 + m2 * d2) by {
        lemma_distribute_three(m1, 2, s * w1, -2, n1, 0, 0);
        lemma_distribute_three(m2, 2, s * w2, -2, n2, 0, 0);
        lemma_three_factors(m1, s, w1);
        lemma_three_factors(m2, s, w2);
        lemma_common_factor(s, m1 * w1, m2 * w2);
    }
    assert(s * (2 * (q - p)) == 2 * (s * q) - 2 * (s * p)) by (nonlinear_arith);
    assert(s * (-s) == -(s * s)) by (nonlinear_arith);
    lemma_cancel_positive(s, 2 * (q - p), s);
    lemma_cancel_positive(s, -s, 2 * (q - p));
}

/// Four times the gap between the square of `s * w` and the square of `n`,
/// where `s * w` is `n` rounded to a multiple of `s`.
proof fn lemma_square_near(s: int, w: int, n: int)
    requires
        s > 0,
        -s <= 2 * (s * w - n) <= s,
    ensures
        -((s * s) * (4 * magnitude(w) + 1)) <= 4 * ((s * s) * (w * w) - n * n) <= (s * s) * (4
            * magnitude(w) + 1),
{
    let e = s * w;
    let d = 2 * (e - n);
    let a = magnitude(w);
    lemma_square_of_product(s, w);
    lemma_square_of_difference(2 * e, d);
    assert((2 * e) * (2 * e) == 4 * (e * e)) by (nonlinear_arith);
    assert((2 * n) * (2 * n) == 4 * (n * n)) by (nonlinear_arith);
    assert((2 * e) * d == 2 * (e * d)) by (nonlinear_arith);
    assert(2 * n == 2 * e - d);
    assert(4 * (e * e - n * n) == 4 * (e * d) - d * d);
    assert(-(s * a) <= e <= s * a) by (nonlinear_arith)
        requires
            s > 0,
            e == s * w,
            a == magnitude(w),
    ;
    lemma_product_within(e, d, s * a, s);
    lemma_three_factors(s, a, s);
    assert((s * a) * s == (s * s) * a);
    lemma_product_within(d, d, s, s);
    assert(d * d >= 0) by (nonlinear_arith);
    lemma_distribute_three(s * s, 4, a, 1, 1, 0, 0);
    assert((s * s) * 1 == s * s);
}

/// A collision that stays inside the fixed-point range conserves kinetic
/// energy to within rounding: twice the energy changes by no more than the
/// magnitudes of the two new momenta, `m * |w|`, and a quarter of the total
/// mass. Energies are squares of velocities, so next to them this is small.
pub proof fn lemma_energy_conserved_within_rounding(m1: int, m2: int, v1: int, v2: int)
    requires
        m1 >= 1,
        m2 >= 1,
        unsaturated(m1, m2, v1, v2),
    ensures
        -(4 * momentum(
            m1,
            magnitude(elastic(m1, m2, v1, v2)),
            m2,
            magnitude(elastic(m2, m1, v2, v1)),
        ) + (m1 + m2)) <= 4 * (twice_energy(m1, elastic(m1, m2, v1, v2), m2, elastic(m2, m1, v2, v1))
            - twice_energy(m1, v1, m2, v2)) <= 4 * momentum(
            m1,
            magnitude(elastic(m1, m2, v1, v2)),
            m2,
            magnitude(elastic(m2, m1, v2, v1)),
        ) + (m1 + m2),
{
    let n1 = elastic_numerator(m1, m2, v1, v2);
    let n2 = elastic_numerator(m2, m1, v2, v1);
    let s = m1 + m2;
    let ss = s * s;
    let w1 = elastic(m1, m2, v1, v2);
    let w2 = elastic(m2, m1, v2, v1);
    let a1 = magnitude(w1);
    let a2 = magnitude(w2);
    let before = twice_energy(m1, v1, m2, v2);
    let after = twice_energy(m1, w1, m2, w2);
    lemma_round_div_nearest(n1, s);
    lemma_round_div_nearest(n2, s);
    lemma_exact_law_conserves(m1, m2, v1, v2);
    lemma_square_near(s, w1, n1);
    lemma_square_near(s, w2, n2);
    let g1 = 4 * (ss * (w1 * w1) - n1 * n1);
    let g2 = 4 * (ss * (w2 * w2) - n2 * n2);
    let b1 = ss * (4 * a1 + 1);
    let b2 = ss * (4 * a2 + 1);
    lemma_product_within(m1, g1, m1, b1);
    lemma_product_within(m2, g2, m2, b2);
    // ss * 4 * (after - before) == m1 * g1 + m2 * g2
    assert(ss * (4 * (after - before)) == m1 * g1 + m2 * g2) by {
        lemma_distribute_three(m1, 4, ss * (w1 * w1), -4, n1 * n1, 0, 0);
        lemma_distribute_three(m2, 4, ss * (w2 * w2), -4, n2 * n2, 0, 0);
        lemma_three_factors(m1, ss, w1 * w1);
        lemma_three_factors(m2, ss, w2 * w2);
        lemma_common_factor(ss, m1 * (w1 * w1), m2 * (w2 * w2));
        lemma_distribute_three(ss, 4, after, -4, before, 0, 0);
    }
    // m1 * b1 + m2 * b2 == ss * (4 * (m1 a1 + m2 a2) + s)
    let bound = 4 * momentum(m1, a1, m2, a2) + s;
    assert(m1 * b1 + m2 * b2 == ss * bound) by {
        lemma_three_factors(m1, ss, 4 * a1 + 1);
        lemma_three_factors(m2, ss, 4 * a2 + 1);
        lemma_common_factor(ss, m1 * (4 * a1 + 1), m2 * (4 * a2 + 1));
        lemma_distribute_three(m1, 4, a1, 1, 1, 0, 0);
        lemma_distribute_three(m2, 4, a2, 1, 1, 0, 0);
    }
    assert(ss > 0) by (nonlinear_arith)
        requires
            s > 0,
            ss == s * s,
    ;
    assert(ss * (-bound) == -(ss * bound)) by (nonlinear_arith);
    lemma_cancel_positive(ss, 4 * (after - before), bound);
    lemma_cancel_positive(ss, -bound, 4 * (after - before));
}

/// Momentum of two bodies: mass times velocity, summed, on each axis.
pub open spec fn total_momentum(a: BodyModel, b: BodyModel) -> VectorModel {
    VectorModel {
        x: momentum(a.mass, a.velocity.x, b.mass, b.velocity.x),
        y: momentum(a.mass, a.velocity.y, b.mass, b.velocity.y),
    }
}

/// Twice the kinetic energy of two bodies.
pub open spec fn total_twice_energy(a: BodyModel, b: BodyModel) -> int {
    twice_energy(a.mass, a.velocity.x, b.mass, b.velocity.x) + twice_energy(
        a.mass,
        a.velocity.y,
        b.mass,
        b.velocity.y,
    )
}

/// Whether a collision of the two bodies stays inside the fixed-point range
/// on both axes.
pub open spec fn collides_unsaturated(a: BodyModel, b: BodyModel) -> bool {
    &&& unsaturated(a.mass, b.mass, a.velocity.x, b.velocity.x)
    &&& unsaturated(a.mass, b.mass, a.velocity.y, b.velocity.y)
}

/// Two overlapping bodies of equal mass leave their collision with each
/// other's velocities.
pub proof fn lemma_equal_bodies_exchange(a: BodyModel, b: BodyModel)
    requires
        a.valid(),
        b.valid(),
        a.mass == b.mass,
        overlapping(a, b),
    ensures
        after_contact(a, b).velocity == b.velocity,
        after_contact(b, a).velocity == a.velocity,
{
    lemma_equal_masses_exchange(a.mass, a.velocity.x, b.velocity.x);
    lemma_equal_masses_exchange(a.mass, a.velocity.y, b.velocity.y);
}

/// The collision of two overlapping bodies, where it stays inside the
/// fixed-point range, conserves their momentum on each axis to within half a
/// unit for each unit of total mass.
pub proof fn lemma_collision_conserves_momentum(a: BodyModel, b: BodyModel)
    requires
        a.valid(),
        b.valid(),
        overlapping(a, b),
        collides_unsaturated(a, b),
    ensures
        ({
            let before = total_momentum(a, b);
            let after = total_momentum(after_contact(a, b), after_contact(b, a));
            &&& -(a.mass + b.mass) <= 2 * (after.x - before.x) <= a.mass + b.mass
            &&& -(a.mass + b.mass) <= 2 * (after.y - before.y) <= a.mass + b.mass
        }),
{
    lemma_momentum_conserved_within_rounding(a.mass, b.mass, a.velocity.x, b.velocity.x);
    lemma_momentum_conserved_within_rounding(a.mass, b.mass, a.velocity.y, b.velocity.y);
}

/// The collision of two overlapping bodies, where it stays inside the
/// fixed-point range, conserves their kinetic energy to within rounding:
/// twice the energy changes by no more than the magnitudes of the new
/// momenta on both axes and half the total mass.
pub proof fn lemma_collision_conserves_energy(a: BodyModel, b: BodyModel)
    requires
        a.valid(),
        b.valid(),
        overlapping(a, b),
        collides_unsaturated(a, b),
    ensures
        ({
            let a2 = after_contact(a, b);
            let b2 = after_contact(b, a);
            let margin = 4 * (momentum(
                a.mass,
                magnitude(a2.velocity.x),
                b.mass,
                magnitude(b2.velocity.x),
            ) + momentum(a.mass, magnitude(a2.velocity.y), b.mass, magnitude(b2.velocity.y))) + 2
                * (a.mass + b.mass);
            -margin <= 4 * (total_twice_energy(a2, b2) - total_twice_energy(a, b)) <= margin
        }),
{
    lemma_energy_conserved_within_rounding(a.mass, b.mass, a.velocity.x, b.velocity.x);
    lemma_energy_conserved_within_rounding(a.mass, b.mass, a.velocity.y, b.velocity.y);
}

} // verus!
