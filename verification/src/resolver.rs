//! Detection and response for the two kinds of collision: a body against
//! the walls of the surface, and the two bodies against each other.

use crate::body::{Body, BodyModel, MASS_LIMIT};
use crate::fixed::{saturate, Fixed, RAW_LIMIT};
use crate::rounding::{magnitude, round_div, rounded_quotient};
use crate::vector::{Vector2, VectorModel};
use vstd::prelude::*;

verus! {

/// What the two walls of one axis leave of a coordinate and its velocity.
pub struct AxisOutcome {
    pub position: int,
    pub velocity: int,
    /// Number of walls that were hit: zero, one or two.
    pub events: int,
}

/// Whether a coordinate lies beyond the lower wall.
pub open spec fn hits_low(position: int) -> bool {
    position < 0
}

/// Whether the far edge of an extent lies beyond the upper wall.
pub open spec fn hits_high(position: int, size: int, bound: int) -> bool {
    position + size > bound
}

/// The lower wall, then the upper wall, on one axis. A wall that is hit puts
/// the body back at the wall and turns the velocity away from it.
pub open spec fn wall_axis(position: int, size: int, velocity: int, bound: int) -> AxisOutcome {
    let low = hits_low(position);
    let p = if low { 0 } else { position };
    let v = if low { magnitude(velocity) } else { velocity };
    let high = hits_high(p, size, bound);
    AxisOutcome {
        position: if high { saturate(bound - size) } else { p },
        velocity: if high { -magnitude(v) } else { v },
        events: (if low { 1int } else { 0int }) + (if high { 1int } else { 0int }),
    }
}

/// The body once the four walls have acted on it. A body that does not
/// bounce is left as it is.
pub open spec fn after_walls(body: BodyModel, bounds: VectorModel) -> BodyModel {
    if body.bounces {
        let x = wall_axis(body.position.x, body.size.x, body.velocity.x, bounds.x);
        let y = wall_axis(body.position.y, body.size.y, body.velocity.y, bounds.y);
        body.moved(
            VectorModel { x: x.position, y: y.position },
            VectorModel { x: x.velocity, y: y.velocity },
        )
    } else {
        body
    }
}

/// Number of walls that the body hits: between zero and four.
pub open spec fn wall_events(body: BodyModel, bounds: VectorModel) -> int {
    if body.bounces {
        wall_axis(body.position.x, body.size.x, body.velocity.x, bounds.x).events + wall_axis(
            body.position.y,
            body.size.y,
            body.velocity.y,
            bounds.y,
        ).events
    } else {
        0
    }
}

/// Whether two rectangles overlap in an area; touching edges do not count.
pub open spec fn overlapping(a: BodyModel, b: BodyModel) -> bool {
    &&& a.position.x < b.position.x + b.size.x
    &&& a.position.x + a.size.x > b.position.x
    &&& a.position.y < b.position.y + b.size.y
    &&& a.position.y + a.size.y > b.position.y
}

/// Numerator of the elastic collision law for the body of mass `m_a`: the
/// exact new velocity is this number over `m_a + m_b`.
pub open spec fn elastic_numerator(m_a: int, m_b: int, v_a: int, v_b: int) -> int {
    (m_a - m_b) * v_a + 2 * m_b * v_b
}

/// One component of the velocity of the body of mass `m_a` after an elastic
/// collision with the body of mass `m_b`: the exact value, rounded to the
/// nearest representable one and saturated.
pub open spec fn elastic(m_a: int, m_b: int, v_a: int, v_b: int) -> int {
    saturate(round_div(elastic_numerator(m_a, m_b, v_a, v_b), m_a + m_b))
}

/// Velocity of `a` after an elastic collision with `b`.
pub open spec fn rebound(a: BodyModel, b: BodyModel) -> VectorModel {
    VectorModel {
        x: elastic(a.mass, b.mass, a.velocity.x, b.velocity.x),
        y: elastic(a.mass, b.mass, a.velocity.y, b.velocity.y),
    }
}

/// The first body after the two have met: with its rebound velocity where
/// they overlap, unchanged where they do not.
pub open spec fn after_contact(a: BodyModel, b: BodyModel) -> BodyModel {
    if overlapping(a, b) {
        a.moved(a.position, rebound(a, b))
    } else {
        a
    }
}

/// Number of body-to-body events in one test: one where they overlap.
pub open spec fn contact_events(a: BodyModel, b: BodyModel) -> int {
    if overlapping(a, b) {
        1
    } else {
        0
    }
}

fn resolve_axis(position: Fixed, size: Fixed, velocity: Fixed, bound: Fixed) -> (r: (
    Fixed,
    Fixed,
    u32,
))
    ensures
        r.0@ == wall_axis(position@, size@, velocity@, bound@).position,
        r.1@ == wall_axis(position@, size@, velocity@, bound@).velocity,
        r.2 == wall_axis(position@, size@, velocity@, bound@).events,
{
    let mut p: Fixed = position;
    let mut v: Fixed = velocity;
    let mut events: u32 = 0;
    if p.raw() < 0 {
        v = v.abs();
        p = Fixed::zero();
        events = events + 1;
    }
    if p.raw() + size.raw() > bound.raw() {
        v = v.abs().neg();
        p = bound.sub(size);
        events = events + 1;
    }
    (p, v, events)
}

/// Checks the four walls for a body that bounces: each wall that the body has
/// crossed puts it back at that wall, turns its velocity away from the wall
/// and counts as one event.
pub fn resolve_walls(body: &mut Body, bounds: Vector2) -> (events: u32)
    ensures
        final(body)@ == after_walls(old(body)@, bounds@),
        events == wall_events(old(body)@, bounds@),
        0 <= events <= 4,
{
    if !body.bounces_off_walls() {
        return 0;
    }
    let position: Vector2 = body.position();
    let size: Vector2 = body.size();
    let velocity: Vector2 = body.velocity();
    let x = resolve_axis(position.x, size.x, velocity.x, bounds.x);
    let y = resolve_axis(position.y, size.y, velocity.y, bounds.y);
    body.set_position(Vector2::new(x.0, y.0));
    body.set_velocity(Vector2::new(x.1, y.1));
    x.2 + y.2
}

/// Tests whether two bodies overlap.
pub fn overlaps(a: &Body, b: &Body) -> (r: bool)
    ensures
        r == overlapping(a@, b@),
{
    let pa: Vector2 = a.position();
    let sa: Vector2 = a.size();
    let pb: Vector2 = b.position();
    let sb: Vector2 = b.size();
    pa.x.raw() < pb.x.raw() + sb.x.raw() && pa.x.raw() + sa.x.raw() > pb.x.raw() && pa.y.raw()
        < pb.y.raw() + sb.y.raw() && pa.y.raw() + sa.y.raw() > pb.y.raw()
}

fn elastic_component(m_a: u64, m_b: u64, v_a: Fixed, v_b: Fixed) -> (r: Fixed)
    requires
        1 <= m_a <= MASS_LIMIT,
        1 <= m_b <= MASS_LIMIT,
    ensures
        r@ == elastic(m_a as int, m_b as int, v_a@, v_b@),
{
    let a: i128 = m_a as i128;
    let b: i128 = m_b as i128;
    let own: i128 = v_a.raw();
    let other: i128 = v_b.raw();
    assert(-MASS_LIMIT * RAW_LIMIT <= (a - b) * own <= MASS_LIMIT * RAW_LIMIT) by (nonlinear_arith)
        requires
            -MASS_LIMIT <= a - b <= MASS_LIMIT,
            -RAW_LIMIT <= own <= RAW_LIMIT,
    ;
    assert(-2 * MASS_LIMIT * RAW_LIMIT <= (2 * b) * other <= 2 * MASS_LIMIT * RAW_LIMIT)
        by (nonlinear_arith)
        requires
            0 <= 2 * b <= 2 * MASS_LIMIT,
            -RAW_LIMIT <= other <= RAW_LIMIT,
    ;
    let numerator: i128 = (a - b) * own + (2 * b) * other;
    Fixed::from_raw(rounded_quotient(numerator, a + b))
}

/// Tests the two bodies for overlap and, where they overlap, gives both the
/// velocities of an elastic collision, each computed from the velocities
/// that the two had before. An overlap counts as one event, every time.
pub fn resolve_bodies(light: &mut Body, heavy: &mut Body) -> (events: u32)
    ensures
        final(light)@ == after_contact(old(light)@, old(heavy)@),
        final(heavy)@ == after_contact(old(heavy)@, old(light)@),
        events == contact_events(old(light)@, old(heavy)@),
{
    if !overlaps(light, heavy) {
        return 0;
    }
    let m1: u64 = light.mass();
    let m2: u64 = heavy.mass();
    let v1: Vector2 = light.velocity();
    let v2: Vector2 = heavy.velocity();
    let w1: Vector2 = Vector2::new(
        elastic_component(m1, m2, v1.x, v2.x),
        elastic_component(m1, m2, v1.y, v2.y),
    );
    let w2: Vector2 = Vector2::new(
        elastic_component(m2, m1, v2.x, v1.x),
        elastic_component(m2, m1, v2.y, v1.y),
    );
    light.set_velocity(w1);
    heavy.set_velocity(w2);
    1
}

} // verus!
