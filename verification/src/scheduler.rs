//! Choice of the number of substeps of a frame, and the substep itself.

use crate::body::{Body, BodyModel};
use crate::fixed::{lemma_scaled_down, representable, saturate, scaled};
use crate::resolver::{
    after_contact, after_walls, contact_events, hits_high, hits_low, overlapping, resolve_bodies,
    resolve_walls, wall_axis, wall_events,
};
use crate::vector::{Vector2, VectorModel};
use vstd::prelude::*;

verus! {

/// Fewest substeps of a frame.
pub const MIN_SUBSTEPS: u32 = 100;

/// Most substeps of a frame.
pub const MAX_SUBSTEPS: u32 = 100_000;

/// Whether `r` is the square root of `n`, rounded down.
pub open spec fn is_floor_sqrt(n: int, r: int) -> bool {
    r >= 0 && r * r <= n && n < (r + 1) * (r + 1)
}

/// The square root of a non-negative integer, rounded down.
pub open spec fn floor_sqrt(n: int) -> int {
    choose|r: int| is_floor_sqrt(n, r)
}

/// A non-negative integer has one rounded-down square root only.
pub proof fn lemma_floor_sqrt_unique(n: int, r: int)
    requires
        is_floor_sqrt(n, r),
    ensures
        floor_sqrt(n) == r,
{
    let c = floor_sqrt(n);
    assert(is_floor_sqrt(n, c));
    assert(c == r) by (nonlinear_arith)
        requires
            c >= 0,
            r >= 0,
            c * c <= n,
            n < (c + 1) * (c + 1),
            r * r <= n,
            n < (r + 1) * (r + 1),
    ;
}

/// Computes the square root of `n`, rounded down.
pub fn integer_sqrt(n: u64) -> (r: u64)
    ensures
        is_floor_sqrt(n as int, r as int),
        r == floor_sqrt(n as int),
{
    let mut low: u64 = 0;
    let mut high: u64 = 0x1_0000_0000;
    assert(0x1_0000_0000 * 0x1_0000_0000 > n) by (nonlinear_arith)
        requires
            n <= 0xffff_ffff_ffff_ffff,
    ;
    while high - low > 1
        invariant
            low < high <= 0x1_0000_0000,
            low * low <= n,
            n < high * high,
        decreases high - low,
    {
        let middle: u64 = low + (high - low) / 2;
        assert(middle * middle <= 0xffff_ffff * 0xffff_ffff) by (nonlinear_arith)
            requires
                0 <= middle <= 0xffff_ffff,
        ;
        if middle * middle <= n {
            low = middle;
        } else {
            high = middle;
        }
    }
    proof {
        lemma_floor_sqrt_unique(n as int, low as int);
    }
    low
}

/// Number of substeps of a frame for a heavy body of the given mass: a tenth
/// of the square root of the mass, kept between [`MIN_SUBSTEPS`] and
/// [`MAX_SUBSTEPS`].
pub open spec fn substeps_for(mass: int) -> int {
    let tenth = floor_sqrt(mass) / 10;
    if tenth < MIN_SUBSTEPS {
        MIN_SUBSTEPS as int
    } else if tenth > MAX_SUBSTEPS {
        MAX_SUBSTEPS as int
    } else {
        tenth
    }
}

/// Whatever the mass, the number of substeps lies between [`MIN_SUBSTEPS`]
/// and [`MAX_SUBSTEPS`].
pub proof fn lemma_substeps_bounded(mass: int)
    ensures
        MIN_SUBSTEPS <= substeps_for(mass) <= MAX_SUBSTEPS,
{
}

/// Chooses the number of substeps of a frame from the mass of the heavy body.
/// Whatever the mass, the number lies between [`MIN_SUBSTEPS`] and
/// [`MAX_SUBSTEPS`].
pub fn substep_count(heavy_mass: u64) -> (n: u32)
    ensures
        n == substeps_for(heavy_mass as int),
        MIN_SUBSTEPS <= n <= MAX_SUBSTEPS,
{
    let tenth: u64 = integer_sqrt(heavy_mass) / 10;
    if tenth < MIN_SUBSTEPS as u64 {
        MIN_SUBSTEPS
    } else if tenth > MAX_SUBSTEPS as u64 {
        MAX_SUBSTEPS
    } else {
        tenth as u32
    }
}

/// The body after one substep of free motion, a frame being `n` substeps
/// long: its position moves by the `n`-th part of its velocity. A frame of
/// fewer substeps than one counts as a frame of one.
pub open spec fn drifted(body: BodyModel, n: int) -> BodyModel {
    body.moved(body.position.plus(body.velocity.times(1, n)), body.velocity)
}

/// Mathematical model of the two bodies of a simulation.
pub struct PairModel {
    pub light: BodyModel,
    pub heavy: BodyModel,
}

/// The two bodies once the walls have acted on each.
pub open spec fn walled(pair: PairModel, bounds: VectorModel) -> PairModel {
    PairModel { light: after_walls(pair.light, bounds), heavy: after_walls(pair.heavy, bounds) }
}

/// The two bodies after one substep: walls, then the test of one against the
/// other, then motion with the velocities that these left.
pub open spec fn after_substep(pair: PairModel, bounds: VectorModel, n: int) -> PairModel {
    let w = walled(pair, bounds);
    PairModel {
        light: drifted(after_contact(w.light, w.heavy), n),
        heavy: drifted(after_contact(w.heavy, w.light), n),
    }
}

/// Number of body-to-body events of one substep.
pub open spec fn substep_contacts(pair: PairModel, bounds: VectorModel) -> int {
    contact_events(walled(pair, bounds).light, walled(pair, bounds).heavy)
}

/// Number of events of one substep: the walls hit by either body, and one
/// more where the two overlap after that.
pub open spec fn substep_events(pair: PairModel, bounds: VectorModel) -> int {
    wall_events(pair.light, bounds) + wall_events(pair.heavy, bounds) + substep_contacts(
        pair,
        bounds,
    )
}

/// The two bodies after the first `k` substeps of a frame of `n`.
pub open spec fn after_substeps(pair: PairModel, bounds: VectorModel, n: int, k: nat) -> PairModel
    decreases k,
{
    if k == 0 {
        pair
    } else {
        after_substep(after_substeps(pair, bounds, n, (k - 1) as nat), bounds, n)
    }
}

/// Number of events in the first `k` substeps of a frame of `n`.
pub open spec fn events_in_substeps(pair: PairModel, bounds: VectorModel, n: int, k: nat) -> int
    decreases k,
{
    if k == 0 {
        0
    } else {
        events_in_substeps(pair, bounds, n, (k - 1) as nat) + substep_events(
            after_substeps(pair, bounds, n, (k - 1) as nat),
            bounds,
        )
    }
}

/// Number of body-to-body events in the first `k` substeps of a frame of `n`.
pub open spec fn contacts_in_substeps(pair: PairModel, bounds: VectorModel, n: int, k: nat) -> int
    decreases k,
{
    if k == 0 {
        0
    } else {
        contacts_in_substeps(pair, bounds, n, (k - 1) as nat) + substep_contacts(
            after_substeps(pair, bounds, n, (k - 1) as nat),
            bounds,
        )
    }
}

/// The pixel that the light body stands on after substep `i` of a frame of
/// `n`, the first substep being substep zero: a mark of its trail.
pub open spec fn trail_mark(pair: PairModel, bounds: VectorModel, n: int, i: int) -> (int, int) {
    after_substeps(pair, bounds, n, (i + 1) as nat).light.position.pixel()
}

/// Moves a body by the `substeps`-th part of its velocity. A count of zero is
/// taken as one.
pub fn drift(body: &mut Body, substeps: u32)
    ensures
        final(body)@ == drifted(old(body)@, substeps as int),
{
    let step: Vector2 = body.velocity().scale(1, substeps);
    let place: Vector2 = body.position().add(step);
    body.set_position(place);
}

/// Runs one substep of a frame of `substeps`: the walls act on the light
/// body, then on the heavy one, then the two are tested against each other,
/// then both move with the velocities that this left them. Returns the number
/// of events.
pub fn substep(light: &mut Body, heavy: &mut Body, bounds: Vector2, substeps: u32) -> (events: u32)
    ensures
        (PairModel { light: final(light)@, heavy: final(heavy)@ }) == after_substep(
            PairModel { light: old(light)@, heavy: old(heavy)@ },
            bounds@,
            substeps as int,
        ),
        events == substep_events(PairModel { light: old(light)@, heavy: old(heavy)@ }, bounds@),
        0 <= events <= 9,
        final(light)@.same_shape(old(light)@),
        final(heavy)@.same_shape(old(heavy)@),
{
    let light_walls: u32 = resolve_walls(light, bounds);
    let heavy_walls: u32 = resolve_walls(heavy, bounds);
    let contacts: u32 = resolve_bodies(light, heavy);
    drift(light, substeps);
    drift(heavy, substeps);
    light_walls + heavy_walls + contacts
}

/// Runs the substeps of one frame, as many as [`substep_count`] gives for the
/// mass of the heavy body, and returns the number of events in them.
pub fn run_frame(light: &mut Body, heavy: &mut Body, bounds: Vector2) -> (events: u32)
    ensures
        (PairModel { light: final(light)@, heavy: final(heavy)@ }) == after_substeps(
            PairModel { light: old(light)@, heavy: old(heavy)@ },
            bounds@,
            substeps_for(old(heavy)@.mass),
            substeps_for(old(heavy)@.mass) as nat,
        ),
        events == events_in_substeps(
            PairModel { light: old(light)@, heavy: old(heavy)@ },
            bounds@,
            substeps_for(old(heavy)@.mass),
            substeps_for(old(heavy)@.mass) as nat,
        ),
        0 <= events <= 9 * MAX_SUBSTEPS,
        final(light)@.same_shape(old(light)@),
        final(heavy)@.same_shape(old(heavy)@),
{
    proof {
        lemma_substeps_keep_shape(
            PairModel { light: light@, heavy: heavy@ },
            bounds@,
            substeps_for(heavy@.mass),
            substeps_for(heavy@.mass) as nat,
        );
    }
    let n: u32 = substep_count(heavy.mass());
    let ghost start = PairModel { light: light@, heavy: heavy@ };
    let mut events: u32 = 0;
    let mut done: u32 = 0;
    while done < n
        invariant
            done <= n <= MAX_SUBSTEPS,
            (PairModel { light: light@, heavy: heavy@ }) == after_substeps(
                start,
                bounds@,
                n as int,
                done as nat,
            ),
            events == events_in_substeps(start, bounds@, n as int, done as nat),
            0 <= events <= 9 * done,
        decreases n - done,
    {
        let found: u32 = substep(light, heavy, bounds, n);
        events = events + found;
        done = done + 1;
    }
    events
}

/// Runs the substeps of one frame as [`run_frame`] does, and also returns
/// the trail of the light body: the pixel that it stands on after each
/// substep.
pub fn run_frame_traced(light: &mut Body, heavy: &mut Body, bounds: Vector2) -> (r: (
    u32,
    Vec<(i32, i32)>,
))
    ensures
        (PairModel { light: final(light)@, heavy: final(heavy)@ }) == after_substeps(
            PairModel { light: old(light)@, heavy: old(heavy)@ },
            bounds@,
            substeps_for(old(heavy)@.mass),
            substeps_for(old(heavy)@.mass) as nat,
        ),
        r.0 == events_in_substeps(
            PairModel { light: old(light)@, heavy: old(heavy)@ },
            bounds@,
            substeps_for(old(heavy)@.mass),
            substeps_for(old(heavy)@.mass) as nat,
        ),
        0 <= r.0 <= 9 * MAX_SUBSTEPS,
        final(light)@.same_shape(old(light)@),
        final(heavy)@.same_shape(old(heavy)@),
        r.1@.len() == substeps_for(old(heavy)@.mass),
        forall|i: int|
            0 <= i < r.1@.len() ==> (r.1@[i].0 as int, r.1@[i].1 as int) == trail_mark(
                PairModel { light: old(light)@, heavy: old(heavy)@ },
                bounds@,
                substeps_for(old(heavy)@.mass),
                i,
            ),
{
    proof {
        lemma_substeps_keep_shape(
            PairModel { light: light@, heavy: heavy@ },
            bounds@,
            substeps_for(heavy@.mass),
            substeps_for(heavy@.mass) as nat,
        );
    }
    let n: u32 = substep_count(heavy.mass());
    let ghost start = PairModel { light: light@, heavy: heavy@ };
    let mut marks: Vec<(i32, i32)> = Vec::new();
    let mut events: u32 = 0;
    let mut done: u32 = 0;
    while done < n
        invariant
            done <= n <= MAX_SUBSTEPS,
            (PairModel { light: light@, heavy: heavy@ }) == after_substeps(
                start,
                bounds@,
                n as int,
                done as nat,
            ),
            events == events_in_substeps(start, bounds@, n as int, done as nat),
            0 <= events <= 9 * done,
            marks@.len() == done,
            forall|i: int|
                0 <= i < done ==> (marks@[i].0 as int, marks@[i].1 as int) == trail_mark(
                    start,
                    bounds@,
                    n as int,
                    i,
                ),
        decreases n - done,
    {
        let found: u32 = substep(light, heavy, bounds, n);
        marks.push(light.position().to_pixels());
        events = events + found;
        done = done + 1;
    }
    (events, marks)
}

/// Size, mass and wall capability of a body are fixed: no number of
/// substeps changes them.
pub proof fn lemma_substeps_keep_shape(pair: PairModel, bounds: VectorModel, n: int, k: nat)
    ensures
        after_substeps(pair, bounds, n, k).light.same_shape(pair.light),
        after_substeps(pair, bounds, n, k).heavy.same_shape(pair.heavy),
    decreases k,
{
    if k > 0 {
        lemma_substeps_keep_shape(pair, bounds, n, (k - 1) as nat);
    }
}

/// Valid bodies stay valid: no number of substeps takes a place or a
/// velocity out of the fixed-point range.
pub proof fn lemma_substeps_keep_valid(pair: PairModel, bounds: VectorModel, n: int, k: nat)
    requires
        pair.light.valid(),
        pair.heavy.valid(),
    ensures
        after_substeps(pair, bounds, n, k).light.valid(),
        after_substeps(pair, bounds, n, k).heavy.valid(),
    decreases k,
{
    if k > 0 {
        lemma_substeps_keep_valid(pair, bounds, n, (k - 1) as nat);
    }
}

/// Whether the two bodies overlap when they are tested in substep `i` of a
/// frame of `n`, the first substep being substep zero.
pub open spec fn overlap_in_substep(pair: PairModel, bounds: VectorModel, n: int, i: nat) -> bool {
    let then = walled(after_substeps(pair, bounds, n, i), bounds);
    overlapping(then.light, then.heavy)
}

/// The body-to-body events are among the events, and no substep holds more
/// than nine events.
pub proof fn lemma_events_bounded(pair: PairModel, bounds: VectorModel, n: int, k: nat)
    ensures
        0 <= contacts_in_substeps(pair, bounds, n, k) <= events_in_substeps(pair, bounds, n, k),
        events_in_substeps(pair, bounds, n, k) <= 9 * k,
    decreases k,
{
    if k > 0 {
        lemma_events_bounded(pair, bounds, n, (k - 1) as nat);
    }
}

/// An overlap is counted in every substep in which it is found: where the
/// two bodies overlap in each of the first `k` substeps, these hold `k`
/// body-to-body events, not one, and so at least `k` events in all.
pub proof fn lemma_every_overlap_counts(pair: PairModel, bounds: VectorModel, n: int, k: nat)
    requires
        forall|i: nat| i < k ==> overlap_in_substep(pair, bounds, n, i),
    ensures
        contacts_in_substeps(pair, bounds, n, k) == k,
        events_in_substeps(pair, bounds, n, k) >= k,
    decreases k,
{
    lemma_events_bounded(pair, bounds, n, k);
    if k > 0 {
        lemma_every_overlap_counts(pair, bounds, n, (k - 1) as nat);
        assert(overlap_in_substep(pair, bounds, n, (k - 1) as nat));
    }
}

/// A wall does not flag the body that it has just reflected. On one axis,
/// take a body through the walls and then, untouched by the other body,
/// through the motion of one substep. If the lower wall reflected it, and
/// the upper wall did not move it then, it is not beyond the lower wall in
/// the next substep. If the upper wall reflected it, it is not beyond the
/// upper wall in the next substep.
pub proof fn lemma_wall_reflection_not_repeated(
    position: int,
    size: int,
    velocity: int,
    bound: int,
    n: int,
)
    requires
        representable(position),
        representable(velocity),
        representable(bound - size),
    ensures
        ({
            let hit = wall_axis(position, size, velocity, bound);
            let next = saturate(hit.position + scaled(hit.velocity, 1, n));
            let low = hits_low(position);
            let high = hits_high(if low { 0 } else { position }, size, bound);
            &&& low && !high ==> !hits_low(next)
            &&& high ==> !hits_high(next, size, bound)
        }),
{
    let hit = wall_axis(position, size, velocity, bound);
    lemma_scaled_down(hit.velocity, n);
}

/// A body that stands exactly at a wall and moves away from it is not
/// flagged by that wall, neither where it stands nor after the motion of
/// one substep.
pub proof fn lemma_leaving_wall_not_flagged(
    position: int,
    size: int,
    velocity: int,
    bound: int,
    n: int,
)
    requires
        representable(position),
        representable(velocity),
    ensures
        ({
            let next = saturate(position + scaled(velocity, 1, n));
            &&& position == 0 && velocity >= 0 ==> !hits_low(position) && !hits_low(next)
            &&& position + size == bound && velocity <= 0 ==> !hits_high(position, size, bound)
                && !hits_high(next, size, bound)
        }),
{
    lemma_scaled_down(velocity, n);
}

} // verus!
