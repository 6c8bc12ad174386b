//! The state of a simulation and the one operation that advances it.

use crate::body::{Body, BodyModel};
use crate::scheduler::{
    after_substeps, events_in_substeps, run_frame, run_frame_traced, substeps_for, trail_mark,
    PairModel, MAX_SUBSTEPS,
};
use crate::vector::{Vector2, VectorModel};
use vstd::prelude::*;

verus! {

/// Mathematical model of a [`SimulationState`].
pub struct StateModel {
    pub light: BodyModel,
    pub heavy: BodyModel,
    /// Width and height of the surface, as last given.
    pub bounds: VectorModel,
    /// Number of events since the state was made.
    pub lifetime_collisions: int,
    /// Number of events of the last frame.
    pub last_frame_collisions: int,
}

/// A count that stops at the largest 64-bit number.
pub open spec fn capped(count: int) -> int {
    if count > u64::MAX {
        u64::MAX as int
    } else {
        count
    }
}

impl StateModel {
    /// What every state satisfies: valid bodies, bounds within the limits of
    /// the fixed-point range, and counts that fit their integers.
    pub open spec fn valid(self) -> bool {
        &&& self.light.valid()
        &&& self.heavy.valid()
        &&& self.bounds.representable()
        &&& 0 <= self.lifetime_collisions <= u64::MAX
        &&& 0 <= self.last_frame_collisions <= u32::MAX
    }

    /// The two bodies.
    pub open spec fn pair(self) -> PairModel {
        PairModel { light: self.light, heavy: self.heavy }
    }

    /// Number of substeps of the next frame.
    pub open spec fn substeps(self) -> int {
        substeps_for(self.heavy.mass)
    }

    /// Number of events of the next frame on a surface of the given bounds.
    pub open spec fn frame_events(self, bounds: VectorModel) -> int {
        events_in_substeps(self.pair(), bounds, self.substeps(), self.substeps() as nat)
    }

    /// The pixel that the light body stands on after substep `i` of the
    /// next frame, the first substep being substep zero.
    pub open spec fn trail_mark(self, bounds: VectorModel, i: int) -> (int, int) {
        trail_mark(self.pair(), bounds, self.substeps(), i)
    }

    /// The state after one frame on a surface of the given bounds.
    pub open spec fn advanced(self, bounds: VectorModel) -> StateModel {
        let pair = after_substeps(self.pair(), bounds, self.substeps(), self.substeps() as nat);
        StateModel {
            light: pair.light,
            heavy: pair.heavy,
            bounds,
            lifetime_collisions: capped(self.lifetime_collisions + self.frame_events(bounds)),
            last_frame_collisions: self.frame_events(bounds),
        }
    }
}

/// Two bodies on a bounded surface, with the running counts of their
/// collisions.
#[derive(Clone, Copy, Debug, PartialEq, Eq)]
pub struct SimulationState {
    light: Body,
    heavy: Body,
    bounds: Vector2,
    lifetime_collision_count: u64,
    last_frame_collision_count: u32,
}

impl View for SimulationState {
    type V = StateModel;

    closed spec fn view(&self) -> StateModel {
        StateModel {
            light: self.light@,
            heavy: self.heavy@,
            bounds: self.bounds@,
            lifetime_collisions: self.lifetime_collision_count as int,
            last_frame_collisions: self.last_frame_collision_count as int,
        }
    }
}

impl SimulationState {
    /// Every state is valid.
    #[verifier::type_invariant]
    pub open spec fn well_formed(self) -> bool {
        self@.valid()
    }

    /// A state with the given bodies and bounds, in which nothing has
    /// collided yet.
    pub fn new(light: Body, heavy: Body, bounds: Vector2) -> (r: SimulationState)
        ensures
            r@ == (StateModel {
                light: light@,
                heavy: heavy@,
                bounds: bounds@,
                lifetime_collisions: 0,
                last_frame_collisions: 0,
            }),
    {
        proof {
            use_type_invariant(&light);
            use_type_invariant(&heavy);
            use_type_invariant(&bounds.x);
            use_type_invariant(&bounds.y);
        }
        SimulationState {
            light,
            heavy,
            bounds,
            lifetime_collision_count: 0,
            last_frame_collision_count: 0,
        }
    }

    /// The light body.
    pub fn light(&self) -> (r: Body)
        ensures
            r@ == self@.light,
    {
        self.light
    }

    /// The heavy body.
    pub fn heavy(&self) -> (r: Body)
        ensures
            r@ == self@.heavy,
    {
        self.heavy
    }

    /// Width and height of the surface in the last frame.
    pub fn bounds(&self) -> (r: Vector2)
        ensures
            r@ == self@.bounds,
    {
        self.bounds
    }

    /// Number of events since the state was made.
    pub fn lifetime_collision_count(&self) -> (r: u64)
        ensures
            r == self@.lifetime_collisions,
    {
        self.lifetime_collision_count
    }

    /// Number of events of the last frame.
    pub fn last_frame_collision_count(&self) -> (r: u32)
        ensures
            r == self@.last_frame_collisions,
    {
        self.last_frame_collision_count
    }
}

/// Advances the simulation by one frame on a surface of the given bounds and
/// returns the number of collision events of that frame. The bodies go
/// through all the substeps of the frame; the count of the frame replaces
/// that of the frame before and is added to the lifetime count, which never
/// decreases.
pub fn advance(state: &mut SimulationState, bounds: Vector2) -> (count: u32)
    ensures
        final(state)@ == old(state)@.advanced(bounds@),
        count == old(state)@.frame_events(bounds@),
        0 <= count <= 9 * MAX_SUBSTEPS,
        final(state)@.lifetime_collisions >= old(state)@.lifetime_collisions,
        final(state)@.light.same_shape(old(state)@.light),
        final(state)@.heavy.same_shape(old(state)@.heavy),
{
    let mut light: Body = state.light;
    let mut heavy: Body = state.heavy;
    let count: u32 = run_frame(&mut light, &mut heavy, bounds);
    let lifetime: u64 = state.lifetime_collision_count.saturating_add(count as u64);
    proof {
        use_type_invariant(&light);
        use_type_invariant(&heavy);
        use_type_invariant(&bounds.x);
        use_type_invariant(&bounds.y);
    }
    *state = SimulationState {
        light,
        heavy,
        bounds,
        lifetime_collision_count: lifetime,
        last_frame_collision_count: count,
    };
    count
}

/// Advances the simulation by one frame as [`advance`] does, and also
/// returns the trail of the light body over the frame: the pixel that it
/// stands on after each substep, for a host that draws its path.
pub fn advance_with_trail(state: &mut SimulationState, bounds: Vector2) -> (r: (
    u32,
    Vec<(i32, i32)>,
))
    ensures
        final(state)@ == old(state)@.advanced(bounds@),
        r.0 == old(state)@.frame_events(bounds@),
        0 <= r.0 <= 9 * MAX_SUBSTEPS,
        final(state)@.lifetime_collisions >= old(state)@.lifetime_collisions,
        final(state)@.light.same_shape(old(state)@.light),
        final(state)@.heavy.same_shape(old(state)@.heavy),
        r.1@.len() == old(state)@.substeps(),
        forall|i: int|
            0 <= i < r.1@.len() ==> (r.1@[i].0 as int, r.1@[i].1 as int) == old(
                state,
            )@.trail_mark(bounds@, i),
{
    let mut light: Body = state.light;
    let mut heavy: Body = state.heavy;
    let (count, marks) = run_frame_traced(&mut light, &mut heavy, bounds);
    let lifetime: u64 = state.lifetime_collision_count.saturating_add(count as u64);
    proof {
        use_type_invariant(&light);
        use_type_invariant(&heavy);
        use_type_invariant(&bounds.x);
        use_type_invariant(&bounds.y);
    }
    *state = SimulationState {
        light,
        heavy,
        bounds,
        lifetime_collision_count: lifetime,
        last_frame_collision_count: count,
    };
    (count, marks)
}

} // verus!
