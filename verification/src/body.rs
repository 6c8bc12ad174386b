//! Rectangular bodies.

use crate::vector::{Vector2, VectorModel};
use vstd::prelude::*;

verus! {

/// Largest mass of a body: one hundred to the power seven.
pub const MASS_LIMIT: u64 = 100_000_000_000_000;

/// Mathematical model of a [`Body`].
pub struct BodyModel {
    /// Top-left corner of the rectangle.
    pub position: VectorModel,
    /// Width and height.
    pub size: VectorModel,
    /// Displacement in one frame.
    pub velocity: VectorModel,
    pub mass: int,
    /// Whether the body is reflected by the walls.
    pub bounces: bool,
}

impl BodyModel {
    /// What every body satisfies: components within the limits of the
    /// fixed-point range, a positive size and a mass between one and
    /// [`MASS_LIMIT`].
    pub open spec fn valid(self) -> bool {
        &&& self.position.representable()
        &&& self.size.representable()
        &&& self.velocity.representable()
        &&& self.size.x > 0
        &&& self.size.y > 0
        &&& 1 <= self.mass <= MASS_LIMIT
    }

    /// Whether two bodies differ in place and velocity at most: the size, the
    /// mass and the wall capability are the same.
    pub open spec fn same_shape(self, other: BodyModel) -> bool {
        &&& self.size == other.size
        &&& self.mass == other.mass
        &&& self.bounces == other.bounces
    }

    /// The same body at another place with another velocity.
    pub open spec fn moved(self, position: VectorModel, velocity: VectorModel) -> BodyModel {
        BodyModel { position, velocity, ..self }
    }
}

/// An axis-aligned rectangle with a velocity and a mass. Size, mass and the
/// wall capability are fixed when the body is made.
#[derive(Clone, Copy, Debug, PartialEq, Eq)]
pub struct Body {
    position: Vector2,
    size: Vector2,
    velocity: Vector2,
    mass: u64,
    bounces: bool,
}

impl View for Body {
    type V = BodyModel;

    closed spec fn view(&self) -> BodyModel {
        BodyModel {
            position: self.position@,
            size: self.size@,
            velocity: self.velocity@,
            mass: self.mass as int,
            bounces: self.bounces,
        }
    }
}

impl Body {
    /// Every body is valid.
    #[verifier::type_invariant]
    pub open spec fn well_formed(self) -> bool {
        self@.valid()
    }

    /// Makes a body, or nothing where the size is not positive in both
    /// directions or the mass is zero or above [`MASS_LIMIT`].
    pub fn new(
        position: Vector2,
        size: Vector2,
        velocity: Vector2,
        mass: u64,
        bounces: bool,
    ) -> (r: Option<Body>)
        ensures
            r is Some <==> size@.x > 0 && size@.y > 0 && 1 <= mass <= MASS_LIMIT,
            r matches Some(b) ==> b@ == (BodyModel {
                position: position@,
                size: size@,
                velocity: velocity@,
                mass: mass as int,
                bounces,
            }) && b@.valid(),
    {
        proof {
            use_type_invariant(&position.x);
            use_type_invariant(&position.y);
            use_type_invariant(&size.x);
            use_type_invariant(&size.y);
            use_type_invariant(&velocity.x);
            use_type_invariant(&velocity.y);
        }
        if size.x.raw() > 0 && size.y.raw() > 0 && 1 <= mass && mass <= MASS_LIMIT {
            Some(Body { position, size, velocity, mass, bounces })
        } else {
            None
        }
    }

    /// Top-left corner.
    pub fn position(&self) -> (r: Vector2)
        ensures
            r@ == self@.position,
    {
        self.position
    }

    /// Width and height, both positive.
    pub fn size(&self) -> (r: Vector2)
        ensures
            r@ == self@.size,
            r@.x > 0,
            r@.y > 0,
    {
        proof {
            use_type_invariant(self);
        }
        self.size
    }

    /// The velocity: the displacement in one frame.
    pub fn velocity(&self) -> (r: Vector2)
        ensures
            r@ == self@.velocity,
    {
        self.velocity
    }

    /// The mass, between one and [`MASS_LIMIT`].
    pub fn mass(&self) -> (r: u64)
        ensures
            r == self@.mass,
            1 <= r <= MASS_LIMIT,
    {
        proof {
            use_type_invariant(self);
        }
        self.mass
    }

    /// Whether the walls reflect this body.
    pub fn bounces_off_walls(&self) -> (r: bool)
        ensures
            r == self@.bounces,
    {
        self.bounces
    }

    /// Puts the body at another place.
    pub fn set_position(&mut self, position: Vector2)
        ensures
            final(self)@ == old(self)@.moved(position@, old(self)@.velocity),
    {
        proof {
            use_type_invariant(&*self);
            use_type_invariant(&position.x);
            use_type_invariant(&position.y);
        }
        self.position = position;
    }

    /// Gives the body another velocity.
    pub fn set_velocity(&mut self, velocity: Vector2)
        ensures
            final(self)@ == old(self)@.moved(old(self)@.position, velocity@),
    {
        proof {
            use_type_invariant(&*self);
            use_type_invariant(&velocity.x);
            use_type_invariant(&velocity.y);
        }
        self.velocity = velocity;
    }
}

} // verus!
