//! Two-dimensional vectors of fixed-point components.

use crate::fixed::{representable, saturate, scaled, Fixed, ONE_RAW};
use crate::rounding::truncate_div;
use vstd::prelude::*;

verus! {

/// Mathematical model of a [`Vector2`]: its two raw components.
pub struct VectorModel {
    pub x: int,
    pub y: int,
}

impl VectorModel {
    /// Whether both components are raw representations of fixed-point values.
    pub open spec fn representable(self) -> bool {
        representable(self.x) && representable(self.y)
    }

    /// Component-wise saturating sum.
    pub open spec fn plus(self, other: VectorModel) -> VectorModel {
        VectorModel { x: saturate(self.x + other.x), y: saturate(self.y + other.y) }
    }

    /// The pixel that the point falls on: both coordinates rounded toward
    /// zero to whole numbers.
    pub open spec fn pixel(self) -> (int, int) {
        (truncate_div(self.x, ONE_RAW as int), truncate_div(self.y, ONE_RAW as int))
    }

    /// Both components times `num / den`, each rounded and saturated.
    pub open spec fn times(self, num: int, den: int) -> VectorModel {
        VectorModel { x: scaled(self.x, num, den), y: scaled(self.y, num, den) }
    }
}

/// A point or a displacement in the plane.
#[derive(Clone, Copy, Debug, PartialEq, Eq)]
pub struct Vector2 {
    pub x: Fixed,
    pub y: Fixed,
}

impl View for Vector2 {
    type V = VectorModel;

    open spec fn view(&self) -> VectorModel {
        VectorModel { x: self.x@, y: self.y@ }
    }
}

impl Vector2 {
    /// The vector with the given components.
    pub fn new(x: Fixed, y: Fixed) -> (r: Vector2)
        ensures
            r.x == x,
            r.y == y,
    {
        Vector2 { x, y }
    }

    /// The vector with the given whole-number components.
    pub fn from_ints(x: i32, y: i32) -> (r: Vector2)
        ensures
            r@ == (VectorModel { x: saturate(x * ONE_RAW), y: saturate(y * ONE_RAW) }),
    {
        Vector2 { x: Fixed::from_int(x), y: Fixed::from_int(y) }
    }

    /// The zero vector.
    pub fn zero() -> (r: Vector2)
        ensures
            r@ == (VectorModel { x: 0, y: 0 }),
    {
        Vector2 { x: Fixed::zero(), y: Fixed::zero() }
    }

    /// Component-wise saturating sum.
    pub fn add(self, other: Vector2) -> (r: Vector2)
        ensures
            r@ == self@.plus(other@),
    {
        Vector2 { x: self.x.add(other.x), y: self.y.add(other.y) }
    }

    /// Uniform scaling by the ratio `num / den`. A `den` of zero is taken as
    /// one.
    pub fn scale(self, num: i32, den: u32) -> (r: Vector2)
        ensures
            r@ == self@.times(num as int, den as int),
    {
        Vector2 { x: self.x.scale(num, den), y: self.y.scale(num, den) }
    }

    /// The whole parts of both components, each rounded toward zero: the
    /// pixel that the point falls on.
    pub fn to_pixels(self) -> (p: (i32, i32))
        ensures
            (p.0 as int, p.1 as int) == self@.pixel(),
    {
        (self.x.to_int(), self.y.to_int())
    }
}

} // verus!
