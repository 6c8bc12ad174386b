//! Verified core of a simulation of two rectangular bodies that collide
//! elastically on a bounded surface. Where the heavy body has a hundred to
//! the power `k` times the mass of the light one, the number of collisions
//! spells the first digits of pi.
//!
//! All quantities are signed fixed-point numbers ([`fixed`]) and every
//! operation on them is exact up to one stated rounding, so that the
//! contracts say to the last bit what a frame does. A frame host calls
//! [`simulation::advance`] once for every frame that it draws; [`ticks`],
//! [`trail`] and [`meter`] compute what it then plays and shows, and
//! [`config`] makes the state that it starts from.

pub mod algebra;
pub mod body;
pub mod config;
pub mod conservation;
pub mod fixed;
pub mod meter;
pub mod resolver;
pub mod rounding;
pub mod scheduler;
pub mod simulation;
pub mod ticks;
pub mod trail;
pub mod vector;
