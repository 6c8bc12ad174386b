//! The one value that a user chooses, the exponent of the mass of the heavy
//! body, and the state that a simulation starts from.

use crate::body::{Body, BodyModel, MASS_LIMIT};
use crate::fixed::ONE_RAW;
use crate::simulation::{SimulationState, StateModel};
use crate::vector::{Vector2, VectorModel};
use vstd::arithmetic::power::pow;
use vstd::prelude::*;

verus! {

/// Largest exponent of one hundred that the mass of the heavy body may be.
pub const MAX_EXPONENT: u32 = 7;

/// Width and height of the surface at the start, in pixels.
pub const SURFACE_PIXELS: i32 = 400;

/// Why a text is not an exponent.
#[derive(Clone, Copy, Debug, PartialEq, Eq)]
pub enum ExponentError {
    /// The text is not a natural number in decimal digits.
    NotANumber,
    /// The number is above [`MAX_EXPONENT`].
    OutOfRange,
}

/// What `str::trim` returns for a text: the text without the white space at
/// its two ends.
pub uninterp spec fn trimmed(text: Seq<char>) -> Seq<char>;

/// What `str::parse::<u64>` returns for a text, an error being `None`.
pub uninterp spec fn parsed_decimal(text: Seq<char>) -> Option<u64>;

/// Calls `str::trim`. The result is named [`trimmed`]; nothing else is
/// claimed of it.
#[verifier::external_body]
fn trim_text(text: &str) -> (r: &str)
    ensures
        r@ == trimmed(text@),
{
    text.trim()
}

/// Calls `str::parse::<u64>`. The result is named [`parsed_decimal`], with
/// `None` for every error; nothing else is claimed of it.
#[verifier::external_body]
fn parse_decimal(text: &str) -> (r: Option<u64>)
    ensures
        r == parsed_decimal(text@),
{
    match text.parse::<u64>() {
        Ok(n) => Some(n),
        Err(_) => None,
    }
}

/// The exponent that a parsed number stands for, or why it stands for none.
pub open spec fn exponent_of(parsed: Option<u64>) -> Result<u32, ExponentError> {
    match parsed {
        None => Err(ExponentError::NotANumber),
        Some(n) => if n <= MAX_EXPONENT {
            Ok(n as u32)
        } else {
            Err(ExponentError::OutOfRange)
        },
    }
}

/// Accepts a parsed number as an exponent where it is at most
/// [`MAX_EXPONENT`].
pub fn check_exponent(parsed: Option<u64>) -> (r: Result<u32, ExponentError>)
    ensures
        r == exponent_of(parsed),
{
    match parsed {
        None => Err(ExponentError::NotANumber),
        Some(n) => if n <= MAX_EXPONENT as u64 {
            Ok(n as u32)
        } else {
            Err(ExponentError::OutOfRange)
        },
    }
}

/// Reads an exponent from a line of text: the text is trimmed, parsed as a
/// decimal number and checked against [`MAX_EXPONENT`].
pub fn read_exponent(text: &str) -> (r: Result<u32, ExponentError>)
    ensures
        r == exponent_of(parsed_decimal(trimmed(text@))),
{
    check_exponent(parse_decimal(trim_text(text)))
}

/// The powers of one hundred up to the seventh.
pub proof fn lemma_powers_of_hundred()
    ensures
        pow(100, 0) == 1,
        pow(100, 1) == 100,
        pow(100, 2) == 10_000,
        pow(100, 3) == 1_000_000,
        pow(100, 4) == 100_000_000,
        pow(100, 5) == 10_000_000_000,
        pow(100, 6) == 1_000_000_000_000,
        pow(100, 7) == 100_000_000_000_000,
{
    reveal_with_fuel(pow, 9);
}

/// The mass of the heavy body for an exponent: one hundred to that power,
/// or nothing where the exponent is above [`MAX_EXPONENT`].
pub fn heavy_mass(exponent: u32) -> (r: Option<u64>)
    ensures
        r is Some <==> exponent <= MAX_EXPONENT,
        r matches Some(m) ==> m == pow(100, exponent as nat) && 1 <= m <= MASS_LIMIT,
{
    proof {
        lemma_powers_of_hundred();
    }
    match exponent {
        0 => Some(1),
        1 => Some(100),
        2 => Some(10_000),
        3 => Some(1_000_000),
        4 => Some(100_000_000),
        5 => Some(10_000_000_000),
        6 => Some(1_000_000_000_000),
        7 => Some(100_000_000_000_000),
        _ => None,
    }
}

/// The light body at the start: at rest, thirty pixels wide and high, of
/// mass one, reflected by the walls.
pub open spec fn initial_light() -> BodyModel {
    BodyModel {
        position: VectorModel { x: 15 * ONE_RAW, y: 370 * ONE_RAW },
        size: VectorModel { x: 30 * ONE_RAW, y: 30 * ONE_RAW },
        velocity: VectorModel { x: 0, y: 0 },
        mass: 1,
        bounces: true,
    }
}

/// The heavy body at the start: fifty pixels wide and high, coming from the
/// right at one pixel a frame, not reflected by the walls.
pub open spec fn initial_heavy(mass: int) -> BodyModel {
    BodyModel {
        position: VectorModel { x: 55 * ONE_RAW, y: 350 * ONE_RAW },
        size: VectorModel { x: 50 * ONE_RAW, y: 50 * ONE_RAW },
        velocity: VectorModel { x: -ONE_RAW, y: 0 },
        mass,
        bounces: false,
    }
}

/// The state that a simulation starts from.
pub open spec fn initial_model(exponent: nat) -> StateModel {
    StateModel {
        light: initial_light(),
        heavy: initial_heavy(pow(100, exponent)),
        bounds: VectorModel { x: SURFACE_PIXELS * ONE_RAW, y: SURFACE_PIXELS * ONE_RAW },
        lifetime_collisions: 0,
        last_frame_collisions: 0,
    }
}

/// Makes the state that a simulation starts from, the heavy body having the
/// mass one hundred to the power `exponent`; nothing where the exponent is
/// above [`MAX_EXPONENT`].
pub fn initial_state(exponent: u32) -> (r: Option<SimulationState>)
    ensures
        r is Some <==> exponent <= MAX_EXPONENT,
        r matches Some(state) ==> state@ == initial_model(exponent as nat),
{
    let mass: u64 = match heavy_mass(exponent) {
        Some(m) => m,
        None => {
            return None;
        },
    };
    let light = Body::new(
        Vector2::from_ints(15, 370),
        Vector2::from_ints(30, 30),
        Vector2::from_ints(0, 0),
        1,
        true,
    );
    let heavy = Body::new(
        Vector2::from_ints(55, 350),
        Vector2::from_ints(50, 50),
        Vector2::from_ints(-1, 0),
        mass,
        false,
    );
    let bounds = Vector2::from_ints(SURFACE_PIXELS, SURFACE_PIXELS);
    match (light, heavy) {
        (Some(l), Some(h)) => Some(SimulationState::new(l, h, bounds)),
        _ => None,
    }
}

} // verus!
