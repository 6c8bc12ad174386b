//! Colours of the trail that a frame host may draw behind the light body,
//! one mark for each substep of a frame.

use crate::rounding::at_least_one;
use vstd::arithmetic::div_mod::{lemma_div_pos_is_pos, lemma_multiply_divide_lt};
use vstd::prelude::*;

verus! {

/// Red part of the colour of the mark of a substep: from 100 upward.
pub open spec fn trail_red(step: int, substeps: int) -> int {
    100 + step * 155 / substeps
}

/// Green part: 55 for the first six substeps, then upward. The divisor is
/// never zero: a frame of fewer than six substeps counts as one of six.
pub open spec fn trail_green(step: int, substeps: int) -> int {
    55 + (if step > 5 {
        step - 5
    } else {
        0
    }) * 200 / at_least_one(substeps - 5)
}

/// Blue part: from zero upward.
pub open spec fn trail_blue(step: int, substeps: int) -> int {
    step * 255 / substeps
}

/// The colour of the mark of substep `step` of a frame of `substeps`, as
/// red, green and blue: a gradient that brightens over the frame.
pub fn trail_color(step: u32, substeps: u32) -> (c: (u8, u8, u8))
    requires
        step < substeps,
    ensures
        c.0 == trail_red(step as int, substeps as int),
        c.1 == trail_green(step as int, substeps as int),
        c.2 == trail_blue(step as int, substeps as int),
{
    let i: u64 = step as u64;
    let n: u64 = substeps as u64;
    let late: u64 = if i > 5 {
        i - 5
    } else {
        0
    };
    let rest: u64 = if n > 5 {
        n - 5
    } else {
        1
    };
    proof {
        lemma_multiply_divide_lt(i * 155, n as int, 155);
        lemma_multiply_divide_lt(i * 255, n as int, 255);
        lemma_multiply_divide_lt(late * 200, rest as int, 200);
        lemma_div_pos_is_pos(i * 155, n as int);
        lemma_div_pos_is_pos(i * 255, n as int);
        lemma_div_pos_is_pos(late * 200, rest as int);
    }
    let red: u64 = 100 + i * 155 / n;
    let green: u64 = 55 + late * 200 / rest;
    let blue: u64 = i * 255 / n;
    (red as u8, green as u8, blue as u8)
}

/// Whether the marks of a frame of `substeps` are drawn: where the
/// hundredth part of the number, rounded down, divides it. The divisor is
/// never zero: below a hundred substeps it is one.
pub open spec fn trail_visible(substeps: int) -> bool {
    substeps % at_least_one(substeps / 100) == 0
}

/// Tells whether the marks of a frame of `substeps` are drawn.
pub fn trail_shown(substeps: u32) -> (r: bool)
    ensures
        r == trail_visible(substeps as int),
{
    let part: u32 = substeps / 100;
    if part < 1 {
        true
    } else {
        substeps % part == 0
    }
}

} // verus!
