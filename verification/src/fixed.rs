//! Signed fixed-point scalars with saturating arithmetic.
//!
//! A [`Fixed`] stands for the rational number `raw / 2^52`. Its view is the
//! raw integer, and every contract is stated over raw integers. Results that
//! leave the representable range saturate at its ends.

use crate::rounding::{
    at_least_one, lemma_round_div_bounds, magnitude, round_div, rounded_quotient, truncate_div,
    truncated_quotient,
};
use vstd::prelude::*;

verus! {

/// Number of fractional bits of a [`Fixed`] value.
pub const FRACTION_BITS: u32 = 52;

/// Raw representation of the value one: two to the power [`FRACTION_BITS`].
pub const ONE_RAW: i128 = 0x10_0000_0000_0000;

/// Largest magnitude of a raw value, two to the power 78; arithmetic
/// saturates here.
pub const RAW_LIMIT: i128 = 0x4000_0000_0000_0000_0000;

/// Clamps an integer into the representable raw range.
pub open spec fn saturate(v: int) -> int {
    if v < -RAW_LIMIT {
        -RAW_LIMIT as int
    } else if v > RAW_LIMIT {
        RAW_LIMIT as int
    } else {
        v
    }
}

/// Whether an integer is the raw representation of some [`Fixed`].
pub open spec fn representable(v: int) -> bool {
    -RAW_LIMIT <= v <= RAW_LIMIT
}

/// Raw result of scaling the raw value `v` by the ratio `num / den`: the
/// exact product, rounded to the nearest integer and saturated. The divisor
/// is never zero: a `den` below one counts as one.
pub open spec fn scaled(v: int, num: int, den: int) -> int {
    saturate(round_div(v * num, at_least_one(den)))
}

/// A signed fixed-point number with 52 fractional bits.
#[derive(Clone, Copy, Debug, PartialEq, Eq)]
pub struct Fixed {
    raw: i128,
}

impl View for Fixed {
    type V = int;

    closed spec fn view(&self) -> int {
        self.raw as int
    }
}

impl Fixed {
    /// Every value lies within the limits.
    #[verifier::type_invariant]
    pub open spec fn in_range(self) -> bool {
        representable(self@)
    }

    /// Builds a value from its raw representation, saturating at the limits.
    pub fn from_raw(raw: i128) -> (r: Fixed)
        ensures
            r@ == saturate(raw as int),
    {
        if raw < -RAW_LIMIT {
            Fixed { raw: -RAW_LIMIT }
        } else if raw > RAW_LIMIT {
            Fixed { raw: RAW_LIMIT }
        } else {
            Fixed { raw }
        }
    }

    /// Builds the value of a whole number, saturating at the limits.
    pub fn from_int(n: i32) -> (r: Fixed)
        ensures
            r@ == saturate(n * ONE_RAW),
    {
        let wide: i128 = n as i128;
        assert(-0x8000_0000 * ONE_RAW <= wide * ONE_RAW <= 0x8000_0000 * ONE_RAW)
            by (nonlinear_arith)
            requires
                -0x8000_0000 <= wide <= 0x8000_0000,
        ;
        Fixed::from_raw(wide * ONE_RAW)
    }

    /// The value zero.
    pub fn zero() -> (r: Fixed)
        ensures
            r@ == 0,
    {
        Fixed { raw: 0 }
    }

    /// The raw representation, which always lies within the limits.
    pub fn raw(self) -> (r: i128)
        ensures
            r == self@,
            representable(r as int),
    {
        proof {
            use_type_invariant(&self);
        }
        self.raw
    }

    /// The whole part, rounded toward zero.
    pub fn to_int(self) -> (n: i32)
        ensures
            n == truncate_div(self@, ONE_RAW as int),
    {
        proof {
            use_type_invariant(&self);
        }
        let whole: i128 = truncated_quotient(self.raw, ONE_RAW);
        whole as i32
    }

    /// Saturating sum.
    pub fn add(self, other: Fixed) -> (r: Fixed)
        ensures
            r@ == saturate(self@ + other@),
    {
        proof {
            use_type_invariant(&self);
            use_type_invariant(&other);
        }
        Fixed::from_raw(self.raw + other.raw)
    }

    /// Saturating difference.
    pub fn sub(self, other: Fixed) -> (r: Fixed)
        ensures
            r@ == saturate(self@ - other@),
    {
        proof {
            use_type_invariant(&self);
            use_type_invariant(&other);
        }
        Fixed::from_raw(self.raw - other.raw)
    }

    /// The opposite value. The range is symmetric, so nothing saturates.
    pub fn neg(self) -> (r: Fixed)
        ensures
            r@ == -self@,
    {
        proof {
            use_type_invariant(&self);
        }
        Fixed { raw: -self.raw }
    }

    /// The absolute value.
    pub fn abs(self) -> (r: Fixed)
        ensures
            r@ == magnitude(self@),
    {
        proof {
            use_type_invariant(&self);
        }
        if self.raw < 0 {
            Fixed { raw: -self.raw }
        } else {
            self
        }
    }

    /// The value times `num / den`, rounded to the nearest representable value
    /// and saturated. A `den` of zero is taken as one.
    pub fn scale(self, num: i32, den: u32) -> (r: Fixed)
        ensures
            r@ == scaled(self@, num as int, den as int),
    {
        proof {
            use_type_invariant(&self);
        }
        let raw: i128 = self.raw;
        let factor: i128 = num as i128;
        let divisor: i128 = if den < 1 {
            1
        } else {
            den as i128
        };
        assert(-RAW_LIMIT * 0x8000_0000 <= raw * factor <= RAW_LIMIT * 0x8000_0000)
            by (nonlinear_arith)
            requires
                -RAW_LIMIT <= raw <= RAW_LIMIT,
                -0x8000_0000 <= factor <= 0x8000_0000,
        ;
        Fixed::from_raw(rounded_quotient(raw * factor, divisor))
    }
}

/// Division by a whole number never saturates: the result keeps the sign of
/// the value and is no larger in magnitude.
pub proof fn lemma_scaled_down(v: int, den: int)
    requires
        representable(v),
    ensures
        scaled(v, 1, den) == round_div(v, at_least_one(den)),
        v >= 0 ==> 0 <= scaled(v, 1, den) <= v,
        v <= 0 ==> v <= scaled(v, 1, den) <= 0,
{
    lemma_round_div_bounds(v, at_least_one(den));
}

} // verus!
