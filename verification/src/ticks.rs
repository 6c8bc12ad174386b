//! Layout of the click track of a frame: which samples of a buffer belong
//! to a tick, one tick being sounded for every collision of the frame.

use vstd::arithmetic::div_mod::{
    lemma_basic_div, lemma_div_is_ordered_by_denominator, lemma_fundamental_div_mod,
    lemma_fundamental_div_mod_converse, lemma_mod_bound,
};
use vstd::prelude::*;

verus! {

/// Number of samples of one tick: the length asked for, but no more than
/// half of the slot that each tick has in the buffer. The divisor is never
/// zero: with a frequency of zero the whole buffer is the limit.
pub open spec fn tick_length(samples: int, frequency: int, length: int) -> int {
    let most = if frequency < 1 {
        samples
    } else {
        samples / (2 * frequency)
    };
    if length < most {
        length
    } else {
        most
    }
}

/// Whether sample `i` of a buffer belongs to a tick. The buffer is cut into
/// `frequency` slots of equal width, from its start; a tick fills the first
/// samples of each slot.
pub open spec fn in_tick(i: int, samples: int, frequency: int, length: int) -> bool {
    let width = samples / frequency;
    &&& 0 < frequency
    &&& 0 < width
    &&& i / width < frequency
    &&& i % width < tick_length(samples, frequency, length)
}

/// Computes the number of samples of one tick.
pub fn tick_samples(samples: usize, frequency: usize, length: usize) -> (r: usize)
    ensures
        r == tick_length(samples as int, frequency as int, length as int),
{
    let most: usize = match frequency.checked_mul(2) {
        Some(twice) => if twice < 1 {
            samples
        } else {
            samples / twice
        },
        None => {
            proof {
                lemma_basic_div(samples as int, 2 * frequency);
            }
            0
        },
    };
    if length < most {
        length
    } else {
        most
    }
}

/// Lays out the ticks of a frame in a buffer of `samples` samples: the
/// result tells for every sample whether it belongs to a tick. There are
/// `frequency` ticks, evenly spaced, each of at most `length` samples; with
/// a frequency of zero, or one too high for the buffer, there is none.
pub fn tick_mask(samples: usize, frequency: usize, length: usize) -> (mask: Vec<bool>)
    ensures
        mask@.len() == samples,
        forall|i: int|
            0 <= i < samples ==> mask@[i] == in_tick(
                i,
                samples as int,
                frequency as int,
                length as int,
            ),
{
    let mut mask: Vec<bool> = Vec::new();
    let mut filled: usize = 0;
    while filled < samples
        invariant
            filled <= samples,
            mask@.len() == filled,
            forall|i: int| 0 <= i < filled ==> !mask@[i],
        decreases samples - filled,
    {
        mask.push(false);
        filled = filled + 1;
    }
    let span: usize = tick_samples(samples, frequency, length);
    if frequency == 0 || span == 0 {
        return mask;
    }
    let width: usize = samples / frequency;
    proof {
        lemma_div_is_ordered_by_denominator(samples as int, frequency as int, 2 * frequency);
        lemma_fundamental_div_mod(samples as int, frequency as int);
        lemma_mod_bound(samples as int, frequency as int);
    }
    let mut slot: usize = 0;
    while slot < frequency
        invariant
            slot <= frequency,
            0 < span <= width,
            frequency * width <= samples,
            mask@.len() == samples,
            forall|i: int| 0 <= i < samples ==> mask@[i] == (i / (width as int) < slot && i % (
            width as int) < span),
        decreases frequency - slot,
    {
        assert(slot * width + width <= frequency * width) by (nonlinear_arith)
            requires
                slot < frequency,
                width >= 0,
        ;
        let offset: usize = slot * width;
        let mut at: usize = 0;
        while at < span
            invariant
                slot < frequency,
                at <= span <= width,
                0 < width,
                offset == slot * width,
                offset + width <= samples,
                mask@.len() == samples,
                forall|i: int|
                    0 <= i < samples ==> mask@[i] == ((i / (width as int) < slot && i % (
                    width as int) < span) || (i / (width as int) == slot && i % (width as int)
                        < at)),
            decreases span - at,
        {
            let ghost before = mask@;
            mask.set(offset + at, true);
            proof {
                let w = width as int;
                let j = offset + at;
                assert(w * slot == slot * w) by (nonlinear_arith);
                lemma_fundamental_div_mod_converse(j, w, slot as int, at as int);
                assert(mask@ == before.update(j, true));
                assert forall|i: int| 0 <= i < samples implies mask@[i] == ((i / w < slot && i % w
                    < span) || (i / w == slot && i % w < at + 1)) by {
                    if i != j && i / w == slot && i % w == at {
                        lemma_fundamental_div_mod(i, w);
                    }
                }
            }
            at = at + 1;
        }
        slot = slot + 1;
    }
    mask
}

} // verus!
