//! The collision rate that a frame host shows: the number of collisions in
//! the last full second of frames.

use vstd::prelude::*;

verus! {

/// Number of frames that make a second.
pub const FRAMES_PER_SECOND: u32 = 60;

/// Mathematical model of a [`RateMeter`].
pub struct RateModel {
    /// Frames recorded in the running second, between zero and sixty.
    pub frames: int,
    /// Collisions recorded in the running second.
    pub pending: int,
    /// Collisions of the second that was completed last.
    pub rate: int,
}

impl RateModel {
    /// What every meter satisfies.
    pub open spec fn valid(self) -> bool {
        &&& 0 <= self.frames <= FRAMES_PER_SECOND
        &&& 0 <= self.pending <= self.frames * u32::MAX
        &&& 0 <= self.rate <= FRAMES_PER_SECOND * u32::MAX
    }

    /// Whether the next frame begins a second: none is running yet, or the
    /// running one is full.
    pub open spec fn rolls_over(self) -> bool {
        self.frames % (FRAMES_PER_SECOND as int) == 0
    }

    /// The meter after a frame with the given number of collisions. Where
    /// the frame begins a second, the count of the second before becomes the
    /// rate and the running count starts again.
    pub open spec fn recorded(self, collisions: int) -> RateModel {
        if self.rolls_over() {
            RateModel { frames: 1, pending: collisions, rate: self.pending }
        } else {
            RateModel {
                frames: self.frames + 1,
                pending: self.pending + collisions,
                rate: self.rate,
            }
        }
    }
}

/// Counts collisions by the second.
#[derive(Clone, Copy, Debug, PartialEq, Eq)]
pub struct RateMeter {
    frame_counter: u32,
    per_second_counter: u64,
    collisions_per_second: u64,
}

impl View for RateMeter {
    type V = RateModel;

    closed spec fn view(&self) -> RateModel {
        RateModel {
            frames: self.frame_counter as int,
            pending: self.per_second_counter as int,
            rate: self.collisions_per_second as int,
        }
    }
}

impl RateMeter {
    /// Every meter is valid.
    #[verifier::type_invariant]
    pub open spec fn well_formed(self) -> bool {
        self@.valid()
    }

    /// A meter that has recorded nothing.
    pub fn new() -> (r: RateMeter)
        ensures
            r@ == (RateModel { frames: 0, pending: 0, rate: 0 }),
    {
        RateMeter { frame_counter: 0, per_second_counter: 0, collisions_per_second: 0 }
    }

    /// Records the number of collisions of one more frame.
    pub fn record(&mut self, collisions: u32)
        ensures
            final(self)@ == old(self)@.recorded(collisions as int),
    {
        proof {
            use_type_invariant(&*self);
        }
        let mut frames: u32 = self.frame_counter;
        let mut pending: u64 = self.per_second_counter;
        let mut rate: u64 = self.collisions_per_second;
        if frames % FRAMES_PER_SECOND == 0 {
            frames = 0;
            rate = pending;
            pending = 0;
        }
        frames = frames + 1;
        pending = pending + collisions as u64;
        *self = RateMeter {
            frame_counter: frames,
            per_second_counter: pending,
            collisions_per_second: rate,
        };
    }

    /// Number of collisions in the second that was completed last.
    pub fn collisions_per_second(&self) -> (r: u64)
        ensures
            r == self@.rate,
    {
        self.collisions_per_second
    }
}

} // verus!
