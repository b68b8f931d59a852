use rand::rngs::SmallRng;
use vstd::prelude::*;

use crate::clock::Clock;
use crate::random::draw_between;

verus! {

/// Fewest samples between two replacements of a modulator operator.
pub const SYNTH_MUTATE_MIN: usize = 2_205_000;

/// Most samples between two replacements of a modulator operator.
pub const SYNTH_MUTATE_MAX: usize = 4_410_000;

/// The voice's operator-mutation timer. It counts samples as the voice
/// plays and, once its deadline has passed, names the modulator slot
/// (1 or 2) to replace at the next note.
pub struct Mutator {
    pub clock: Clock,
}

impl Mutator {
    /// Whether a clock is armed with a deadline from the mutation window.
    pub open spec fn armed(clock: Clock) -> bool {
        &&& clock.tick == 0
        &&& SYNTH_MUTATE_MIN <= clock.deadline <= SYNTH_MUTATE_MAX
    }

    /// A timer armed with a random deadline from the mutation window.
    pub fn new(rng: &mut SmallRng) -> (r: Mutator)
        ensures
            Self::armed(r.clock),
    {
        Mutator { clock: Clock::deadline(draw_between(rng, SYNTH_MUTATE_MIN, SYNTH_MUTATE_MAX)) }
    }

    /// Counts one sample.
    pub fn tick(&mut self)
        ensures
            final(self).clock == old(self).clock.ticked(),
    {
        self.clock.tick();
    }

    /// At a note start: if the deadline has passed, rearms the timer with a
    /// new random deadline and returns the modulator slot to replace;
    /// otherwise returns `None` and changes nothing.
    pub fn due(&mut self, rng: &mut SmallRng) -> (r: Option<usize>)
        ensures
            old(self).clock.is_ready() ==> (r matches Some(i) && 1 <= i <= 2),
            old(self).clock.is_ready() ==> Self::armed(final(self).clock),
            !old(self).clock.is_ready() ==> r is None && *final(self) == *old(self),
    {
        if self.clock.ready() {
            self.clock.reset(draw_between(rng, SYNTH_MUTATE_MIN, SYNTH_MUTATE_MAX));
            Some(draw_between(rng, 1, 2))
        } else {
            None
        }
    }
}

} // verus!
