use rand::rngs::SmallRng;
use vstd::prelude::*;

use crate::clock::Clock;
use crate::error::Error;
use crate::random::{draw_between, pick};

verus! {

/// Slots in a sequence's loop.
pub const LENGTH: usize = 8;

/// The loop lengths a sequence may be given.
pub const METRES: [usize; 5] = [3, 4, 5, 7, 8];

/// Fewest samples between two note mutations.
pub const SEQUENCE_MUTATE_MIN: usize = 441_000;

/// Most samples between two note mutations.
pub const SEQUENCE_MUTATE_MAX: usize = 882_000;

/// One step of the loop: how many tempo units it lasts, and its pitch.
#[derive(Clone, Copy, Debug)]
pub struct Note<F> {
    pub length: usize,
    pub frequency: F,
}

impl<F: Copy> Note<F> {
    /// Whether a note fits a loop of `length` steps over `scale`.
    pub open spec fn fits(self, scale: [F; LENGTH], length: usize) -> bool {
        &&& 1 <= self.length <= length
        &&& scale@.contains(self.frequency)
    }

    /// A random note: a duration from `1..=length` and a pitch from `scale`.
    pub fn new(rng: &mut SmallRng, scale: &[F; LENGTH], length: usize) -> (r: Result<Note<F>, Error>)
        requires
            length >= 1,
        ensures
            r matches Ok(n) && n.fits(*scale, length),
    {
        let length = draw_between(rng, 1, length);
        match pick(rng, scale.as_slice()) {
            Some(frequency) => Ok(Note { length, frequency }),
            None => Err(Error::Rng),
        }
    }
}

impl<F: Default> Default for Note<F> {
    /// The empty note that fills unused slots: no duration, default pitch.
    fn default() -> (r: Note<F>)
        ensures
            r.length == 0,
    {
        Note { length: 0, frequency: F::default() }
    }
}

/// An eight-slot step sequencer over pitches of type `F`. It loops through
/// its first `length` notes, each lasting its duration times `tempo`
/// samples, and now and then replaces a note that is not playing.
pub struct Sequence<F> {
    /// Samples per tempo unit.
    pub tempo: usize,
    pub scale: [F; LENGTH],
    pub notes: [Note<F>; LENGTH],
    /// How many slots the loop uses.
    pub length: usize,
    pub mutate_clock: Clock,
    pub note_clock: Clock,
    /// The slot playing now.
    pub note: usize,
}

/// Whether `m` is one of the loop lengths a sequence may be given.
pub open spec fn is_metre(m: usize) -> bool {
    m == 3 || m == 4 || m == 5 || m == 7 || m == 8
}

impl<F: Copy> Sequence<F> {
    /// The loop's well-formedness: its length fits the slots, the playing
    /// slot is inside the loop, every note in the loop lasts between one
    /// step and the loop's length.
    pub open spec fn wf(&self) -> bool {
        &&& 1 <= self.length <= LENGTH
        &&& self.note < self.length
        &&& forall|i: int| 0 <= i < self.length ==> 1 <= #[trigger] self.notes[i].length <= self.length
    }

    /// Whether a clock is armed with a deadline from the mutation window.
    pub open spec fn armed(clock: Clock) -> bool {
        &&& clock.tick == 0
        &&& SEQUENCE_MUTATE_MIN <= clock.deadline <= SEQUENCE_MUTATE_MAX
    }

    /// `notes` is this loop's notes with exactly one slot replaced, never
    /// the playing one, by a note that fits the loop.
    pub open spec fn replaced_one(self, notes: [Note<F>; LENGTH]) -> bool {
        exists|i: int|
            0 <= i < self.length && i != self.note && notes[i].fits(self.scale, self.length)
                && #[trigger] notes@ == self.notes@.update(i, notes[i])
    }

    /// What a mutation leaves of this loop's notes: one slot other than the
    /// playing one replaced; a loop of one slot has no such slot and keeps
    /// its note.
    pub open spec fn mutated_notes(self, notes: [Note<F>; LENGTH]) -> bool {
        if self.length >= 2 {
            self.replaced_one(notes)
        } else {
            notes == self.notes
        }
    }

    /// The slot after `note` in a loop of `length` slots.
    pub open spec fn following(note: usize, length: usize) -> usize {
        if note + 1 >= length {
            0
        } else {
            (note + 1) as usize
        }
    }

    /// The slot that a draw from `0..length - 1` names once the playing
    /// slot `note` is skipped over.
    pub open spec fn skipping(draw: usize, note: usize) -> usize {
        if draw >= note {
            (draw + 1) as usize
        } else {
            draw
        }
    }

    /// How many samples a note of `steps` tempo units lasts, at most
    /// `usize::MAX`.
    pub open spec fn duration(steps: usize, tempo: usize) -> usize {
        if steps * tempo <= usize::MAX {
            (steps * tempo) as usize
        } else {
            usize::MAX
        }
    }

    /// Advances one sample. First the mutation clock ticks; when it fires,
    /// one slot other than the playing one gets a fresh random note and the
    /// clock is rearmed. Then the step clock ticks; when it fires, the loop
    /// moves to its next slot, the step clock is rearmed with that note's
    /// duration in samples, and the duration and pitch are returned.
    pub fn next(&mut self, rng: &mut SmallRng) -> (r: Option<(usize, F)>)
        requires
            old(self).wf(),
        ensures
            final(self).wf(),
            final(self).tempo == old(self).tempo,
            final(self).scale == old(self).scale,
            final(self).length == old(self).length,
            old(self).mutate_clock.ticked().is_ready() ==> {
                &&& Self::armed(final(self).mutate_clock)
                &&& old(self).mutated_notes(final(self).notes)
            },
            !old(self).mutate_clock.ticked().is_ready() ==> {
                &&& final(self).mutate_clock == old(self).mutate_clock.ticked()
                &&& final(self).notes == old(self).notes
            },
            old(self).note_clock.ticked().is_ready() ==> {
                &&& final(self).note == Self::following(old(self).note, old(self).length)
                &&& r == Some(
                    (
                        Self::duration(
                            final(self).notes[final(self).note as int].length,
                            final(self).tempo,
                        ),
                        final(self).notes[final(self).note as int].frequency,
                    ),
                )
                &&& final(self).note_clock == (Clock {
                    tick: 0,
                    deadline: Self::duration(
                        final(self).notes[final(self).note as int].length,
                        final(self).tempo,
                    ),
                })
            },
            !old(self).note_clock.ticked().is_ready() ==> {
                &&& r is None
                &&& final(self).note == old(self).note
                &&& final(self).note_clock == old(self).note_clock.ticked()
            },
    {
        if self.mutate_clock.tick() {
            self.mutate(rng);
        }
        if self.note_clock.tick() {
            Some(self.step())
        } else {
            None
        }
    }

    /// Rearms the mutation clock and replaces one slot other than the
    /// playing one, drawn uniformly, with a fresh random note.
    fn mutate(&mut self, rng: &mut SmallRng)
        requires
            old(self).wf(),
        ensures
            final(self).wf(),
            Self::armed(final(self).mutate_clock),
            old(self).mutated_notes(final(self).notes),
            final(self).tempo == old(self).tempo,
            final(self).scale == old(self).scale,
            final(self).length == old(self).length,
            final(self).note == old(self).note,
            final(self).note_clock == old(self).note_clock,
    {
        self.mutate_clock.reset(draw_between(rng, SEQUENCE_MUTATE_MIN, SEQUENCE_MUTATE_MAX));
        if self.length >= 2 {
            let draw = draw_between(rng, 0, self.length - 2);
            match Note::new(rng, &self.scale, self.length) {
                Ok(fresh) => self.replace_note(draw, fresh),
                Err(_) => {},
            }
        }
    }

    /// Writes `fresh` into the slot that `draw`, a draw from
    /// `0..length - 1`, names once the playing slot is skipped over.
    pub fn replace_note(&mut self, draw: usize, fresh: Note<F>)
        requires
            old(self).wf(),
            draw + 1 < old(self).length,
            fresh.fits(old(self).scale, old(self).length),
        ensures
            final(self).wf(),
            final(self).notes@ == old(self).notes@.update(
                Self::skipping(draw, old(self).note) as int,
                fresh,
            ),
            Self::skipping(draw, old(self).note) != old(self).note,
            old(self).replaced_one(final(self).notes),
            final(self).tempo == old(self).tempo,
            final(self).scale == old(self).scale,
            final(self).length == old(self).length,
            final(self).note == old(self).note,
            final(self).note_clock == old(self).note_clock,
            final(self).mutate_clock == old(self).mutate_clock,
    {
        let index = if draw >= self.note {
            draw + 1
        } else {
            draw
        };
        let ghost before = *self;
        self.notes[index] = fresh;
        assert(self.notes@ == before.notes@.update(index as int, self.notes[index as int]));
        assert forall|i: int| 0 <= i < self.length implies 1 <= #[trigger] self.notes[i].length
            <= self.length by {
            if i != index {
                assert(self.notes[i] == before.notes[i]);
            }
        }
    }

    /// Moves to the next slot of the loop and rearms the step clock with
    /// that note's duration in samples.
    fn step(&mut self) -> (r: (usize, F))
        requires
            old(self).wf(),
        ensures
            final(self).wf(),
            final(self).note == Self::following(old(self).note, old(self).length),
            r == (
                Self::duration(final(self).notes[final(self).note as int].length, final(self).tempo),
                final(self).notes[final(self).note as int].frequency,
            ),
            final(self).note_clock == (Clock { tick: 0, deadline: r.0 }),
            final(self).tempo == old(self).tempo,
            final(self).scale == old(self).scale,
            final(self).notes == old(self).notes,
            final(self).length == old(self).length,
            final(self).mutate_clock == old(self).mutate_clock,
    {
        self.note = self.note + 1;
        if self.note >= self.length {
            self.note = 0;
        }
        let length = match self.notes[self.note].length.checked_mul(self.tempo) {
            Some(length) => length,
            None => usize::MAX,
        };
        self.note_clock.reset(length);
        (length, self.notes[self.note].frequency)
    }
}

impl<F: Copy + Default> Sequence<F> {
    /// A random sequence at `tempo` samples per step unit: a scale drawn
    /// from `scales`, a loop length drawn from [`METRES`], that many random
    /// notes (the other slots stay empty), a mutation deadline drawn from the
    /// mutation window, and a step clock that is ready at once on the last
    /// slot, so that the first sample starts the first note.
    /// Fails with [`Error::Rng`] exactly when `scales` is empty.
    pub fn new(rng: &mut SmallRng, tempo: usize, scales: &[[F; LENGTH]]) -> (r: Result<
        Sequence<F>,
        Error,
    >)
        ensures
            r is Err <==> scales@.len() == 0,
            r matches Err(e) ==> e == Error::Rng,
            r matches Ok(s) ==> {
                &&& s.wf()
                &&& s.tempo == tempo
                &&& scales@.contains(s.scale)
                &&& is_metre(s.length)
                &&& s.note == s.length - 1
                &&& s.note_clock == (Clock { tick: 0, deadline: 0 })
                &&& Self::armed(s.mutate_clock)
                &&& forall|i: int| 0 <= i < s.length ==> #[trigger] s.notes[i].fits(s.scale, s.length)
                &&& forall|i: int| s.length <= i < LENGTH ==> #[trigger] s.notes[i].length == 0
            },
    {
        let scale = match pick(rng, scales) {
            Some(scale) => scale,
            None => return Err(Error::Rng),
        };
        let metres = METRES;
        assert(metres@ == seq![3usize, 4, 5, 7, 8]);
        let length = match pick(rng, metres.as_slice()) {
            Some(length) => length,
            None => return Err(Error::Rng),
        };
        assert(is_metre(length)) by {
            let k = choose|k: int| 0 <= k < metres@.len() && metres@[k] == length;
            assert(0 <= k < 5);
        }
        let mut notes: [Note<F>; LENGTH] = [Note::default();LENGTH];
        let mut i: usize = 0;
        while i < length
            invariant
                i <= length,
                is_metre(length),
                forall|j: int| 0 <= j < i ==> #[trigger] notes[j].fits(scale, length),
                forall|j: int| i <= j < LENGTH ==> #[trigger] notes[j].length == 0,
            decreases length - i,
        {
            match Note::new(rng, &scale, length) {
                Ok(note) => {
                    notes[i] = note;
                },
                Err(e) => return Err(e),
            }
            i = i + 1;
        }
        assert forall|j: int| 0 <= j < length implies 1 <= #[trigger] notes[j].length <= length by {
            assert(notes[j].fits(scale, length));
        }
        let mutate_clock = Clock::deadline(
            draw_between(rng, SEQUENCE_MUTATE_MIN, SEQUENCE_MUTATE_MAX),
        );
        Ok(
            Sequence {
                tempo,
                scale,
                notes,
                length,
                mutate_clock,
                note_clock: Clock::default(),
                note: length - 1,
            },
        )
    }
}

} // verus!
