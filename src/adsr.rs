use vstd::prelude::*;

use crate::clock::Clock;

verus! {

/// A stage of the envelope, in the order the stages are passed through.
#[derive(Clone, Copy, Debug, PartialEq, Eq, Structural)]
pub enum State {
    Attack,
    Decay,
    Sustain,
    Release,
    Off,
}

impl State {
    /// The stage after this one in the cycle
    /// `Off → Attack → Decay → Sustain → Release → Off`.
    pub open spec fn successor(self) -> State {
        match self {
            State::Off => State::Attack,
            State::Attack => State::Decay,
            State::Decay => State::Sustain,
            State::Sustain => State::Release,
            State::Release => State::Off,
        }
    }

    /// The stage after this one in the cycle.
    pub fn next(&self) -> (r: State)
        ensures
            r == self.successor(),
    {
        match self {
            State::Off => State::Attack,
            State::Attack => State::Decay,
            State::Decay => State::Sustain,
            State::Sustain => State::Release,
            _ => State::Off,
        }
    }
}

/// How many samples each timed stage of one note lasts.
#[derive(Clone, Copy, Debug, PartialEq, Eq, Structural)]
pub struct Segments {
    pub attack: usize,
    pub decay: usize,
    pub sustain: usize,
    pub release: usize,
}

impl Segments {
    /// The length of a stage; `Off` lasts no time.
    pub open spec fn of(self, s: State) -> usize {
        match s {
            State::Attack => self.attack,
            State::Decay => self.decay,
            State::Sustain => self.sustain,
            State::Release => self.release,
            State::Off => 0,
        }
    }
}

/// The stage machine of an ADSR envelope: which stage a note is in, and the
/// clock that ends the stage.
pub struct Envelope {
    pub state: State,
    pub clock: Clock,
    pub segments: Segments,
}

impl Envelope {
    /// The stage a timed-out stage hands over to: the next one in order,
    /// except that once released the envelope stays `Off` until restarted.
    pub open spec fn advance(s: State) -> State {
        match s {
            State::Attack => State::Decay,
            State::Decay => State::Sustain,
            State::Sustain => State::Release,
            _ => State::Off,
        }
    }

    /// The envelope of one timer step: a stage ends when its clock fires;
    /// a timed stage then starts its own clock, while `Off` keeps counting.
    pub open spec fn stepped(self) -> Envelope {
        let t = self.clock.ticked();
        if t.is_ready() {
            let s = Self::advance(self.state);
            Envelope {
                state: s,
                clock: if s == State::Off {
                    t
                } else {
                    Clock { tick: 0, deadline: self.segments.of(s) }
                },
                segments: self.segments,
            }
        } else {
            Envelope { state: self.state, clock: t, segments: self.segments }
        }
    }

    /// An idle envelope: `Off`, with a clock that is already ready.
    pub fn new() -> (r: Envelope)
        ensures
            r.state == State::Off,
            r.clock == (Clock { tick: 0, deadline: 0 }),
            r.segments == (Segments { attack: 0, decay: 0, sustain: 0, release: 0 }),
    {
        Envelope {
            state: State::Off,
            clock: Clock::default(),
            segments: Segments { attack: 0, decay: 0, sustain: 0, release: 0 },
        }
    }

    /// Starts a note: the `Attack` stage begins, timed by `segments.attack`.
    pub fn start(&mut self, segments: Segments)
        ensures
            final(self).state == State::Attack,
            final(self).clock == (Clock { tick: 0, deadline: segments.attack }),
            final(self).segments == segments,
    {
        self.state = State::Attack;
        self.segments = segments;
        self.clock.reset(segments.attack);
    }

    /// Advances one sample. Returns the stage just entered when the current
    /// stage timed out, and `None` otherwise.
    pub fn next(&mut self) -> (r: Option<State>)
        ensures
            *final(self) == old(self).stepped(),
            r == (if old(self).clock.ticked().is_ready() {
                Some(final(self).state)
            } else {
                None::<State>
            }),
            final(self).state == old(self).state || final(self).state == Self::advance(
                old(self).state,
            ),
    {
        if self.clock.tick() {
            let s = self.state.next();
            match s {
                State::Decay | State::Sustain | State::Release => {
                    self.state = s;
                    let length = match s {
                        State::Decay => self.segments.decay,
                        State::Sustain => self.segments.sustain,
                        _ => self.segments.release,
                    };
                    self.clock.reset(length);
                },
                _ => {
                    self.state = State::Off;
                },
            }
            Some(self.state)
        } else {
            None
        }
    }
}

/// The envelope's stages only move forward: a timed-out stage hands over to
/// its successor in `Attack → Decay → Sustain → Release → Off`, `Off` is
/// entered only from `Release` (or from `Off` itself), and `Off` is never
/// left by the passing of time, only by `start`.
pub proof fn stages_move_forward(e: Envelope)
    ensures
        e.stepped().state == e.state || e.stepped().state == e.state.successor() || (e.state
            == State::Off && e.stepped().state == State::Off),
        e.stepped().state == State::Off ==> e.state == State::Release || e.state == State::Off,
        e.state == State::Off ==> e.stepped().state == State::Off,
{
}

} // verus!
