//! A seeded generative music engine: the scheduling core.
//!
//! This crate holds the discrete, integer side of the engine: the
//! tick-counting [`Clock`], the step [`Sequence`] and its [`Note`]s, the
//! envelope's stage machine ([`Envelope`]), the voice's operator-mutation
//! timer ([`Mutator`]) and the square waveform's on/off rule ([`Signal`]).

mod adsr;
mod clock;
mod error;
mod random;
mod sequence;
mod signal;
mod synth;

pub use adsr::{Envelope, Segments, State};
pub use clock::Clock;
pub use error::Error;
pub use sequence::{Note, Sequence, LENGTH, METRES, SEQUENCE_MUTATE_MAX, SEQUENCE_MUTATE_MIN};
pub use signal::Signal;
pub use synth::{Mutator, SYNTH_MUTATE_MAX, SYNTH_MUTATE_MIN};
