use vstd::prelude::*;

verus! {

/// The waveform of an oscillator.
#[derive(Clone, Copy, Debug, PartialEq, Eq, Structural)]
pub enum Signal {
    Sine,
    Square,
    Saw,
}

impl Signal {
    /// The waveform's name.
    pub open spec fn spec_name(self) -> Seq<char> {
        match self {
            Signal::Sine => "Sine"@,
            Signal::Square => "Square"@,
            Signal::Saw => "Saw"@,
        }
    }

    /// The waveform's name, as it is shown in diagnostics.
    pub fn name(&self) -> (r: &'static str)
        ensures
            r@ == self.spec_name(),
    {
        match self {
            Signal::Sine => "Sine",
            Signal::Square => "Square",
            Signal::Saw => "Saw",
        }
    }

    /// The square wave's level rule: high exactly when the number of whole
    /// elapsed sample-rate periods is a multiple of the (truncated) frequency.
    pub fn square_high(periods: usize, frequency: usize) -> (r: bool)
        requires
            frequency > 0,
        ensures
            r == (periods % frequency == 0),
    {
        periods % frequency == 0
    }
}

} // verus!
