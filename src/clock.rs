use vstd::prelude::*;

verus! {

/// A tick-counting deadline timer: it fires once its counter has reached
/// the deadline.
pub struct Clock {
    pub tick: usize,
    pub deadline: usize,
}

impl Clock {
    /// Whether the counter has reached the deadline.
    pub open spec fn is_ready(self) -> bool {
        self.tick >= self.deadline
    }

    /// The clock after one tick: the counter advances by one, wrapping to
    /// zero past `usize::MAX`.
    pub open spec fn ticked(self) -> Clock {
        Clock {
            tick: if self.tick == usize::MAX {
                0
            } else {
                (self.tick + 1) as usize
            },
            deadline: self.deadline,
        }
    }

    /// A clock armed to fire after `deadline` ticks.
    pub fn deadline(deadline: usize) -> (r: Clock)
        ensures
            r.tick == 0,
            r.deadline == deadline,
    {
        Clock { tick: 0, deadline }
    }

    /// Whether the clock has fired, without advancing it.
    pub fn ready(&self) -> (r: bool)
        ensures
            r == self.is_ready(),
    {
        self.tick >= self.deadline
    }

    /// Advances the counter by one (wrapping) and reports whether the clock
    /// has fired.
    pub fn tick(&mut self) -> (r: bool)
        ensures
            *final(self) == old(self).ticked(),
            r == final(self).is_ready(),
    {
        self.tick = self.tick.wrapping_add(1);
        self.ready()
    }

    /// Rearms the clock: the counter restarts at zero with a new deadline.
    pub fn reset(&mut self, deadline: usize)
        ensures
            final(self).tick == 0,
            final(self).deadline == deadline,
    {
        self.tick = 0;
        self.deadline = deadline;
    }
}

impl Default for Clock {
    /// A clock that is ready at once: counter and deadline are both zero.
    fn default() -> (r: Clock)
        ensures
            r.tick == 0,
            r.deadline == 0,
    {
        Clock { tick: 0, deadline: 0 }
    }
}

/// Ticking never overflows: a counter at `usize::MAX` wraps to zero and
/// keeps its deadline.
pub proof fn tick_wraps(c: Clock)
    requires
        c.tick == usize::MAX,
    ensures
        c.ticked().tick == 0,
        c.ticked().deadline == c.deadline,
{
}

} // verus!
