//! The machine's global cycle counter.

use vstd::prelude::*;

verus! {

/// Global cycle counter for the machine.
#[derive(Debug, Clone, Copy, PartialEq, Eq, Structural)]
pub struct Clock {
    cycle: u64,
}

impl View for Clock {
    type V = u64;

    closed spec fn view(&self) -> u64 {
        self.cycle
    }
}

impl Default for Clock {
    fn default() -> (c: Self)
        ensures
            c@ == 0,
    {
        Clock { cycle: 0 }
    }
}

impl Clock {
    /// The current cycle.
    pub fn current(self) -> (c: u64)
        ensures
            c == self@,
    {
        self.cycle
    }

    /// Advance by one cycle.
    pub fn tick(&mut self)
        requires
            old(self)@ < u64::MAX,
        ensures
            final(self)@ == old(self)@ + 1,
    {
        self.cycle = self.cycle + 1;
    }

    /// Back to cycle zero.
    pub fn reset(&mut self)
        ensures
            final(self)@ == 0,
    {
        self.cycle = 0;
    }
}

} // verus!
