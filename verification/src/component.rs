//! Shared component traits for clocked simulation.

use vstd::prelude::*;
use crate::bus::Bus;

verus! {

/// Minimal per-cycle status returned by a processor.
#[derive(Debug, Clone, Copy, PartialEq, Eq, Structural)]
pub struct CpuCycle {
    pub retired_instructions: u64,
    pub stalled: bool,
}

impl Default for CpuCycle {
    fn default() -> (c: Self)
        ensures
            c == (CpuCycle { retired_instructions: 0, stalled: false }),
    {
        CpuCycle { retired_instructions: 0, stalled: false }
    }
}

/// A simulation object that can be reset to its power-on state.
pub trait SimComponent {
    /// The component's internal consistency condition.
    spec fn well_formed(&self) -> bool;

    fn reset(&mut self)
        ensures
            final(self).well_formed(),
    ;
}

/// A processor that advances its architectural state one cycle at a time.
pub trait Processor: SimComponent {
    type Error;

    /// The number of cycles stepped since reset.
    spec fn spec_cycle(&self) -> u64;

    /// What one cycle from `self` may leave as `after` and report as `r`,
    /// whatever the bus answered during it.
    spec fn spec_stepped(&self, after: &Self, r: Result<CpuCycle, Self::Error>) -> bool;

    fn cycle(&self) -> (c: u64)
        ensures
            c == self.spec_cycle(),
    ;

    /// Advance one clock cycle against `bus`; the cycle count grows by one
    /// whether or not the cycle ends in an error.
    fn step_cycle<B: Bus>(&mut self, bus: &mut B) -> (r: Result<CpuCycle, Self::Error>)
        requires
            old(self).well_formed(),
            old(self).spec_cycle() < u64::MAX,
        ensures
            final(self).well_formed(),
            final(self).spec_cycle() == old(self).spec_cycle() + 1,
            old(self).spec_stepped(&*final(self), r),
    ;
}

} // verus!
