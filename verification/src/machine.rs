//! Top-level machine wrapper that ties a processor to a bus.

use vstd::prelude::*;
use crate::bus::Bus;
use crate::clock::Clock;
use crate::component::{CpuCycle, Processor};

verus! {

/// A single-core von Neumann machine with one processor and a unified address space.
#[derive(Debug)]
pub struct Machine<P, B> {
    clock: Clock,
    cpu: P,
    bus: B,
}

impl<P: Processor, B: Bus> Machine<P, B> {
    /// The machine clock.
    pub closed spec fn spec_clock(&self) -> u64 {
        self.clock@
    }

    /// The processor.
    pub closed spec fn spec_cpu(&self) -> P {
        self.cpu
    }

    /// The bus.
    pub closed spec fn spec_bus(&self) -> B {
        self.bus
    }

    /// A machine at cycle zero around `cpu` and `bus`.
    pub fn new(cpu: P, bus: B) -> (m: Self)
        ensures
            m.spec_clock() == 0,
            m.spec_cpu() == cpu,
            m.spec_bus() == bus,
    {
        Machine { clock: Clock::default(), cpu, bus }
    }

    /// Reset the clock, the bus and the processor.
    pub fn reset(&mut self)
        ensures
            final(self).spec_clock() == 0,
            final(self).spec_cpu().well_formed(),
    {
        self.clock.reset();
        self.bus.reset();
        self.cpu.reset();
    }

    /// Tick the bus, step the processor one cycle against it, then advance the
    /// clock; the processor's report is handed back as it came.
    pub fn step_cycle(&mut self) -> (r: Result<CpuCycle, P::Error>)
        requires
            old(self).spec_cpu().well_formed(),
            old(self).spec_cpu().spec_cycle() < u64::MAX,
            old(self).spec_clock() < u64::MAX,
        ensures
            final(self).spec_cpu().well_formed(),
            final(self).spec_cpu().spec_cycle() == old(self).spec_cpu().spec_cycle() + 1,
            final(self).spec_clock() == old(self).spec_clock() + (if r is Ok { 1int } else { 0int }),
            old(self).spec_cpu().spec_stepped(&final(self).spec_cpu(), r),
    {
        self.bus.tick();
        let result = self.cpu.step_cycle(&mut self.bus);
        match result {
            Ok(cycle) => {
                self.clock.tick();
                Ok(cycle)
            },
            Err(error) => Err(error),
        }
    }

    /// Step `cycles` cycles, collecting each cycle's report; the first error stops the run.
    pub fn run_cycles(&mut self, cycles: u64) -> (r: Result<Vec<CpuCycle>, P::Error>)
        requires
            old(self).spec_cpu().well_formed(),
            old(self).spec_cpu().spec_cycle() + cycles <= u64::MAX,
            old(self).spec_clock() + cycles <= u64::MAX,
        ensures
            final(self).spec_cpu().well_formed(),
            r matches Ok(reports) ==> reports.len() == cycles && final(self).spec_clock() == old(
                self,
            ).spec_clock() + cycles && final(self).spec_cpu().spec_cycle() == old(self).spec_cpu().spec_cycle()
                + cycles,
            cycles == 0 ==> (r matches Ok(reports) && reports.len() == 0),
    {
        let mut reports: Vec<CpuCycle> = Vec::new();
        let mut i: u64 = 0;
        while i < cycles
            invariant
                i <= cycles,
                reports.len() == i,
                self.cpu.well_formed(),
                self.cpu.spec_cycle() == old(self).spec_cpu().spec_cycle() + i,
                self.clock@ == old(self).spec_clock() + i,
                old(self).spec_cpu().spec_cycle() + cycles <= u64::MAX,
                old(self).spec_clock() + cycles <= u64::MAX,
            decreases cycles - i,
        {
            let report = self.step_cycle()?;
            reports.push(report);
            i = i + 1;
        }
        Ok(reports)
    }

    /// The machine clock.
    pub fn clock(&self) -> (c: Clock)
        ensures
            c@ == self.spec_clock(),
    {
        self.clock
    }

    /// The processor.
    pub fn cpu(&self) -> (c: &P)
        ensures
            *c == self.spec_cpu(),
    {
        &self.cpu
    }

    /// The processor, for mutation.
    pub fn cpu_mut(&mut self) -> (c: &mut P)
        ensures
            *c == old(self).spec_cpu(),
            final(self).spec_cpu() == *final(c),
            final(self).spec_clock() == old(self).spec_clock(),
            final(self).spec_bus() == old(self).spec_bus(),
    {
        &mut self.cpu
    }

    /// The bus.
    pub fn bus(&self) -> (b: &B)
        ensures
            *b == self.spec_bus(),
    {
        &self.bus
    }

    /// The bus, for mutation.
    pub fn bus_mut(&mut self) -> (b: &mut B)
        ensures
            *b == old(self).spec_bus(),
            final(self).spec_bus() == *final(b),
            final(self).spec_clock() == old(self).spec_clock(),
            final(self).spec_cpu() == old(self).spec_cpu(),
    {
        &mut self.bus
    }
}

} // verus!
