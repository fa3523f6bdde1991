//! A fixed access latency in front of any device.

use vstd::prelude::*;
use crate::bus::{AccessKind, Address, AddressRange, Addressable, BusError, InterruptLine, InterruptSet};

verus! {

/// Wrap any addressable device with a fixed access latency measured in cycles.
#[derive(Debug, Clone)]
pub struct LatencyAdapter<D> {
    inner: D,
    latency_cycles: u32,
}

impl<D: Addressable> LatencyAdapter<D> {
    /// The wrapped device.
    pub closed spec fn spec_inner(&self) -> D {
        self.inner
    }

    /// The latency of every access.
    pub closed spec fn spec_latency(&self) -> u32 {
        self.latency_cycles
    }

    /// `inner` with every access taking `latency_cycles`.
    pub fn new(inner: D, latency_cycles: u32) -> (a: Self)
        ensures
            a.spec_inner() == inner,
            a.spec_latency() == latency_cycles,
    {
        LatencyAdapter { inner, latency_cycles }
    }

    /// The wrapped device.
    pub fn inner(&self) -> (d: &D)
        ensures
            *d == self.spec_inner(),
    {
        &self.inner
    }

    /// The wrapped device, for mutation.
    pub fn inner_mut(&mut self) -> (d: &mut D)
        ensures
            *d == old(self).spec_inner(),
            final(self).spec_inner() == *final(d),
            final(self).spec_latency() == old(self).spec_latency(),
    {
        &mut self.inner
    }
}

impl<D: Addressable> Addressable for LatencyAdapter<D> {
    fn name(&self) -> &'static str {
        self.inner.name()
    }

    fn address_range(&self) -> AddressRange {
        self.inner.address_range()
    }

    /// Resets the wrapped device; the latency stays.
    fn reset(&mut self)
        ensures
            final(self).spec_latency() == old(self).spec_latency(),
    {
        self.inner.reset();
    }

    /// Advances the wrapped device; the latency stays.
    fn tick(&mut self)
        ensures
            final(self).spec_latency() == old(self).spec_latency(),
    {
        self.inner.tick();
    }

    /// Every access takes the configured latency.
    fn access_latency(&mut self, addr: Address, kind: AccessKind, width: usize) -> (n: u32)
        ensures
            n == old(self).spec_latency(),
            *final(self) == *old(self),
    {
        self.latency_cycles
    }

    fn pending_interrupts(&self) -> InterruptSet {
        self.inner.pending_interrupts()
    }

    fn pending_interrupt(&self) -> Option<InterruptLine> {
        self.inner.pending_interrupt()
    }

    fn load8(&mut self, addr: Address) -> (r: Result<u8, BusError>)
        ensures
            final(self).spec_latency() == old(self).spec_latency(),
    {
        self.inner.load8(addr)
    }

    fn store8(&mut self, addr: Address, value: u8) -> (r: Result<(), BusError>)
        ensures
            final(self).spec_latency() == old(self).spec_latency(),
    {
        self.inner.store8(addr, value)
    }
}

} // verus!
