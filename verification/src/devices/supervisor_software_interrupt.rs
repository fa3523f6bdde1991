//! A supervisor software interrupt source with a single `ssip` register.

use vstd::prelude::*;
use crate::bus::{Address, AddressRange, Addressable, BusError, InterruptLine, InterruptSet};
use crate::bytes::{byte_of_word, replace_byte, word_byte, word_with_byte};

verus! {

/// A minimal supervisor software interrupt source: bit 0 of `ssip` raises the line.
#[derive(Debug, Clone)]
pub struct SupervisorSoftwareInterrupt {
    range: AddressRange,
    ssip: u32,
}

impl SupervisorSoftwareInterrupt {
    /// The mapped range.
    pub closed spec fn spec_range(&self) -> AddressRange {
        self.range
    }

    /// The register value.
    pub closed spec fn spec_register(&self) -> u32 {
        self.ssip
    }

    /// The register at `base`, cleared.
    pub fn new(base: Address) -> (d: Self)
        ensures
            d.spec_range() == (AddressRange { start: base, size: 4 }),
            d.spec_register() == 0,
    {
        SupervisorSoftwareInterrupt { range: AddressRange::new(base, 4), ssip: 0 }
    }

    fn offset(&self, addr: Address) -> (r: Result<Address, BusError>)
        ensures
            self.range.spec_contains(addr) ==> r == Ok::<Address, BusError>((addr - self.range.start) as Address),
            !self.range.spec_contains(addr) ==> r == Err::<Address, BusError>(BusError::UnmappedAddress { addr }),
    {
        if !self.range.contains(addr) {
            return Err(BusError::UnmappedAddress { addr });
        }
        Ok(addr - self.range.start)
    }
}

impl Addressable for SupervisorSoftwareInterrupt {
    fn name(&self) -> (n: &'static str)
        ensures
            n == "supervisor-software-interrupt",
    {
        "supervisor-software-interrupt"
    }

    fn address_range(&self) -> (r: AddressRange)
        ensures
            r == self.spec_range(),
    {
        self.range
    }

    fn reset(&mut self)
        ensures
            final(self).spec_register() == 0,
            final(self).spec_range() == old(self).spec_range(),
    {
        self.ssip = 0;
    }

    /// The line is raised exactly while bit 0 is set.
    fn pending_interrupts(&self) -> (s: InterruptSet)
        ensures
            s == (if self.spec_register() & 1 != 0 {
                InterruptSet::of_line(InterruptLine::SupervisorSoftware)
            } else {
                InterruptSet::nothing()
            }),
    {
        if (self.ssip & 1) != 0 {
            InterruptSet::from_line(InterruptLine::SupervisorSoftware)
        } else {
            InterruptSet::empty()
        }
    }

    fn load8(&mut self, addr: Address) -> (r: Result<u8, BusError>)
        ensures
            *final(self) == *old(self),
            old(self).spec_range().spec_contains(addr) && addr - old(self).spec_range().start < 4 ==> r == Ok::<
                u8,
                BusError,
            >(word_byte(old(self).spec_register(), addr - old(self).spec_range().start)),
            !old(self).spec_range().spec_contains(addr) ==> r is Err,
    {
        let offset = self.offset(addr)?;
        if offset >= 4 {
            return Err(BusError::UnmappedAddress { addr });
        }
        Ok(byte_of_word(self.ssip, offset))
    }

    /// Only bit 0 is kept from a write.
    fn store8(&mut self, addr: Address, value: u8) -> (r: Result<(), BusError>)
        ensures
            final(self).spec_range() == old(self).spec_range(),
            old(self).spec_range().spec_contains(addr) && addr - old(self).spec_range().start < 4 ==> r is Ok
                && final(self).spec_register() == word_with_byte(
                old(self).spec_register(),
                addr - old(self).spec_range().start,
                value,
            ) & 1,
            !old(self).spec_range().spec_contains(addr) ==> r is Err && *final(self) == *old(self),
    {
        let offset = self.offset(addr)?;
        if offset >= 4 {
            return Err(BusError::UnmappedAddress { addr });
        }
        self.ssip = replace_byte(self.ssip, offset, value) & 1;
        Ok(())
    }
}

} // verus!
