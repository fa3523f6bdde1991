//! A memory-mapped machine timer with `mtime` and `mtime_compare`.

use vstd::prelude::*;
use crate::bus::{Address, AddressRange, Addressable, BusError, InterruptLine, InterruptSet};
use crate::bytes::{byte_of_word, replace_byte, word_byte, word_with_byte};
use crate::csr_file::{high_half, low_half, with_high_half, with_low_half};

verus! {

/// The byte at `offset` of the register block: `mtime` low and high words,
/// then `mtime_compare` low and high words; zero past the block.
pub open spec fn timer_register_byte(mtime: u64, mtime_compare: u64, offset: Address) -> u8 {
    if offset < 4 {
        word_byte(low_half(mtime), offset as int)
    } else if offset < 8 {
        word_byte(high_half(mtime), offset - 4)
    } else if offset < 12 {
        word_byte(low_half(mtime_compare), offset - 8)
    } else if offset < 16 {
        word_byte(high_half(mtime_compare), offset - 12)
    } else {
        0
    }
}

/// The registers after writing `value` to the byte at `offset`.
pub open spec fn timer_registers_written(mtime: u64, mtime_compare: u64, offset: Address, value: u8) -> (u64, u64) {
    if offset < 4 {
        (with_low_half(mtime, word_with_byte(low_half(mtime), offset as int, value)), mtime_compare)
    } else if offset < 8 {
        (with_high_half(mtime, word_with_byte(high_half(mtime), offset - 4, value)), mtime_compare)
    } else if offset < 12 {
        (mtime, with_low_half(mtime_compare, word_with_byte(low_half(mtime_compare), offset - 8, value)))
    } else if offset < 16 {
        (mtime, with_high_half(mtime_compare, word_with_byte(high_half(mtime_compare), offset - 12, value)))
    } else {
        (mtime, mtime_compare)
    }
}

/// A minimal memory-mapped machine timer.
#[derive(Debug, Clone)]
pub struct MachineTimer {
    range: AddressRange,
    mtime: u64,
    mtime_compare: u64,
}

fn low_word(value: u64) -> (w: u32)
    ensures
        w == low_half(value),
{
    (value & 0xffff_ffff) as u32
}

fn high_word(value: u64) -> (w: u32)
    ensures
        w == high_half(value),
{
    (value >> 32) as u32
}

fn set_low_word(target: u64, value: u32) -> (r: u64)
    ensures
        r == with_low_half(target, value),
{
    (target & 0xffff_ffff_0000_0000) | (value as u64)
}

fn set_high_word(target: u64, value: u32) -> (r: u64)
    ensures
        r == with_high_half(target, value),
{
    ((value as u64) << 32) | (target & 0xffff_ffff)
}

impl MachineTimer {
    /// The mapped range.
    pub closed spec fn spec_range(&self) -> AddressRange {
        self.range
    }

    /// The current time.
    pub closed spec fn spec_mtime(&self) -> u64 {
        self.mtime
    }

    /// The compare value.
    pub closed spec fn spec_mtime_compare(&self) -> u64 {
        self.mtime_compare
    }

    /// A timer at `base` at time zero whose compare value never fires.
    pub fn new(base: Address) -> (t: Self)
        ensures
            t.spec_range() == (AddressRange { start: base, size: 16 }),
            t.spec_mtime() == 0,
            t.spec_mtime_compare() == u64::MAX,
    {
        MachineTimer { range: AddressRange::new(base, 16), mtime: 0, mtime_compare: u64::MAX }
    }

    /// The current time.
    pub fn mtime(&self) -> (t: u64)
        ensures
            t == self.spec_mtime(),
    {
        self.mtime
    }

    fn offset(&self, addr: Address) -> (r: Result<Address, BusError>)
        ensures
            self.range.spec_contains(addr) ==> r == Ok::<Address, BusError>((addr - self.range.start) as Address),
            !self.range.spec_contains(addr) ==> r == Err::<Address, BusError>(BusError::UnmappedAddress { addr }),
    {
        if !self.range.contains(addr) {
            return Err(BusError::UnmappedAddress { addr });
        }
        Ok(addr - self.range.start)
    }

    fn read_register_byte(&self, offset: Address) -> (b: u8)
        ensures
            b == timer_register_byte(self.mtime, self.mtime_compare, offset),
    {
        if offset < 4 {
            byte_of_word(low_word(self.mtime), offset)
        } else if offset < 8 {
            byte_of_word(high_word(self.mtime), offset - 4)
        } else if offset < 12 {
            byte_of_word(low_word(self.mtime_compare), offset - 8)
        } else if offset < 16 {
            byte_of_word(high_word(self.mtime_compare), offset - 12)
        } else {
            0
        }
    }

    fn write_register_byte(&mut self, offset: Address, value: u8)
        ensures
            (final(self).mtime, final(self).mtime_compare) == timer_registers_written(
                old(self).mtime,
                old(self).mtime_compare,
                offset,
                value,
            ),
            final(self).range == old(self).range,
    {
        if offset < 4 {
            let word = replace_byte(low_word(self.mtime), offset, value);
            self.mtime = set_low_word(self.mtime, word);
        } else if offset < 8 {
            let word = replace_byte(high_word(self.mtime), offset - 4, value);
            self.mtime = set_high_word(self.mtime, word);
        } else if offset < 12 {
            let word = replace_byte(low_word(self.mtime_compare), offset - 8, value);
            self.mtime_compare = set_low_word(self.mtime_compare, word);
        } else if offset < 16 {
            let word = replace_byte(high_word(self.mtime_compare), offset - 12, value);
            self.mtime_compare = set_high_word(self.mtime_compare, word);
        }
    }
}

impl Addressable for MachineTimer {
    fn name(&self) -> (n: &'static str)
        ensures
            n == "machine-timer",
    {
        "machine-timer"
    }

    fn address_range(&self) -> (r: AddressRange)
        ensures
            r == self.spec_range(),
    {
        self.range
    }

    fn reset(&mut self)
        ensures
            final(self).spec_mtime() == 0,
            final(self).spec_mtime_compare() == u64::MAX,
            final(self).spec_range() == old(self).spec_range(),
    {
        self.mtime = 0;
        self.mtime_compare = u64::MAX;
    }

    /// Time advances by one each cycle, wrapping.
    fn tick(&mut self)
        ensures
            final(self).spec_mtime() == vstd::wrapping::u64_specs::wrapping_add(old(self).spec_mtime(), 1),
            final(self).spec_mtime_compare() == old(self).spec_mtime_compare(),
            final(self).spec_range() == old(self).spec_range(),
    {
        self.mtime = self.mtime.wrapping_add(1);
    }

    fn machine_time(&self) -> (t: Option<u64>)
        ensures
            t == Some(self.spec_mtime()),
    {
        Some(self.mtime)
    }

    /// The timer line is raised once the time reaches the compare value.
    fn pending_interrupts(&self) -> (s: InterruptSet)
        ensures
            s == (if self.spec_mtime() >= self.spec_mtime_compare() {
                InterruptSet::of_line(InterruptLine::MachineTimer)
            } else {
                InterruptSet::nothing()
            }),
    {
        if self.mtime >= self.mtime_compare {
            InterruptSet::from_line(InterruptLine::MachineTimer)
        } else {
            InterruptSet::empty()
        }
    }

    fn load8(&mut self, addr: Address) -> (r: Result<u8, BusError>)
        ensures
            *final(self) == *old(self),
            old(self).spec_range().spec_contains(addr) ==> r == Ok::<u8, BusError>(
                timer_register_byte(
                    old(self).spec_mtime(),
                    old(self).spec_mtime_compare(),
                    (addr - old(self).spec_range().start) as Address,
                ),
            ),
            !old(self).spec_range().spec_contains(addr) ==> r is Err,
    {
        let offset = self.offset(addr)?;
        Ok(self.read_register_byte(offset))
    }

    fn store8(&mut self, addr: Address, value: u8) -> (r: Result<(), BusError>)
        ensures
            final(self).spec_range() == old(self).spec_range(),
            old(self).spec_range().spec_contains(addr) ==> r is Ok && (final(self).spec_mtime(), final(self).spec_mtime_compare())
                == timer_registers_written(
                old(self).spec_mtime(),
                old(self).spec_mtime_compare(),
                (addr - old(self).spec_range().start) as Address,
                value,
            ),
            !old(self).spec_range().spec_contains(addr) ==> r is Err && *final(self) == *old(self),
    {
        let offset = self.offset(addr)?;
        self.write_register_byte(offset, value);
        Ok(())
    }
}

} // verus!
