//! Read-write memory.

use vstd::prelude::*;
use crate::bus::{Address, AddressRange, Addressable, BusError};
use crate::bytes::{le_word, word_from_le_bytes};

verus! {

/// Read-write memory backed by a byte vector.
#[derive(Debug, Clone)]
pub struct Ram {
    range: AddressRange,
    data: Vec<u8>,
}

impl Ram {
    /// The mapped range.
    pub closed spec fn spec_range(&self) -> AddressRange {
        self.range
    }

    /// The contents.
    pub closed spec fn spec_data(&self) -> Seq<u8> {
        self.data@
    }

    /// Whether `addr` names a stored byte.
    pub open spec fn spec_holds_byte(&self, addr: Address) -> bool {
        self.spec_range().spec_contains(addr) && addr - self.spec_range().start < self.spec_data().len()
    }

    /// The byte stored at `addr`.
    pub open spec fn spec_byte(&self, addr: Address) -> u8 {
        self.spec_data()[addr - self.spec_range().start]
    }

    /// `size` zero bytes at `base`.
    pub fn new(base: Address, size: usize) -> (r: Self)
        ensures
            r.spec_range() == (AddressRange { start: base, size: size as u64 }),
            r.spec_data() == Seq::new(size as nat, |i: int| 0u8),
    {
        let mut data: Vec<u8> = Vec::new();
        let mut i: usize = 0;
        while i < size
            invariant
                i <= size,
                data@ == Seq::new(i as nat, |k: int| 0u8),
            decreases size - i,
        {
            data.push(0);
            i = i + 1;
        }
        Ram { range: AddressRange::new(base, size as u64), data }
    }

    /// The little-endian word at `address`, when all four bytes are stored.
    pub fn read_word(&self, address: Address) -> (r: Option<u32>)
        ensures
            r matches Some(w) ==> {
                &&& self.spec_holds_byte(address)
                &&& address - self.spec_range().start + 4 <= self.spec_data().len()
                &&& w == le_word(
                    self.spec_byte(address),
                    self.spec_data()[address - self.spec_range().start + 1],
                    self.spec_data()[address - self.spec_range().start + 2],
                    self.spec_data()[address - self.spec_range().start + 3],
                )
            },
            r is None ==> !self.spec_holds_byte(address) || address - self.spec_range().start + 4
                > self.spec_data().len(),
    {
        if !self.range.contains(address) {
            return None;
        }
        let offset = address - self.range.start;
        if offset >= self.data.len() as u64 || self.data.len() as u64 - offset < 4 {
            return None;
        }
        let o = offset as usize;
        Some(word_from_le_bytes([self.data[o], self.data[o + 1], self.data[o + 2], self.data[o + 3]]))
    }
}

impl Addressable for Ram {
    fn name(&self) -> (n: &'static str)
        ensures
            n == "ram",
    {
        "ram"
    }

    fn address_range(&self) -> (r: AddressRange)
        ensures
            r == self.spec_range(),
    {
        self.range
    }

    /// Clear every byte.
    fn reset(&mut self)
        ensures
            final(self).spec_range() == old(self).spec_range(),
            final(self).spec_data() == Seq::new(old(self).spec_data().len(), |i: int| 0u8),
    {
        let mut i: usize = 0;
        while i < self.data.len()
            invariant
                i <= self.data@.len(),
                self.data@.len() == old(self).spec_data().len(),
                self.range == old(self).spec_range(),
                forall|k: int| 0 <= k < i ==> self.data@[k] == 0u8,
            decreases self.data@.len() - i,
        {
            self.data.set(i, 0);
            i = i + 1;
        }
        assert(self.data@ =~= Seq::new(old(self).spec_data().len(), |i: int| 0u8));
    }

    /// A stored byte reads back; any other address is unmapped.
    fn load8(&mut self, addr: Address) -> (r: Result<u8, BusError>)
        ensures
            *final(self) == *old(self),
            old(self).spec_holds_byte(addr) ==> r == Ok::<u8, BusError>(old(self).spec_byte(addr)),
            !old(self).spec_holds_byte(addr) ==> r == Err::<u8, BusError>(BusError::UnmappedAddress { addr }),
    {
        if !self.range.contains(addr) {
            return Err(BusError::UnmappedAddress { addr });
        }
        let offset = addr - self.range.start;
        if offset < self.data.len() as u64 {
            Ok(self.data[offset as usize])
        } else {
            Err(BusError::UnmappedAddress { addr })
        }
    }

    /// A store to a stored byte replaces it and nothing else.
    fn store8(&mut self, addr: Address, value: u8) -> (r: Result<(), BusError>)
        ensures
            final(self).spec_range() == old(self).spec_range(),
            old(self).spec_holds_byte(addr) ==> r is Ok && final(self).spec_data() == old(self).spec_data().update(
                addr - old(self).spec_range().start,
                value,
            ),
            !old(self).spec_holds_byte(addr) ==> r == Err::<(), BusError>(BusError::UnmappedAddress { addr })
                && final(self).spec_data() == old(self).spec_data(),
            final(self).spec_data().len() == old(self).spec_data().len(),
    {
        if !self.range.contains(addr) {
            return Err(BusError::UnmappedAddress { addr });
        }
        let offset = addr - self.range.start;
        if offset < self.data.len() as u64 {
            self.data.set(offset as usize, value);
            Ok(())
        } else {
            Err(BusError::UnmappedAddress { addr })
        }
    }
}

/// A byte written to RAM reads back, and the other bytes keep their values.
pub proof fn ram_read_after_write(data: Seq<u8>, offset: int, other: int, value: u8)
    requires
        0 <= offset < data.len(),
        0 <= other < data.len(),
    ensures
        data.update(offset, value)[offset] == value,
        other != offset ==> data.update(offset, value)[other] == data[other],
{
}

} // verus!
