//! Read-only program memory.

use vstd::prelude::*;
use crate::bus::{Address, AddressRange, Addressable, BusError};
use crate::bytes::{word_byte, word_to_le_bytes};

verus! {

/// The little-endian bytes of `words`, in order.
pub open spec fn words_as_bytes(words: Seq<u32>) -> Seq<u8> {
    Seq::new(4 * words.len(), |i: int| word_byte(words[i / 4], i % 4))
}

/// Immutable program memory backed by bytes.
#[derive(Debug, Clone)]
pub struct Rom {
    range: AddressRange,
    data: Vec<u8>,
}

impl Rom {
    /// The mapped range.
    pub closed spec fn spec_range(&self) -> AddressRange {
        self.range
    }

    /// The contents.
    pub closed spec fn spec_data(&self) -> Seq<u8> {
        self.data@
    }

    /// A ROM at `base` holding `words` in little-endian order.
    pub fn from_words(base: Address, words: &[u32]) -> (r: Self)
        requires
            4 * words@.len() <= u64::MAX,
        ensures
            r.spec_range() == (AddressRange { start: base, size: (4 * words@.len()) as u64 }),
            r.spec_data() == words_as_bytes(words@),
    {
        let mut data: Vec<u8> = Vec::new();
        let mut i: usize = 0;
        while i < words.len()
            invariant
                i <= words@.len(),
                data@ == words_as_bytes(words@.subrange(0, i as int)),
            decreases words@.len() - i,
        {
            let bytes = word_to_le_bytes(words[i]);
            data.push(bytes[0]);
            data.push(bytes[1]);
            data.push(bytes[2]);
            data.push(bytes[3]);
            proof {
                let next = words@.subrange(0, i + 1);
                assert(data@ =~= words_as_bytes(next)) by {
                    assert forall|k: int| 0 <= k < 4 * next.len() implies #[trigger] data@[k] == word_byte(
                        next[k / 4],
                        k % 4,
                    ) by {
                        if k < 4 * i {
                            assert(words@.subrange(0, i as int)[k / 4] == next[k / 4]);
                        }
                    }
                }
            }
            i = i + 1;
        }
        assert(words@.subrange(0, words@.len() as int) =~= words@);
        let size = data.len() as u64;
        Rom { range: AddressRange::new(base, size), data }
    }
}

impl Addressable for Rom {
    fn name(&self) -> (n: &'static str)
        ensures
            n == "rom",
    {
        "rom"
    }

    fn address_range(&self) -> (r: AddressRange)
        ensures
            r == self.spec_range(),
    {
        self.range
    }

    /// A byte inside the range reads the stored byte.
    fn load8(&mut self, addr: Address) -> (r: Result<u8, BusError>)
        ensures
            *final(self) == *old(self),
            old(self).spec_range().spec_contains(addr) && addr - old(self).spec_range().start < old(self).spec_data().len()
                ==> r == Ok::<u8, BusError>(old(self).spec_data()[addr - old(self).spec_range().start]),
            !old(self).spec_range().spec_contains(addr) ==> r == Err::<u8, BusError>(BusError::UnmappedAddress { addr }),
    {
        if !self.range.contains(addr) {
            return Err(BusError::UnmappedAddress { addr });
        }
        let offset = addr - self.range.start;
        if offset < self.data.len() as u64 {
            Ok(self.data[offset as usize])
        } else {
            Err(BusError::UnmappedAddress { addr })
        }
    }

    /// Every store is refused.
    fn store8(&mut self, addr: Address, value: u8) -> (r: Result<(), BusError>)
        ensures
            *final(self) == *old(self),
            r == Err::<(), BusError>(BusError::ReadOnlyAddress { addr }),
    {
        Err(BusError::ReadOnlyAddress { addr })
    }
}

} // verus!
