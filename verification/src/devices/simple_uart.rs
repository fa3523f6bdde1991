//! A tiny transmit-only UART.

use vstd::prelude::*;
use crate::bus::{Address, AddressRange, Addressable, BusError};

verus! {

/// The text `String::from_utf8_lossy` decodes from `bytes`.
pub uninterp spec fn utf8_lossy_text(bytes: Seq<u8>) -> Seq<char>;

/// `String::from_utf8_lossy` (std, made owned): decodes UTF-8 and replaces
/// invalid sequences with U+FFFD. Its result is a function of the bytes alone,
/// named `utf8_lossy_text`; of that name only the all-ASCII case is stated,
/// which decodes character for character.
#[verifier::external_body]
fn lossy_utf8(bytes: &[u8]) -> (s: String)
    ensures
        s@ == utf8_lossy_text(bytes@),
        (forall|i: int| 0 <= i < bytes@.len() ==> #[trigger] bytes@[i] < 128) ==> s@ == bytes@.map_values(
            |b: u8| b as char,
        ),
{
    String::from_utf8_lossy(bytes).into_owned()
}

/// A UART with a transmit register at offset 0 and an always-ready status register at offset 4.
#[derive(Debug, Clone)]
pub struct SimpleUart {
    range: AddressRange,
    tx_buffer: Vec<u8>,
}

impl SimpleUart {
    /// The mapped range.
    pub closed spec fn spec_range(&self) -> AddressRange {
        self.range
    }

    /// The bytes transmitted so far.
    pub closed spec fn spec_transmitted(&self) -> Seq<u8> {
        self.tx_buffer@
    }

    /// A UART at `base` that has transmitted nothing.
    pub fn new(base: Address) -> (u: Self)
        ensures
            u.spec_range() == (AddressRange { start: base, size: 8 }),
            u.spec_transmitted() == Seq::<u8>::empty(),
    {
        SimpleUart { range: AddressRange::new(base, 8), tx_buffer: Vec::new() }
    }

    /// The transmitted bytes as text.
    pub fn drained_output(&self) -> (s: String)
        ensures
            s@ == utf8_lossy_text(self.spec_transmitted()),
            (forall|i: int| 0 <= i < self.spec_transmitted().len() ==> #[trigger] self.spec_transmitted()[i] < 128)
                ==> s@ == self.spec_transmitted().map_values(|b: u8| b as char),
    {
        lossy_utf8(self.tx_buffer.as_slice())
    }
}

impl Addressable for SimpleUart {
    fn name(&self) -> (n: &'static str)
        ensures
            n == "simple-uart",
    {
        "simple-uart"
    }

    fn address_range(&self) -> (r: AddressRange)
        ensures
            r == self.spec_range(),
    {
        self.range
    }

    fn reset(&mut self)
        ensures
            final(self).spec_transmitted() == Seq::<u8>::empty(),
            final(self).spec_range() == old(self).spec_range(),
    {
        self.tx_buffer.clear();
    }

    /// The status register reads 1 (ready); everything else reads 0.
    fn load8(&mut self, addr: Address) -> (r: Result<u8, BusError>)
        ensures
            *final(self) == *old(self),
            old(self).spec_range().spec_contains(addr) ==> r == Ok::<u8, BusError>(
                if addr - old(self).spec_range().start == 4 { 1u8 } else { 0u8 },
            ),
            !old(self).spec_range().spec_contains(addr) ==> r == Err::<u8, BusError>(BusError::UnmappedAddress { addr }),
    {
        if !self.range.contains(addr) {
            return Err(BusError::UnmappedAddress { addr });
        }
        if addr - self.range.start == 4 {
            Ok(1)
        } else {
            Ok(0)
        }
    }

    /// A write to the transmit register sends the byte; a write to the
    /// status register is ignored; other offsets are refused.
    fn store8(&mut self, addr: Address, value: u8) -> (r: Result<(), BusError>)
        ensures
            final(self).spec_range() == old(self).spec_range(),
            old(self).spec_range().spec_contains(addr) && addr - old(self).spec_range().start == 0 ==> r is Ok
                && final(self).spec_transmitted() == old(self).spec_transmitted().push(value),
            old(self).spec_range().spec_contains(addr) && addr - old(self).spec_range().start == 4 ==> r is Ok
                && final(self).spec_transmitted() == old(self).spec_transmitted(),
            !(old(self).spec_range().spec_contains(addr) && (addr - old(self).spec_range().start == 0 || addr
                - old(self).spec_range().start == 4)) ==> r == Err::<(), BusError>(BusError::UnmappedAddress { addr })
                && final(self).spec_transmitted() == old(self).spec_transmitted(),
    {
        if !self.range.contains(addr) {
            return Err(BusError::UnmappedAddress { addr });
        }
        let offset = addr - self.range.start;
        if offset == 0 {
            self.tx_buffer.push(value);
            Ok(())
        } else if offset == 4 {
            Ok(())
        } else {
            Err(BusError::UnmappedAddress { addr })
        }
    }
}

} // verus!
