//! DRAM with an open-row timing model and cheaper sequential bursts.

use vstd::prelude::*;
use crate::bus::{AccessKind, Address, AddressRange, Addressable, BusError};
use crate::bytes::{le_word, word_from_le_bytes};

verus! {

/// Timing parameters for the DRAM model.
#[derive(Debug, Clone, Copy, PartialEq, Eq, Structural)]
pub struct DramConfig {
    row_size: usize,
    row_miss_latency: u32,
    row_hit_latency: u32,
    burst_latency: u32,
}

impl DramConfig {
    /// The row size in bytes.
    pub closed spec fn spec_row_size(&self) -> usize {
        self.row_size
    }

    /// Latency of an access that opens a new row.
    pub closed spec fn spec_row_miss_latency(&self) -> u32 {
        self.row_miss_latency
    }

    /// Latency of an access to the open row.
    pub closed spec fn spec_row_hit_latency(&self) -> u32 {
        self.row_hit_latency
    }

    /// Latency of the access that continues the previous one in the open row.
    pub closed spec fn spec_burst_latency(&self) -> u32 {
        self.burst_latency
    }

    /// A configuration: rows are a power-of-two multiple of four bytes, and a
    /// row miss costs at least a row hit, which costs at least a burst beat.
    pub fn new(row_size: usize, row_miss_latency: u32, row_hit_latency: u32, burst_latency: u32) -> (c: Self)
        requires
            row_size > 0,
            row_size & ((row_size - 1) as usize) == 0,
            row_size % 4 == 0,
            row_miss_latency >= row_hit_latency,
            row_hit_latency >= burst_latency,
        ensures
            c.spec_row_size() == row_size,
            c.spec_row_miss_latency() == row_miss_latency,
            c.spec_row_hit_latency() == row_hit_latency,
            c.spec_burst_latency() == burst_latency,
    {
        DramConfig { row_size, row_miss_latency, row_hit_latency, burst_latency }
    }

    /// The row size in bytes.
    pub fn row_size(&self) -> (n: usize)
        ensures
            n == self.spec_row_size(),
    {
        self.row_size
    }

    /// Latency of an access that opens a new row.
    pub fn row_miss_latency(&self) -> (n: u32)
        ensures
            n == self.spec_row_miss_latency(),
    {
        self.row_miss_latency
    }

    /// Latency of an access to the open row.
    pub fn row_hit_latency(&self) -> (n: u32)
        ensures
            n == self.spec_row_hit_latency(),
    {
        self.row_hit_latency
    }

    /// Latency of the access that continues the previous one.
    pub fn burst_latency(&self) -> (n: u32)
        ensures
            n == self.spec_burst_latency(),
    {
        self.burst_latency
    }
}

/// The timing effect an access will have once its first byte is reached.
#[derive(Debug, Clone, Copy, PartialEq, Eq, Structural)]
pub struct PendingAccess {
    pub start: Address,
    pub row_index: u64,
    pub next_burst_addr: Option<Address>,
}

/// The row of `addr` in a device at `base` with rows of `row_size` bytes.
pub open spec fn row_of(base: Address, row_size: usize, addr: Address) -> u64 {
    if addr >= base && row_size > 0 { ((addr - base) / (row_size as int)) as u64 } else { 0 }
}

/// DRAM-like memory with an open-row model and cheaper sequential bursts.
#[derive(Debug, Clone)]
pub struct Dram {
    range: AddressRange,
    data: Vec<u8>,
    config: DramConfig,
    open_row: Option<u64>,
    next_burst_addr: Option<Address>,
    pending_access: Option<PendingAccess>,
}

impl Dram {
    /// The mapped range.
    pub closed spec fn spec_range(&self) -> AddressRange {
        self.range
    }

    /// The contents.
    pub closed spec fn spec_data(&self) -> Seq<u8> {
        self.data@
    }

    /// The timing configuration.
    pub closed spec fn spec_config(&self) -> DramConfig {
        self.config
    }

    /// The open row, if any.
    pub closed spec fn spec_open_row(&self) -> Option<u64> {
        self.open_row
    }

    /// The address that would continue the last access as a burst.
    pub closed spec fn spec_next_burst(&self) -> Option<Address> {
        self.next_burst_addr
    }

    /// The latency the next access to `addr` costs.
    pub open spec fn spec_latency(&self, addr: Address) -> u32 {
        let row = row_of(self.spec_range().start, self.spec_config().spec_row_size(), addr);
        if self.spec_open_row() == Some(row) {
            if self.spec_next_burst() == Some(addr) {
                self.spec_config().spec_burst_latency()
            } else {
                self.spec_config().spec_row_hit_latency()
            }
        } else {
            self.spec_config().spec_row_miss_latency()
        }
    }

    /// `size` zero bytes at `base` with no open row.
    pub fn new(base: Address, size: usize, config: DramConfig) -> (d: Self)
        ensures
            d.spec_range() == (AddressRange { start: base, size: size as u64 }),
            d.spec_data() == Seq::new(size as nat, |i: int| 0u8),
            d.spec_config() == config,
            d.spec_open_row() is None,
            d.spec_next_burst() is None,
    {
        let mut data: Vec<u8> = Vec::new();
        let mut i: usize = 0;
        while i < size
            invariant
                i <= size,
                data@ == Seq::new(i as nat, |k: int| 0u8),
            decreases size - i,
        {
            data.push(0);
            i = i + 1;
        }
        Dram {
            range: AddressRange::new(base, size as u64),
            data,
            config,
            open_row: None,
            next_burst_addr: None,
            pending_access: None,
        }
    }

    /// The timing configuration.
    pub fn config(&self) -> (c: DramConfig)
        ensures
            c == self.spec_config(),
    {
        self.config
    }

    /// The little-endian word at `address`, when all four bytes are stored.
    pub fn read_word(&self, address: Address) -> (r: Option<u32>)
        ensures
            r matches Some(w) ==> {
                &&& self.spec_range().spec_contains(address)
                &&& address - self.spec_range().start + 4 <= self.spec_data().len()
                &&& w == le_word(
                    self.spec_data()[address - self.spec_range().start],
                    self.spec_data()[address - self.spec_range().start + 1],
                    self.spec_data()[address - self.spec_range().start + 2],
                    self.spec_data()[address - self.spec_range().start + 3],
                )
            },
            r is None ==> !self.spec_range().spec_contains(address) || address - self.spec_range().start + 4
                > self.spec_data().len(),
    {
        if !self.range.contains(address) {
            return None;
        }
        let offset = address - self.range.start;
        if offset >= self.data.len() as u64 || self.data.len() as u64 - offset < 4 {
            return None;
        }
        let o = offset as usize;
        Some(word_from_le_bytes([self.data[o], self.data[o + 1], self.data[o + 2], self.data[o + 3]]))
    }

    fn row_index(&self, addr: Address) -> (r: u64)
        ensures
            r == row_of(self.range.start, self.config.row_size, addr),
    {
        if addr >= self.range.start && self.config.row_size > 0 {
            (addr - self.range.start) / (self.config.row_size as u64)
        } else {
            0
        }
    }

    /// The address right after an access of `width` bytes at `addr`, when
    /// the access's last byte stays in row `row_index`.
    fn next_burst_address(&self, addr: Address, width: usize, row_index: u64) -> (r: Option<Address>)
        ensures
            addr + width > u64::MAX ==> r is None,
            addr + width <= u64::MAX ==> r == if row_of(
                self.range.start,
                self.config.row_size,
                (if addr + width == 0 { 0 } else { addr + width - 1 }) as Address,
            ) == row_index {
                Some((addr + width) as Address)
            } else {
                None
            },
    {
        let next_addr = match addr.checked_add(width as u64) {
            Some(a) => a,
            None => return None,
        };
        let last = if next_addr == 0 { 0 } else { next_addr - 1 };
        if self.row_index(last) == row_index {
            Some(next_addr)
        } else {
            None
        }
    }

    /// The first byte of a timed access moves the open row and the burst position.
    fn commit_pending_access(&mut self, addr: Address)
        ensures
            final(self).range == old(self).range,
            final(self).data == old(self).data,
            final(self).config == old(self).config,
            (old(self).pending_access matches Some(p) && p.start == addr) ==> {
                &&& final(self).open_row == Some(old(self).pending_access->0.row_index)
                &&& final(self).next_burst_addr == old(self).pending_access->0.next_burst_addr
                &&& final(self).pending_access is None
            },
            !(old(self).pending_access matches Some(p) && p.start == addr) ==> *final(self) == *old(self),
    {
        if let Some(pending) = self.pending_access {
            if pending.start == addr {
                self.open_row = Some(pending.row_index);
                self.next_burst_addr = pending.next_burst_addr;
                self.pending_access = None;
            }
        }
    }
}

impl Addressable for Dram {
    fn name(&self) -> (n: &'static str)
        ensures
            n == "dram",
    {
        "dram"
    }

    fn address_range(&self) -> (r: AddressRange)
        ensures
            r == self.spec_range(),
    {
        self.range
    }

    fn reset(&mut self)
        ensures
            final(self).spec_range() == old(self).spec_range(),
            final(self).spec_config() == old(self).spec_config(),
            final(self).spec_data() == Seq::new(old(self).spec_data().len(), |i: int| 0u8),
            final(self).spec_open_row() is None,
            final(self).spec_next_burst() is None,
    {
        let mut i: usize = 0;
        while i < self.data.len()
            invariant
                i <= self.data@.len(),
                self.data@.len() == old(self).spec_data().len(),
                self.range == old(self).spec_range(),
                self.config == old(self).spec_config(),
                forall|k: int| 0 <= k < i ==> self.data@[k] == 0u8,
            decreases self.data@.len() - i,
        {
            self.data.set(i, 0);
            i = i + 1;
        }
        assert(self.data@ =~= Seq::new(old(self).spec_data().len(), |i: int| 0u8));
        self.open_row = None;
        self.next_burst_addr = None;
        self.pending_access = None;
    }

    /// A burst beat costs the burst latency, another access to the open row
    /// the row-hit latency, and any other access the row-miss latency.
    fn access_latency(&mut self, addr: Address, kind: AccessKind, width: usize) -> (n: u32)
        ensures
            n == old(self).spec_latency(addr),
            final(self).spec_range() == old(self).spec_range(),
            final(self).spec_data() == old(self).spec_data(),
            final(self).spec_config() == old(self).spec_config(),
            final(self).spec_open_row() == old(self).spec_open_row(),
            final(self).spec_next_burst() == old(self).spec_next_burst(),
    {
        let row_index = self.row_index(addr);
        let row_open = match self.open_row {
            Some(row) => row == row_index,
            None => false,
        };
        let latency = if row_open {
            let burst = match self.next_burst_addr {
                Some(next) => next == addr,
                None => false,
            };
            if burst {
                self.config.burst_latency
            } else {
                self.config.row_hit_latency
            }
        } else {
            self.config.row_miss_latency
        };
        let next_burst_addr = self.next_burst_address(addr, width, row_index);
        self.pending_access = Some(PendingAccess { start: addr, row_index, next_burst_addr });
        latency
    }

    fn load8(&mut self, addr: Address) -> (r: Result<u8, BusError>)
        ensures
            final(self).spec_range() == old(self).spec_range(),
            final(self).spec_data() == old(self).spec_data(),
            old(self).spec_range().spec_contains(addr) && addr - old(self).spec_range().start < old(self).spec_data().len()
                ==> r == Ok::<u8, BusError>(old(self).spec_data()[addr - old(self).spec_range().start]),
            !old(self).spec_range().spec_contains(addr) ==> r == Err::<u8, BusError>(BusError::UnmappedAddress { addr }),
    {
        self.commit_pending_access(addr);
        if !self.range.contains(addr) {
            return Err(BusError::UnmappedAddress { addr });
        }
        let offset = addr - self.range.start;
        if offset < self.data.len() as u64 {
            Ok(self.data[offset as usize])
        } else {
            Err(BusError::UnmappedAddress { addr })
        }
    }

    fn store8(&mut self, addr: Address, value: u8) -> (r: Result<(), BusError>)
        ensures
            final(self).spec_range() == old(self).spec_range(),
            old(self).spec_range().spec_contains(addr) && addr - old(self).spec_range().start < old(self).spec_data().len()
                ==> r is Ok && final(self).spec_data() == old(self).spec_data().update(
                addr - old(self).spec_range().start,
                value,
            ),
            !old(self).spec_range().spec_contains(addr) ==> r == Err::<(), BusError>(BusError::UnmappedAddress { addr })
                && final(self).spec_data() == old(self).spec_data(),
            final(self).spec_data().len() == old(self).spec_data().len(),
            !(old(self).spec_range().spec_contains(addr) && addr - old(self).spec_range().start < old(self).spec_data().len())
                ==> final(self).spec_data() == old(self).spec_data(),
    {
        self.commit_pending_access(addr);
        if !self.range.contains(addr) {
            return Err(BusError::UnmappedAddress { addr });
        }
        let offset = addr - self.range.start;
        if offset < self.data.len() as u64 {
            self.data.set(offset as usize, value);
            Ok(())
        } else {
            Err(BusError::UnmappedAddress { addr })
        }
    }
}

/// A burst beat is never slower than a row hit, and a row hit never slower than a row miss.
pub proof fn dram_latency_order(dram: Dram, addr: Address, other: Address)
    requires
        dram.spec_config().spec_row_miss_latency() >= dram.spec_config().spec_row_hit_latency() >= dram.spec_config().spec_burst_latency(),
        dram.spec_open_row() == Some(row_of(dram.spec_range().start, dram.spec_config().spec_row_size(), addr)),
    ensures
        dram.spec_latency(addr) <= dram.spec_config().spec_row_hit_latency(),
        dram.spec_latency(other) <= dram.spec_config().spec_row_miss_latency(),
        dram.spec_next_burst() == Some(addr) ==> dram.spec_latency(addr) == dram.spec_config().spec_burst_latency(),
{
}

} // verus!
