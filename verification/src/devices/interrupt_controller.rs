//! An external interrupt controller with 32 sources, claim/complete and a
//! routing register.

use vstd::prelude::*;
use crate::bus::{Address, AddressRange, Addressable, BusError, InterruptLine, InterruptSet};
use crate::bytes::{byte_of_word, le_word, replace_byte, word_byte, word_from_le_bytes, word_with_byte};

verus! {

/// Where the controller signals: machine or supervisor external interrupt.
#[derive(Debug, Clone, Copy, PartialEq, Eq, Structural)]
pub enum InterruptRoute {
    MachineExternal,
    SupervisorExternal,
}

/// The route selected by bit 0 of the routing register.
pub open spec fn route_of(value: u32) -> InterruptRoute {
    if value & 1 != 0 { InterruptRoute::SupervisorExternal } else { InterruptRoute::MachineExternal }
}

/// The routing register's value for a route.
pub open spec fn route_bits(route: InterruptRoute) -> u32 {
    match route {
        InterruptRoute::MachineExternal => 0,
        InterruptRoute::SupervisorExternal => 1,
    }
}

/// The bit of source `id` (1..=32), or no bit for any other id.
pub open spec fn source_bit(id: u32) -> u32 {
    if 1 <= id <= 32 { 1u32 << ((id - 1) as u32) } else { 0 }
}

/// The lowest source id at or above `i + 1` whose bit is set in `bits`, or 0 for none.
pub open spec fn lowest_source_from(bits: u32, i: nat) -> u32
    decreases 32 - i,
{
    if i >= 32 {
        0
    } else if bits & (1u32 << (i as u32)) != 0 {
        (i + 1) as u32
    } else {
        lowest_source_from(bits, i + 1)
    }
}

/// The highest-priority (lowest-numbered) source in `bits`, or 0 for none.
pub open spec fn lowest_source(bits: u32) -> u32 {
    lowest_source_from(bits, 0)
}

/// An external interrupt controller with 32 software-visible sources.
///
/// The claim/complete register is a 32-bit word reached byte by byte: a read
/// of its first byte claims a source and latches its id for the other bytes;
/// a write completes the source once its last byte arrives.
#[derive(Debug, Clone)]
pub struct InterruptController {
    range: AddressRange,
    pending: u32,
    enable: u32,
    claimed: u32,
    route: InterruptRoute,
    claim_latch: Option<u32>,
    complete_staging: [u8; 4],
}

impl InterruptController {
    /// The mapped range.
    pub closed spec fn spec_range(&self) -> AddressRange {
        self.range
    }

    /// Pending sources.
    pub closed spec fn spec_pending(&self) -> u32 {
        self.pending
    }

    /// Enabled sources.
    pub closed spec fn spec_enable(&self) -> u32 {
        self.enable
    }

    /// Claimed and not yet completed sources.
    pub closed spec fn spec_claimed(&self) -> u32 {
        self.claimed
    }

    /// The route.
    pub closed spec fn spec_route(&self) -> InterruptRoute {
        self.route
    }

    /// The routed line while an enabled source is pending, otherwise nothing.
    pub open spec fn spec_interrupts(&self) -> InterruptSet {
        if self.spec_pending() & self.spec_enable() != 0 {
            InterruptSet::of_line(
                match self.spec_route() {
                    InterruptRoute::MachineExternal => InterruptLine::MachineExternal,
                    InterruptRoute::SupervisorExternal => InterruptLine::SupervisorExternal,
                },
            )
        } else {
            InterruptSet::nothing()
        }
    }

    /// A controller at `base` with nothing pending, enabled or claimed, routed to machine mode.
    pub fn new(base: Address) -> (c: Self)
        ensures
            c.spec_range() == (AddressRange { start: base, size: 20 }),
            c.spec_pending() == 0,
            c.spec_enable() == 0,
            c.spec_claimed() == 0,
            c.spec_route() == InterruptRoute::MachineExternal,
    {
        InterruptController {
            range: AddressRange::new(base, 20),
            pending: 0,
            enable: 0,
            claimed: 0,
            route: InterruptRoute::MachineExternal,
            claim_latch: None,
            complete_staging: [0; 4],
        }
    }

    fn offset(&self, addr: Address) -> (r: Result<Address, BusError>)
        ensures
            self.range.spec_contains(addr) ==> r == Ok::<Address, BusError>((addr - self.range.start) as Address),
            !self.range.spec_contains(addr) ==> r == Err::<Address, BusError>(BusError::UnmappedAddress { addr }),
    {
        if !self.range.contains(addr) {
            return Err(BusError::UnmappedAddress { addr });
        }
        Ok(addr - self.range.start)
    }

    fn source_mask(source_id: u32) -> (m: u32)
        ensures
            m == source_bit(source_id),
    {
        if 1 <= source_id && source_id <= 32 {
            1u32 << (source_id - 1)
        } else {
            0
        }
    }

    fn highest_priority_pending_source(&self) -> (id: u32)
        ensures
            id == lowest_source(self.pending & self.enable),
            id <= 32,
    {
        let bits = self.pending & self.enable;
        let mut i: u32 = 0;
        while i < 32
            invariant
                i <= 32,
                bits == self.pending & self.enable,
                lowest_source(bits) == lowest_source_from(bits, i as nat),
            decreases 32 - i,
        {
            if bits & (1u32 << i) != 0 {
                proof {
                    assert((i as nat) as u32 == i);
                    assert(lowest_source_from(bits, i as nat) == i + 1);
                }
                return i + 1;
            }
            proof {
                assert((i as nat) as u32 == i);
                assert(lowest_source_from(bits, i as nat) == lowest_source_from(bits, (i + 1) as nat));
            }
            i = i + 1;
        }
        0
    }

    /// Claim the highest-priority enabled pending source: it leaves pending and becomes claimed.
    fn claim_next(&mut self) -> (id: u32)
        ensures
            id == lowest_source(old(self).pending & old(self).enable),
            final(self).pending == old(self).pending & !source_bit(id),
            final(self).claimed == old(self).claimed | source_bit(id),
            final(self).enable == old(self).enable,
            final(self).route == old(self).route,
            final(self).range == old(self).range,
            final(self).complete_staging == old(self).complete_staging,
            final(self).claim_latch == old(self).claim_latch,
    {
        let source_id = self.highest_priority_pending_source();
        let mask = Self::source_mask(source_id);
        if source_id != 0 {
            self.pending = self.pending & !mask;
            self.claimed = self.claimed | mask;
        } else {
            let p = self.pending;
            let c = self.claimed;
            assert(p & !0u32 == p && c | 0u32 == c) by (bit_vector);
        }
        source_id
    }

    fn read_register_byte(&self, offset: Address) -> (b: u8)
        ensures
            offset < 4 ==> b == word_byte(self.pending, offset as int),
            4 <= offset < 8 ==> b == word_byte(self.enable, offset - 4),
            8 <= offset < 12 ==> b == 0,
            12 <= offset < 16 ==> b == word_byte(
                match self.claim_latch {
                    Some(id) => id,
                    None => 0,
                },
                offset - 12,
            ),
            16 <= offset < 20 ==> b == word_byte(route_bits(self.route), offset - 16),
    {
        if offset < 4 {
            byte_of_word(self.pending, offset)
        } else if offset < 8 {
            byte_of_word(self.enable, offset - 4)
        } else if offset < 12 {
            0
        } else if offset < 16 {
            let latched = match self.claim_latch {
                Some(id) => id,
                None => 0,
            };
            byte_of_word(latched, offset - 12)
        } else if offset < 20 {
            let bits = match self.route {
                InterruptRoute::MachineExternal => 0u32,
                InterruptRoute::SupervisorExternal => 1u32,
            };
            byte_of_word(bits, offset - 16)
        } else {
            0
        }
    }
}

impl Addressable for InterruptController {
    fn name(&self) -> (n: &'static str)
        ensures
            n == "interrupt-controller",
    {
        "interrupt-controller"
    }

    fn address_range(&self) -> (r: AddressRange)
        ensures
            r == self.spec_range(),
    {
        self.range
    }

    fn reset(&mut self)
        ensures
            final(self).spec_pending() == 0,
            final(self).spec_enable() == 0,
            final(self).spec_claimed() == 0,
            final(self).spec_route() == InterruptRoute::MachineExternal,
            final(self).spec_range() == old(self).spec_range(),
    {
        self.pending = 0;
        self.enable = 0;
        self.claimed = 0;
        self.route = InterruptRoute::MachineExternal;
        self.claim_latch = None;
        self.complete_staging = [0; 4];
    }

    /// The routed line is raised while an enabled source is pending.
    fn pending_interrupts(&self) -> (s: InterruptSet)
        ensures
            s == self.spec_interrupts(),
            s == (if self.spec_pending() & self.spec_enable() != 0 {
                InterruptSet::of_line(
                    match self.spec_route() {
                        InterruptRoute::MachineExternal => InterruptLine::MachineExternal,
                        InterruptRoute::SupervisorExternal => InterruptLine::SupervisorExternal,
                    },
                )
            } else {
                InterruptSet::nothing()
            }),
    {
        if (self.pending & self.enable) != 0 {
            InterruptSet::from_line(
                match self.route {
                    InterruptRoute::MachineExternal => InterruptLine::MachineExternal,
                    InterruptRoute::SupervisorExternal => InterruptLine::SupervisorExternal,
                },
            )
        } else {
            InterruptSet::empty()
        }
    }

    /// Reading the first byte of claim/complete claims a source; the other
    /// registers read their values, and set-pending reads zero.
    fn load8(&mut self, addr: Address) -> (r: Result<u8, BusError>)
        ensures
            !old(self).spec_range().spec_contains(addr) ==> r is Err && *final(self) == *old(self),
            old(self).spec_range().spec_contains(addr) && addr - old(self).spec_range().start == 12 ==> {
                let id = lowest_source(old(self).spec_pending() & old(self).spec_enable());
                &&& r == Ok::<u8, BusError>(word_byte(id, 0))
                &&& final(self).spec_pending() == old(self).spec_pending() & !source_bit(id)
                &&& final(self).spec_claimed() == old(self).spec_claimed() | source_bit(id)
            },
            old(self).spec_range().spec_contains(addr) && addr - old(self).spec_range().start < 4 ==> r
                == Ok::<u8, BusError>(word_byte(old(self).spec_pending(), addr - old(self).spec_range().start)),
            old(self).spec_range().spec_contains(addr) && addr - old(self).spec_range().start != 12 ==> final(self).spec_pending()
                == old(self).spec_pending() && final(self).spec_claimed() == old(self).spec_claimed(),
            final(self).spec_enable() == old(self).spec_enable(),
            final(self).spec_route() == old(self).spec_route(),
            final(self).spec_range() == old(self).spec_range(),
    {
        let offset = self.offset(addr)?;
        if offset == 12 {
            let id = self.claim_next();
            self.claim_latch = Some(id);
        }
        let value = self.read_register_byte(offset);
        if offset == 15 {
            self.claim_latch = None;
        }
        Ok(value)
    }

    /// Pending is read-only; enable and route take the byte written;
    /// set-pending raises the written bits of unclaimed sources; the last
    /// byte of claim/complete completes the source id written.
    fn store8(&mut self, addr: Address, value: u8) -> (r: Result<(), BusError>)
        ensures
            final(self).spec_range() == old(self).spec_range(),
            !old(self).spec_range().spec_contains(addr) ==> r is Err && *final(self) == *old(self),
            old(self).spec_range().spec_contains(addr) && addr - old(self).spec_range().start < 4 ==> r
                == Err::<(), BusError>(BusError::ReadOnlyAddress { addr }) && *final(self) == *old(self),
            old(self).spec_range().spec_contains(addr) && 4 <= addr - old(self).spec_range().start < 8 ==> r is Ok
                && final(self).spec_enable() == word_with_byte(
                old(self).spec_enable(),
                addr - old(self).spec_range().start - 4,
                value,
            ) && final(self).spec_pending() == old(self).spec_pending(),
            old(self).spec_range().spec_contains(addr) && 8 <= addr - old(self).spec_range().start < 12 ==> r is Ok
                && final(self).spec_pending() == old(self).spec_pending() | (word_with_byte(
                0,
                addr - old(self).spec_range().start - 8,
                value,
            ) & !old(self).spec_claimed()),
            old(self).spec_range().spec_contains(addr) && 16 <= addr - old(self).spec_range().start < 20 ==> r is Ok
                && final(self).spec_route() == route_of(
                word_with_byte(route_bits(old(self).spec_route()), addr - old(self).spec_range().start - 16, value),
            ),
    {
        let offset = self.offset(addr)?;
        if offset < 4 {
            Err(BusError::ReadOnlyAddress { addr })
        } else if offset < 8 {
            self.enable = replace_byte(self.enable, offset - 4, value);
            Ok(())
        } else if offset < 12 {
            let raised = replace_byte(0, offset - 8, value);
            self.pending = self.pending | (raised & !self.claimed);
            Ok(())
        } else if offset < 16 {
            let index = offset - 12;
            if index == 0 {
                self.complete_staging[0] = value;
            } else if index == 1 {
                self.complete_staging[1] = value;
            } else if index == 2 {
                self.complete_staging[2] = value;
            } else {
                self.complete_staging[3] = value;
                let source_id = word_from_le_bytes(self.complete_staging);
                self.claimed = self.claimed & !Self::source_mask(source_id);
                self.complete_staging = [0; 4];
            }
            Ok(())
        } else if offset < 20 {
            let bits = match self.route {
                InterruptRoute::MachineExternal => 0u32,
                InterruptRoute::SupervisorExternal => 1u32,
            };
            let updated = replace_byte(bits, offset - 16, value);
            self.route = if updated & 1 != 0 {
                InterruptRoute::SupervisorExternal
            } else {
                InterruptRoute::MachineExternal
            };
            Ok(())
        } else {
            Err(BusError::UnmappedAddress { addr })
        }
    }
}

} // verus!
