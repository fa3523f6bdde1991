//! Memory-mapped device models: memories, timers, interrupt sources, an
//! interrupt controller, a UART, a block device and a DMA engine.

pub mod rom;
pub mod ram;
pub mod latency_adapter;
pub mod dram;
pub mod machine_software_interrupt;
pub mod supervisor_software_interrupt;
pub mod machine_timer;
pub mod interrupt_controller;
pub mod simple_uart;
pub mod block_device;
pub mod dma_controller;

use vstd::prelude::*;
use crate::bus::{AccessKind, Address, AddressRange, Addressable, BusError, InterruptLine, InterruptSet};
use self::block_device::BlockDevice;
use self::dram::Dram;
use self::interrupt_controller::InterruptController;
use self::latency_adapter::LatencyAdapter;
use self::machine_software_interrupt::MachineSoftwareInterrupt;
use self::machine_timer::MachineTimer;
use self::ram::Ram;
use self::rom::Rom;
use self::simple_uart::SimpleUart;
use self::supervisor_software_interrupt::SupervisorSoftwareInterrupt;

verus! {

/// Any of the device models, so that one memory map can hold several kinds.
#[derive(Debug, Clone)]
pub enum MappedDevice {
    Rom(Rom),
    Ram(Ram),
    DelayedRam(LatencyAdapter<Ram>),
    Dram(Dram),
    MachineSoftwareInterrupt(MachineSoftwareInterrupt),
    SupervisorSoftwareInterrupt(SupervisorSoftwareInterrupt),
    MachineTimer(MachineTimer),
    InterruptController(InterruptController),
    SimpleUart(SimpleUart),
    BlockDevice(BlockDevice),
}

impl MappedDevice {
    /// The mapped range of the device inside.
    pub open spec fn spec_range(self) -> AddressRange {
        match self {
            MappedDevice::Rom(d) => d.spec_range(),
            MappedDevice::Ram(d) => d.spec_range(),
            MappedDevice::DelayedRam(d) => d.spec_inner().spec_range(),
            MappedDevice::Dram(d) => d.spec_range(),
            MappedDevice::MachineSoftwareInterrupt(d) => d.spec_range(),
            MappedDevice::SupervisorSoftwareInterrupt(d) => d.spec_range(),
            MappedDevice::MachineTimer(d) => d.spec_range(),
            MappedDevice::InterruptController(d) => d.spec_range(),
            MappedDevice::SimpleUart(d) => d.spec_range(),
            MappedDevice::BlockDevice(d) => d@.range,
        }
    }

    /// The lines the device inside asserts.
    pub open spec fn spec_interrupts(self) -> InterruptSet {
        match self {
            MappedDevice::MachineSoftwareInterrupt(d) => if d.spec_register() & 1 != 0 {
                InterruptSet::of_line(InterruptLine::MachineSoftware)
            } else {
                InterruptSet::nothing()
            },
            MappedDevice::SupervisorSoftwareInterrupt(d) => if d.spec_register() & 1 != 0 {
                InterruptSet::of_line(InterruptLine::SupervisorSoftware)
            } else {
                InterruptSet::nothing()
            },
            MappedDevice::MachineTimer(d) => if d.spec_mtime() >= d.spec_mtime_compare() {
                InterruptSet::of_line(InterruptLine::MachineTimer)
            } else {
                InterruptSet::nothing()
            },
            MappedDevice::InterruptController(d) => d.spec_interrupts(),
            MappedDevice::BlockDevice(d) => d@.interrupts(),
            _ => InterruptSet::nothing(),
        }
    }

    /// The byte a RAM or DRAM holds at `addr`.
    pub open spec fn spec_byte(self, addr: Address) -> u8 {
        match self {
            MappedDevice::Ram(d) => d.spec_byte(addr),
            MappedDevice::DelayedRam(d) => d.spec_inner().spec_byte(addr),
            MappedDevice::Dram(d) => d.spec_data()[addr - d.spec_range().start],
            _ => 0,
        }
    }

    /// Whether a byte store at `addr` lands in the memory of a RAM or DRAM.
    pub open spec fn spec_writable(self, addr: Address) -> bool {
        match self {
            MappedDevice::Ram(d) => d.spec_holds_byte(addr),
            MappedDevice::DelayedRam(d) => d.spec_inner().spec_holds_byte(addr),
            MappedDevice::Dram(d) => d.spec_range().spec_contains(addr) && addr - d.spec_range().start < d.spec_data().len(),
            _ => false,
        }
    }

    /// Whether two devices are the same kind of device.
    pub open spec fn same_kind(self, other: MappedDevice) -> bool {
        match (self, other) {
            (MappedDevice::Rom(_), MappedDevice::Rom(_)) => true,
            (MappedDevice::Ram(_), MappedDevice::Ram(_)) => true,
            (MappedDevice::DelayedRam(_), MappedDevice::DelayedRam(_)) => true,
            (MappedDevice::Dram(_), MappedDevice::Dram(_)) => true,
            (MappedDevice::MachineSoftwareInterrupt(_), MappedDevice::MachineSoftwareInterrupt(_)) => true,
            (MappedDevice::SupervisorSoftwareInterrupt(_), MappedDevice::SupervisorSoftwareInterrupt(_)) => true,
            (MappedDevice::MachineTimer(_), MappedDevice::MachineTimer(_)) => true,
            (MappedDevice::InterruptController(_), MappedDevice::InterruptController(_)) => true,
            (MappedDevice::SimpleUart(_), MappedDevice::SimpleUart(_)) => true,
            (MappedDevice::BlockDevice(_), MappedDevice::BlockDevice(_)) => true,
            _ => false,
        }
    }
}

impl Addressable for MappedDevice {
    fn name(&self) -> (n: &'static str)
        ensures
            n == match self {
                MappedDevice::Rom(_) => "rom",
                MappedDevice::Ram(_) => "ram",
                MappedDevice::DelayedRam(_) => "ram",
                MappedDevice::Dram(_) => "dram",
                MappedDevice::MachineSoftwareInterrupt(_) => "machine-software-interrupt",
                MappedDevice::SupervisorSoftwareInterrupt(_) => "supervisor-software-interrupt",
                MappedDevice::MachineTimer(_) => "machine-timer",
                MappedDevice::InterruptController(_) => "interrupt-controller",
                MappedDevice::SimpleUart(_) => "simple-uart",
                MappedDevice::BlockDevice(_) => "block-device",
            },
    {
        match self {
            MappedDevice::Rom(d) => d.name(),
            MappedDevice::Ram(d) => d.name(),
            MappedDevice::DelayedRam(d) => d.inner().name(),
            MappedDevice::Dram(d) => d.name(),
            MappedDevice::MachineSoftwareInterrupt(d) => d.name(),
            MappedDevice::SupervisorSoftwareInterrupt(d) => d.name(),
            MappedDevice::MachineTimer(d) => d.name(),
            MappedDevice::InterruptController(d) => d.name(),
            MappedDevice::SimpleUart(d) => d.name(),
            MappedDevice::BlockDevice(d) => d.name(),
        }
    }

    fn address_range(&self) -> (r: AddressRange)
        ensures
            r == self.spec_range(),
    {
        match self {
            MappedDevice::Rom(d) => d.address_range(),
            MappedDevice::Ram(d) => d.address_range(),
            MappedDevice::DelayedRam(d) => d.inner().address_range(),
            MappedDevice::Dram(d) => d.address_range(),
            MappedDevice::MachineSoftwareInterrupt(d) => d.address_range(),
            MappedDevice::SupervisorSoftwareInterrupt(d) => d.address_range(),
            MappedDevice::MachineTimer(d) => d.address_range(),
            MappedDevice::InterruptController(d) => d.address_range(),
            MappedDevice::SimpleUart(d) => d.address_range(),
            MappedDevice::BlockDevice(d) => d.address_range(),
        }
    }

    fn reset(&mut self)
        ensures
            final(self).same_kind(*old(self)),
            final(self).spec_range() == old(self).spec_range(),
    {
        match self {
            MappedDevice::Rom(d) => d.reset(),
            MappedDevice::Ram(d) => d.reset(),
            MappedDevice::DelayedRam(d) => d.inner_mut().reset(),
            MappedDevice::Dram(d) => d.reset(),
            MappedDevice::MachineSoftwareInterrupt(d) => d.reset(),
            MappedDevice::SupervisorSoftwareInterrupt(d) => d.reset(),
            MappedDevice::MachineTimer(d) => d.reset(),
            MappedDevice::InterruptController(d) => d.reset(),
            MappedDevice::SimpleUart(d) => d.reset(),
            MappedDevice::BlockDevice(d) => d.reset(),
        }
    }

    fn tick(&mut self)
        ensures
            final(self).same_kind(*old(self)),
            final(self).spec_range() == old(self).spec_range(),
            *old(self) matches MappedDevice::MachineTimer(t) ==> (*final(self) matches MappedDevice::MachineTimer(u)
                && u.spec_mtime() == vstd::wrapping::u64_specs::wrapping_add(t.spec_mtime(), 1)
                && u.spec_mtime_compare() == t.spec_mtime_compare()),
            *old(self) matches MappedDevice::BlockDevice(b) ==> (*final(self) matches MappedDevice::BlockDevice(c)
                && c@ == b@.ticked()),
            *old(self) matches MappedDevice::DelayedRam(a) ==> (*final(self) matches MappedDevice::DelayedRam(b)
                && b.spec_inner() == a.spec_inner() && b.spec_latency() == a.spec_latency()),
            !(*old(self) is MachineTimer || *old(self) is BlockDevice || *old(self) is DelayedRam) ==> *final(self)
                == *old(self),
    {
        match self {
            MappedDevice::Rom(d) => d.tick(),
            MappedDevice::Ram(d) => d.tick(),
            MappedDevice::DelayedRam(d) => d.inner_mut().tick(),
            MappedDevice::Dram(d) => d.tick(),
            MappedDevice::MachineSoftwareInterrupt(d) => d.tick(),
            MappedDevice::SupervisorSoftwareInterrupt(d) => d.tick(),
            MappedDevice::MachineTimer(d) => d.tick(),
            MappedDevice::InterruptController(d) => d.tick(),
            MappedDevice::SimpleUart(d) => d.tick(),
            MappedDevice::BlockDevice(d) => d.tick(),
        }
    }

    fn machine_time(&self) -> (t: Option<u64>)
        ensures
            t == match self {
                MappedDevice::MachineTimer(d) => Some(d.spec_mtime()),
                _ => None,
            },
    {
        match self {
            MappedDevice::Rom(d) => d.machine_time(),
            MappedDevice::Ram(d) => d.machine_time(),
            MappedDevice::DelayedRam(d) => d.inner().machine_time(),
            MappedDevice::Dram(d) => d.machine_time(),
            MappedDevice::MachineSoftwareInterrupt(d) => d.machine_time(),
            MappedDevice::SupervisorSoftwareInterrupt(d) => d.machine_time(),
            MappedDevice::MachineTimer(d) => d.machine_time(),
            MappedDevice::InterruptController(d) => d.machine_time(),
            MappedDevice::SimpleUart(d) => d.machine_time(),
            MappedDevice::BlockDevice(d) => d.machine_time(),
        }
    }

    fn access_latency(&mut self, addr: Address, kind: AccessKind, width: usize) -> (n: u32)
        ensures
            n == match *old(self) {
                MappedDevice::DelayedRam(d) => d.spec_latency(),
                MappedDevice::Dram(d) => d.spec_latency(addr),
                _ => 0,
            },
            final(self).same_kind(*old(self)),
            final(self).spec_range() == old(self).spec_range(),
    {
        match self {
            MappedDevice::Rom(d) => d.access_latency(addr, kind, width),
            MappedDevice::Ram(d) => d.access_latency(addr, kind, width),
            MappedDevice::DelayedRam(d) => d.access_latency(addr, kind, width),
            MappedDevice::Dram(d) => d.access_latency(addr, kind, width),
            MappedDevice::MachineSoftwareInterrupt(d) => d.access_latency(addr, kind, width),
            MappedDevice::SupervisorSoftwareInterrupt(d) => d.access_latency(addr, kind, width),
            MappedDevice::MachineTimer(d) => d.access_latency(addr, kind, width),
            MappedDevice::InterruptController(d) => d.access_latency(addr, kind, width),
            MappedDevice::SimpleUart(d) => d.access_latency(addr, kind, width),
            MappedDevice::BlockDevice(d) => d.access_latency(addr, kind, width),
        }
    }

    fn pending_interrupts(&self) -> (s: InterruptSet)
        ensures
            s == self.spec_interrupts(),
    {
        match self {
            MappedDevice::Rom(d) => d.pending_interrupts(),
            MappedDevice::Ram(d) => d.pending_interrupts(),
            MappedDevice::DelayedRam(d) => d.inner().pending_interrupts(),
            MappedDevice::Dram(d) => d.pending_interrupts(),
            MappedDevice::MachineSoftwareInterrupt(d) => d.pending_interrupts(),
            MappedDevice::SupervisorSoftwareInterrupt(d) => d.pending_interrupts(),
            MappedDevice::MachineTimer(d) => d.pending_interrupts(),
            MappedDevice::InterruptController(d) => d.pending_interrupts(),
            MappedDevice::SimpleUart(d) => d.pending_interrupts(),
            MappedDevice::BlockDevice(d) => d.pending_interrupts(),
        }
    }

    fn load8(&mut self, addr: Address) -> (r: Result<u8, BusError>)
        ensures
            final(self).same_kind(*old(self)),
            final(self).spec_range() == old(self).spec_range(),
            !old(self).spec_range().spec_contains(addr) ==> r is Err,
            *old(self) matches MappedDevice::Ram(m) ==> (m.spec_holds_byte(addr) ==> r == Ok::<u8, BusError>(
                m.spec_byte(addr),
            )),
            *old(self) matches MappedDevice::DelayedRam(m) ==> (m.spec_inner().spec_holds_byte(addr) ==> r == Ok::<
                u8,
                BusError,
            >(m.spec_inner().spec_byte(addr))),
    {
        match self {
            MappedDevice::Rom(d) => d.load8(addr),
            MappedDevice::Ram(d) => d.load8(addr),
            MappedDevice::DelayedRam(d) => d.inner_mut().load8(addr),
            MappedDevice::Dram(d) => d.load8(addr),
            MappedDevice::MachineSoftwareInterrupt(d) => d.load8(addr),
            MappedDevice::SupervisorSoftwareInterrupt(d) => d.load8(addr),
            MappedDevice::MachineTimer(d) => d.load8(addr),
            MappedDevice::InterruptController(d) => d.load8(addr),
            MappedDevice::SimpleUart(d) => d.load8(addr),
            MappedDevice::BlockDevice(d) => d.load8(addr),
        }
    }

    fn store8(&mut self, addr: Address, value: u8) -> (r: Result<(), BusError>)
        ensures
            final(self).same_kind(*old(self)),
            final(self).spec_range() == old(self).spec_range(),
            !old(self).spec_range().spec_contains(addr) ==> r is Err,
            *old(self) is Rom ==> r == Err::<(), BusError>(BusError::ReadOnlyAddress { addr }),
            *old(self) matches MappedDevice::Ram(m) ==> (m.spec_holds_byte(addr) ==> (r is Ok && (*final(self)
                matches MappedDevice::Ram(n) && n.spec_data() == m.spec_data().update(addr - m.spec_range().start, value)))),
            old(self).spec_writable(addr) ==> r is Ok && final(self).spec_byte(addr) == value,
            forall|a: Address| a != addr && old(self).spec_writable(a) ==> #[trigger] final(self).spec_byte(a) == old(self).spec_byte(a),
            forall|a: Address| #[trigger] final(self).spec_writable(a) == old(self).spec_writable(a),
    {
        match self {
            MappedDevice::Rom(d) => d.store8(addr, value),
            MappedDevice::Ram(d) => d.store8(addr, value),
            MappedDevice::DelayedRam(d) => d.inner_mut().store8(addr, value),
            MappedDevice::Dram(d) => d.store8(addr, value),
            MappedDevice::MachineSoftwareInterrupt(d) => d.store8(addr, value),
            MappedDevice::SupervisorSoftwareInterrupt(d) => d.store8(addr, value),
            MappedDevice::MachineTimer(d) => d.store8(addr, value),
            MappedDevice::InterruptController(d) => d.store8(addr, value),
            MappedDevice::SimpleUart(d) => d.store8(addr, value),
            MappedDevice::BlockDevice(d) => d.store8(addr, value),
        }
    }
}

} // verus!
