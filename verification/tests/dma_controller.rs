use std::cell::RefCell;
use std::rc::Rc;

use rvsim::arbiter::ArbiterBus;
use rvsim::bus::{
    AccessKind, Address, AddressRange, Addressable, Bus, BusError, BusMaster, BusMasterRequest, BusMasterResponse,
    InterruptLine, InterruptSet,
};
use rvsim::devices::dma_controller::DmaController;
use rvsim::devices::latency_adapter::LatencyAdapter;
use rvsim::devices::ram::Ram;
use rvsim::memory_map::MemoryMap;

const RAM_BASE: u64 = 0x1000_0000;
const DMA_BASE: u64 = 0x4000_0000;

/// One engine seen both as a mapped device and as a bus master.
#[derive(Debug, Clone)]
struct SharedDma(Rc<RefCell<DmaController>>);

impl BusMaster for SharedDma {
    fn name(&self) -> &'static str {
        BusMaster::name(&*self.0.borrow())
    }

    fn request(&mut self) -> Option<BusMasterRequest> {
        self.0.borrow_mut().request()
    }

    fn on_response(&mut self, response: Result<BusMasterResponse, BusError>) {
        self.0.borrow_mut().on_response(response);
    }
}

/// The devices these tests map.
#[derive(Debug)]
enum TestDevice {
    Ram(Ram),
    DelayedRam(LatencyAdapter<Ram>),
    Dma(SharedDma),
}

impl Addressable for TestDevice {
    fn name(&self) -> &'static str {
        match self {
            TestDevice::Ram(d) => d.name(),
            TestDevice::DelayedRam(d) => d.name(),
            TestDevice::Dma(d) => Addressable::name(&*d.0.borrow()),
        }
    }

    fn address_range(&self) -> AddressRange {
        match self {
            TestDevice::Ram(d) => d.address_range(),
            TestDevice::DelayedRam(d) => d.address_range(),
            TestDevice::Dma(d) => d.0.borrow().address_range(),
        }
    }

    fn reset(&mut self) {
        match self {
            TestDevice::Ram(d) => d.reset(),
            TestDevice::DelayedRam(d) => d.reset(),
            TestDevice::Dma(d) => d.0.borrow_mut().reset(),
        }
    }

    fn tick(&mut self) {
        match self {
            TestDevice::Ram(d) => d.tick(),
            TestDevice::DelayedRam(d) => d.tick(),
            TestDevice::Dma(d) => d.0.borrow_mut().tick(),
        }
    }

    fn access_latency(&mut self, addr: Address, kind: AccessKind, width: usize) -> u32 {
        match self {
            TestDevice::Ram(d) => d.access_latency(addr, kind, width),
            TestDevice::DelayedRam(d) => d.access_latency(addr, kind, width),
            TestDevice::Dma(d) => d.0.borrow_mut().access_latency(addr, kind, width),
        }
    }

    fn pending_interrupts(&self) -> InterruptSet {
        match self {
            TestDevice::Ram(d) => d.pending_interrupts(),
            TestDevice::DelayedRam(d) => d.pending_interrupts(),
            TestDevice::Dma(d) => d.0.borrow().pending_interrupts(),
        }
    }

    fn load8(&mut self, addr: Address) -> Result<u8, BusError> {
        match self {
            TestDevice::Ram(d) => d.load8(addr),
            TestDevice::DelayedRam(d) => d.load8(addr),
            TestDevice::Dma(d) => d.0.borrow_mut().load8(addr),
        }
    }

    fn store8(&mut self, addr: Address, value: u8) -> Result<(), BusError> {
        match self {
            TestDevice::Ram(d) => d.store8(addr, value),
            TestDevice::DelayedRam(d) => d.store8(addr, value),
            TestDevice::Dma(d) => d.0.borrow_mut().store8(addr, value),
        }
    }
}

fn fabric_with(memory_device: TestDevice) -> (ArbiterBus<MemoryMap<TestDevice>, SharedDma>, Rc<RefCell<DmaController>>) {
    let dma = Rc::new(RefCell::new(DmaController::new(DMA_BASE)));
    let mut memory = MemoryMap::new();
    memory.map_device(memory_device).expect("RAM should map");
    memory
        .map_device(TestDevice::Dma(SharedDma(Rc::clone(&dma))))
        .expect("DMA should map");
    let mut bus = ArbiterBus::new(memory);
    bus.add_master(SharedDma(Rc::clone(&dma)));
    (bus, dma)
}

fn blocking_store32<B>(bus: &mut B, addr: u64, value: u32)
where
    B: Bus,
{
    loop {
        match bus.store32(addr, value) {
            Ok(()) => return,
            Err(BusError::Busy { .. }) => bus.tick(),
            Err(error) => panic!("store32 at 0x{addr:08x} failed: {error:?}"),
        }
    }
}

fn blocking_load32<B>(bus: &mut B, addr: u64) -> u32
where
    B: Bus,
{
    loop {
        match bus.load32(addr) {
            Ok(value) => return value,
            Err(BusError::Busy { .. }) => bus.tick(),
            Err(error) => panic!("load32 at 0x{addr:08x} failed: {error:?}"),
        }
    }
}

#[test]
fn copies_words_and_raises_completion_interrupt() {
    let (mut bus, dma) = fabric_with(TestDevice::Ram(Ram::new(RAM_BASE, 0x100)));

    bus.store32(RAM_BASE, 0x1122_3344)
        .expect("source word 0 should write");
    bus.store32(RAM_BASE + 4, 0x5566_7788)
        .expect("source word 1 should write");
    bus.store32(DMA_BASE + DmaController::SOURCE_OFFSET, RAM_BASE as u32)
        .expect("DMA source should program");
    bus.store32(
        DMA_BASE + DmaController::DESTINATION_OFFSET,
        (RAM_BASE + 0x40) as u32,
    )
    .expect("DMA destination should program");
    bus.store32(DMA_BASE + DmaController::LENGTH_OFFSET, 2)
        .expect("DMA length should program");
    bus.store32(
        DMA_BASE + DmaController::CONTROL_OFFSET,
        DmaController::CONTROL_START | DmaController::CONTROL_IRQ_ENABLE,
    )
    .expect("DMA control should start transfer");

    for _ in 0..16 {
        bus.tick();
        if dma.borrow().is_done() {
            break;
        }
    }
    bus.tick();

    assert_eq!(
        bus.load32(RAM_BASE + 0x40)
            .expect("copied word 0 should read"),
        0x1122_3344
    );
    assert_eq!(
        bus.load32(RAM_BASE + 0x44)
            .expect("copied word 1 should read"),
        0x5566_7788
    );
    assert!(dma.borrow().is_done(), "{:?}", dma.borrow());
    assert!(!dma.borrow().has_error());
    assert_eq!(
        bus.pending_interrupts().highest_priority(),
        Some(InterruptLine::MachineExternal)
    );
}

#[test]
fn latches_error_for_bad_source_address() {
    let (mut bus, dma) = fabric_with(TestDevice::Ram(Ram::new(RAM_BASE, 0x100)));

    bus.store32(DMA_BASE + DmaController::SOURCE_OFFSET, 0xdead_0000)
        .expect("DMA source should program");
    bus.store32(
        DMA_BASE + DmaController::DESTINATION_OFFSET,
        RAM_BASE as u32,
    )
    .expect("DMA destination should program");
    bus.store32(DMA_BASE + DmaController::LENGTH_OFFSET, 1)
        .expect("DMA length should program");
    bus.store32(
        DMA_BASE + DmaController::CONTROL_OFFSET,
        DmaController::CONTROL_START | DmaController::CONTROL_IRQ_ENABLE,
    )
    .expect("DMA control should start transfer");

    for _ in 0..4 {
        bus.tick();
        if !dma.borrow().is_busy() {
            break;
        }
    }
    bus.tick();

    assert!(dma.borrow().has_error());
    assert!(!dma.borrow().is_done());
    assert_eq!(
        bus.pending_interrupts().highest_priority(),
        Some(InterruptLine::MachineExternal)
    );
    assert_eq!(
        bus.load32(DMA_BASE + DmaController::CONTROL_OFFSET)
            .expect("DMA status should read")
            & DmaController::STATUS_ERROR,
        DmaController::STATUS_ERROR
    );
}

#[test]
fn multiword_transfer_takes_one_read_and_one_write_grant() {
    let (mut bus, dma) = fabric_with(TestDevice::Ram(Ram::new(RAM_BASE, 0x200)));

    for (index, word) in [0x1111_1111, 0x2222_2222, 0x3333_3333, 0x4444_4444]
        .into_iter()
        .enumerate()
    {
        bus.store32(RAM_BASE + (index as u64 * 4), word)
            .expect("source word should write");
    }

    bus.store32(DMA_BASE + DmaController::SOURCE_OFFSET, RAM_BASE as u32)
        .expect("DMA source should program");
    bus.store32(
        DMA_BASE + DmaController::DESTINATION_OFFSET,
        (RAM_BASE + 0x80) as u32,
    )
    .expect("DMA destination should program");
    bus.store32(DMA_BASE + DmaController::LENGTH_OFFSET, 4)
        .expect("DMA length should program");
    bus.store32(
        DMA_BASE + DmaController::CONTROL_OFFSET,
        DmaController::CONTROL_START,
    )
    .expect("DMA control should start transfer");

    for _ in 0..16 {
        bus.tick();
        if dma.borrow().is_done() {
            break;
        }
    }

    assert!(dma.borrow().is_done(), "{:?}", dma.borrow());
    assert_eq!(bus.stats().master_grants, 2);
    bus.tick();
    for index in 0..4 {
        assert_eq!(
            bus.load32(RAM_BASE + 0x80 + (index as u64 * 4))
                .expect("copied word should read"),
            [0x1111_1111, 0x2222_2222, 0x3333_3333, 0x4444_4444][index]
        );
    }
}

#[test]
fn long_transfer_on_high_latency_memory_copies_every_word() {
    let (mut bus, dma) = fabric_with(TestDevice::DelayedRam(LatencyAdapter::new(Ram::new(RAM_BASE, 0x400), 3)));

    for index in 0..24 {
        blocking_store32(&mut bus, RAM_BASE + (index as u64 * 4), 0x1000_0000 + index as u32);
    }
    blocking_store32(&mut bus, DMA_BASE + DmaController::SOURCE_OFFSET, RAM_BASE as u32);
    blocking_store32(&mut bus, DMA_BASE + DmaController::DESTINATION_OFFSET, (RAM_BASE + 0x100) as u32);
    blocking_store32(&mut bus, DMA_BASE + DmaController::LENGTH_OFFSET, 24);
    blocking_store32(&mut bus, DMA_BASE + DmaController::CONTROL_OFFSET, DmaController::CONTROL_START);

    for _ in 0..512 {
        bus.tick();
        if dma.borrow().is_done() {
            break;
        }
    }

    assert!(dma.borrow().is_done(), "{:?}", dma.borrow());
    assert!(!dma.borrow().has_error());
    assert_eq!(
        blocking_load32(&mut bus, DMA_BASE + DmaController::TRANSFERRED_OFFSET),
        24
    );
    for index in 0..24 {
        assert_eq!(
            blocking_load32(&mut bus, RAM_BASE + 0x100 + (index as u64 * 4)),
            0x1000_0000 + index as u32
        );
    }
}

#[test]
fn zero_length_start_latches_error() {
    let mut dma = DmaController::new(DMA_BASE);
    for (offset, byte) in (DmaController::CONTROL_START | DmaController::CONTROL_IRQ_ENABLE)
        .to_le_bytes()
        .into_iter()
        .enumerate()
    {
        dma.store8(DMA_BASE + DmaController::CONTROL_OFFSET + offset as u64, byte)
            .expect("control write should succeed");
    }
    assert!(dma.has_error());
    assert!(!dma.is_busy());
    assert_eq!(dma.pending_interrupt(), Some(InterruptLine::MachineExternal));
    assert_eq!(
        dma.store8(DMA_BASE + DmaController::TRANSFERRED_OFFSET, 1),
        Err(BusError::ReadOnlyAddress { addr: DMA_BASE + DmaController::TRANSFERRED_OFFSET })
    );
}

#[test]
fn request_order_reads_ahead_then_writes() {
    let mut dma = DmaController::new(DMA_BASE);
    let program = [
        (DmaController::SOURCE_OFFSET, 0x100u32),
        (DmaController::DESTINATION_OFFSET, 0x800u32),
        (DmaController::LENGTH_OFFSET, 20u32),
        (DmaController::CONTROL_OFFSET, DmaController::CONTROL_START),
    ];
    for (register, value) in program {
        for (offset, byte) in value.to_le_bytes().into_iter().enumerate() {
            dma.store8(DMA_BASE + register + offset as u64, byte)
                .expect("register write should succeed");
        }
    }

    assert_eq!(dma.request(), Some(BusMasterRequest::ReadWords { base_addr: 0x100, beats: 8 }));
    assert_eq!(dma.request(), Some(BusMasterRequest::ReadWords { base_addr: 0x120, beats: 8 }));
    assert_eq!(dma.request(), Some(BusMasterRequest::ReadWords { base_addr: 0x140, beats: 4 }));
    assert_eq!(dma.request(), None);

    dma.on_response(Ok(BusMasterResponse::ReadWords(vec![7; 8])));
    assert_eq!(
        dma.request(),
        Some(BusMasterRequest::WriteWords { base_addr: 0x800, words: vec![7; 8] })
    );
    dma.on_response(Ok(BusMasterResponse::ReadWords(vec![8; 3])));
    assert!(dma.has_error());
    assert!(!dma.is_busy());
}
