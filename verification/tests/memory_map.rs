use std::cell::RefCell;
use std::rc::Rc;

use rvsim::bus::{
    AccessKind, AddressRange, Addressable, BurstPhase, BurstRequest, BurstResponse, Bus, BusError, InterruptLine,
    InterruptSet, TransactionPhase, TransactionRequest, TransactionResponse,
};
use rvsim::memory_map::MemoryMap;

#[derive(Debug)]
struct CounterDevice {
    range: AddressRange,
    value: u8,
    interrupts: InterruptSet,
    latency_cycles: u32,
    machine_time: Option<u64>,
}

impl Addressable for CounterDevice {
    fn name(&self) -> &'static str {
        "counter"
    }

    fn address_range(&self) -> AddressRange {
        self.range
    }

    fn load8(&mut self, _addr: u64) -> Result<u8, BusError> {
        Ok(self.value)
    }

    fn store8(&mut self, _addr: u64, value: u8) -> Result<(), BusError> {
        self.value = value;
        Ok(())
    }

    fn tick(&mut self) {
        if let Some(machine_time) = &mut self.machine_time {
            *machine_time = machine_time.wrapping_add(1);
        }
    }

    fn pending_interrupts(&self) -> InterruptSet {
        self.interrupts
    }

    fn machine_time(&self) -> Option<u64> {
        self.machine_time
    }

    fn access_latency(&mut self, _addr: u64, _kind: AccessKind, _width: usize) -> u32 {
        self.latency_cycles
    }
}

#[derive(Debug)]
struct ByteArrayDevice {
    range: AddressRange,
    bytes: Vec<u8>,
    latency_cycles: u32,
}

impl Addressable for ByteArrayDevice {
    fn name(&self) -> &'static str {
        "byte-array"
    }

    fn address_range(&self) -> AddressRange {
        self.range
    }

    fn load8(&mut self, addr: u64) -> Result<u8, BusError> {
        let offset = (addr - self.range.start) as usize;
        self.bytes
            .get(offset)
            .copied()
            .ok_or(BusError::UnmappedAddress { addr })
    }

    fn store8(&mut self, addr: u64, value: u8) -> Result<(), BusError> {
        let offset = (addr - self.range.start) as usize;
        let byte = self
            .bytes
            .get_mut(offset)
            .ok_or(BusError::UnmappedAddress { addr })?;
        *byte = value;
        Ok(())
    }

    fn access_latency(&mut self, _addr: u64, _kind: AccessKind, _width: usize) -> u32 {
        self.latency_cycles
    }
}

#[test]
fn routes_to_mapped_device() {
    let mut map = MemoryMap::new();
    map.map_device(CounterDevice {
        range: AddressRange::new(0x1000, 4),
        value: 0,
        interrupts: InterruptSet::empty(),
        latency_cycles: 0,
        machine_time: None,
    })
    .expect("device should map");

    map.store8(0x1000, 7).expect("write should succeed");
    assert_eq!(map.load8(0x1000).expect("read should succeed"), 7);
}

#[test]
fn aggregates_interrupts_across_devices() {
    let mut map = MemoryMap::new();
    map.map_device(CounterDevice {
        range: AddressRange::new(0x1000, 4),
        value: 0,
        interrupts: InterruptSet::from(InterruptLine::MachineTimer),
        latency_cycles: 0,
        machine_time: None,
    })
    .expect("timer-like device should map");
    map.map_device(CounterDevice {
        range: AddressRange::new(0x2000, 4),
        value: 0,
        interrupts: InterruptSet::from(InterruptLine::MachineExternal),
        latency_cycles: 0,
        machine_time: None,
    })
    .expect("external device should map");

    let interrupts = map.pending_interrupts();
    assert!(interrupts.contains(InterruptLine::MachineTimer));
    assert!(interrupts.contains(InterruptLine::MachineExternal));
    assert_eq!(
        interrupts.highest_priority(),
        Some(InterruptLine::MachineExternal)
    );
}

#[test]
fn delays_access_until_busy_cycles_elapse() {
    let mut map = MemoryMap::new();
    map.map_device(CounterDevice {
        range: AddressRange::new(0x1000, 4),
        value: 9,
        interrupts: InterruptSet::empty(),
        latency_cycles: 2,
        machine_time: None,
    })
    .expect("device should map");

    let error = map.load8(0x1000).expect_err("first access should stall");
    assert_eq!(
        error,
        BusError::Busy {
            remaining_cycles: 2
        }
    );
    assert!(map.is_busy());

    map.tick();
    let error = map
        .load8(0x1000)
        .expect_err("second access should still stall");
    assert_eq!(
        error,
        BusError::Busy {
            remaining_cycles: 1
        }
    );

    map.tick();
    assert_eq!(map.load8(0x1000).expect("access should complete"), 9);
    assert!(!map.is_busy());
}

#[test]
fn explicit_transaction_progresses_from_accepted_to_ready() {
    let mut map = MemoryMap::new();
    map.map_device(CounterDevice {
        range: AddressRange::new(0x1000, 4),
        value: 0x5a,
        interrupts: InterruptSet::empty(),
        latency_cycles: 2,
        machine_time: None,
    })
    .expect("device should map");

    let id = map
        .submit_transaction(TransactionRequest::load(0x1000, 1))
        .expect("transaction should submit");
    assert_eq!(map.transaction_phase(id), Some(TransactionPhase::Accepted));

    assert_eq!(
        map.advance_transaction(id),
        Some(TransactionPhase::InFlight {
            remaining_cycles: 2
        })
    );

    map.tick();
    assert_eq!(
        map.transaction_phase(id),
        Some(TransactionPhase::InFlight {
            remaining_cycles: 1
        })
    );

    map.tick();
    assert_eq!(
        map.take_transaction_response(id),
        Some(Ok(TransactionResponse::Read {
            data: [0x5a, 0, 0, 0],
            width: 1,
        }))
    );
    assert_eq!(map.transaction_phase(id), None);
}

#[test]
fn explicit_burst_progresses_beat_by_beat() {
    let mut map = MemoryMap::new();
    map.map_device(ByteArrayDevice {
        range: AddressRange::new(0x1000, 8),
        bytes: vec![0x44, 0x33, 0x22, 0x11, 0x88, 0x77, 0x66, 0x55],
        latency_cycles: 2,
    })
    .expect("device should map");

    let id = map
        .submit_burst(BurstRequest::read_words(0x1000, 2, AccessKind::Load))
        .expect("burst should submit");
    assert_eq!(
        map.burst_phase(id),
        Some(BurstPhase::Accepted {
            beat_index: 0,
            total_beats: 2,
        })
    );

    assert_eq!(
        map.advance_burst(id),
        Some(BurstPhase::InFlight {
            beat_index: 0,
            total_beats: 2,
            remaining_cycles: 2,
        })
    );

    map.tick();
    assert_eq!(
        map.burst_phase(id),
        Some(BurstPhase::InFlight {
            beat_index: 0,
            total_beats: 2,
            remaining_cycles: 1,
        })
    );

    map.tick();
    assert_eq!(
        map.burst_phase(id),
        Some(BurstPhase::Accepted {
            beat_index: 1,
            total_beats: 2,
        })
    );

    map.advance_burst(id);
    map.tick();
    map.tick();

    assert_eq!(
        map.take_burst_response(id),
        Some(Ok(BurstResponse::ReadWords(
            vec![0x1122_3344, 0x5566_7788]
        )))
    );
    assert_eq!(map.burst_phase(id), None);
}

#[test]
fn explicit_transactions_can_overlap() {
    let mut map = MemoryMap::new();
    map.map_device(ByteArrayDevice {
        range: AddressRange::new(0x1000, 4),
        bytes: vec![0x11, 0x22, 0x33, 0x44],
        latency_cycles: 2,
    })
    .expect("device should map");

    let first = map
        .submit_transaction(TransactionRequest::load(0x1000, 1))
        .expect("first transaction should submit");
    let second = map
        .submit_transaction(TransactionRequest::load(0x1001, 1))
        .expect("second transaction should submit while first is still pending");

    assert_eq!(
        map.transaction_phase(first),
        Some(TransactionPhase::Accepted)
    );
    assert_eq!(
        map.transaction_phase(second),
        Some(TransactionPhase::Accepted)
    );

    map.tick();
    assert_eq!(
        map.transaction_phase(first),
        Some(TransactionPhase::InFlight {
            remaining_cycles: 2,
        })
    );
    assert_eq!(
        map.transaction_phase(second),
        Some(TransactionPhase::InFlight {
            remaining_cycles: 2,
        })
    );

    map.tick();
    map.tick();

    assert_eq!(
        map.take_transaction_response(first),
        Some(Ok(TransactionResponse::Read {
            data: [0x11, 0, 0, 0],
            width: 1,
        }))
    );
    assert_eq!(
        map.take_transaction_response(second),
        Some(Ok(TransactionResponse::Read {
            data: [0x22, 0, 0, 0],
            width: 1,
        }))
    );
}

#[test]
fn transaction_and_burst_can_progress_concurrently() {
    let mut map = MemoryMap::new();
    map.map_device(ByteArrayDevice {
        range: AddressRange::new(0x1000, 12),
        bytes: vec![
            0x11, 0x00, 0x00, 0x00, 0x22, 0x00, 0x00, 0x00, 0x33, 0x00, 0x00, 0x00,
        ],
        latency_cycles: 1,
    })
    .expect("device should map");

    let transaction = map
        .submit_transaction(TransactionRequest::load(0x1000, 1))
        .expect("transaction should submit");
    let burst = map
        .submit_burst(BurstRequest::read_words(0x1004, 2, AccessKind::Load))
        .expect("burst should submit while transaction is pending");

    map.tick();
    assert_eq!(
        map.transaction_phase(transaction),
        Some(TransactionPhase::InFlight {
            remaining_cycles: 1,
        })
    );
    assert_eq!(
        map.burst_phase(burst),
        Some(BurstPhase::InFlight {
            beat_index: 0,
            total_beats: 2,
            remaining_cycles: 1,
        })
    );

    map.tick();
    assert_eq!(
        map.take_transaction_response(transaction),
        Some(Ok(TransactionResponse::Read {
            data: [0x11, 0, 0, 0],
            width: 1,
        }))
    );
    assert_eq!(
        map.burst_phase(burst),
        Some(BurstPhase::Accepted {
            beat_index: 1,
            total_beats: 2,
        })
    );

    map.tick();
    map.tick();
    assert_eq!(
        map.take_burst_response(burst),
        Some(Ok(BurstResponse::ReadWords(
            vec![0x22, 0x33]
        )))
    );
}

#[test]
fn compatibility_bus_request_can_overlap_with_explicit_transaction() {
    let mut map = MemoryMap::new();
    map.map_device(ByteArrayDevice {
        range: AddressRange::new(0x1000, 4),
        bytes: vec![0xaa, 0xbb, 0xcc, 0xdd],
        latency_cycles: 1,
    })
    .expect("device should map");

    let explicit = map
        .submit_transaction(TransactionRequest::load(0x1000, 1))
        .expect("explicit transaction should submit");

    let error = map
        .load8(0x1001)
        .expect_err("compatibility request should start and stall");
    assert_eq!(
        error,
        BusError::Busy {
            remaining_cycles: 1,
        }
    );
    assert_eq!(
        map.transaction_phase(explicit),
        Some(TransactionPhase::Accepted)
    );

    map.tick();
    assert_eq!(
        map.load8(0x1001)
            .expect("compatibility request should complete"),
        0xbb
    );
    assert_eq!(
        map.transaction_phase(explicit),
        Some(TransactionPhase::InFlight {
            remaining_cycles: 1,
        })
    );

    map.tick();
    assert_eq!(
        map.take_transaction_response(explicit),
        Some(Ok(TransactionResponse::Read {
            data: [0xaa, 0, 0, 0],
            width: 1,
        }))
    );
}

#[derive(Debug)]
struct SharedDevice(Rc<RefCell<CounterDevice>>);

impl Addressable for SharedDevice {
    fn name(&self) -> &'static str {
        self.0.borrow().name()
    }

    fn address_range(&self) -> AddressRange {
        self.0.borrow().address_range()
    }

    fn load8(&mut self, addr: u64) -> Result<u8, BusError> {
        self.0.borrow_mut().load8(addr)
    }

    fn store8(&mut self, addr: u64, value: u8) -> Result<(), BusError> {
        self.0.borrow_mut().store8(addr, value)
    }

    fn pending_interrupts(&self) -> InterruptSet {
        self.0.borrow().pending_interrupts()
    }
}

#[test]
fn routes_to_shared_devices() {
    let shared = Rc::new(RefCell::new(CounterDevice {
        range: AddressRange::new(0x3000, 4),
        value: 1,
        interrupts: InterruptSet::from(InterruptLine::MachineExternal),
        latency_cycles: 0,
        machine_time: None,
    }));
    let mut map = MemoryMap::new();
    map.map_device(SharedDevice(Rc::clone(&shared)))
        .expect("shared device should map");

    map.store8(0x3000, 5)
        .expect("write should reach shared device");

    assert_eq!(shared.borrow().value, 5);
    assert_eq!(
        map.pending_interrupts().highest_priority(),
        Some(InterruptLine::MachineExternal)
    );
}

#[test]
fn exposes_machine_time_from_mapped_devices() {
    let mut map = MemoryMap::new();
    map.map_device(CounterDevice {
        range: AddressRange::new(0x4000, 4),
        value: 0,
        interrupts: InterruptSet::empty(),
        latency_cycles: 0,
        machine_time: Some(7),
    })
    .expect("time-source device should map");

    assert_eq!(map.machine_time(), Some(7));

    map.tick();
    map.tick();

    assert_eq!(map.machine_time(), Some(9));
}

#[test]
fn store_reaches_only_the_containing_device() {
    let mut map = MemoryMap::new();
    for (start, value) in [(0x1000u64, 3u8), (0x2000u64, 5u8)] {
        map.map_device(CounterDevice {
            range: AddressRange::new(start, 4),
            value,
            interrupts: InterruptSet::empty(),
            latency_cycles: 0,
            machine_time: None,
        })
        .expect("device should map");
    }

    map.store8(0x1000, 7).expect("write should succeed");
    assert_eq!(map.load8(0x1000).expect("first device reads back"), 7);
    assert_eq!(map.load8(0x2000).expect("second device is untouched"), 5);
}
