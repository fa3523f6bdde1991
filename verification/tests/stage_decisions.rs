use rvsim::bus::{BusError, InterruptLine, InterruptSet};
use rvsim::component::CpuCycle;
use rvsim::cpu_model::{CpuError, CpuModel};
use rvsim::csr_address::CsrAddress;
use rvsim::decode::decode;
use rvsim::exception::{Exception, Trap};
use rvsim::memory_map::MemoryMap;
use rvsim::devices::ram::Ram;
use rvsim::devices::MappedDevice;
use rvsim::bus::{AccessKind, BurstRequest};
use rvsim::mmu::{MemoryAccess, PteOutcome, TranslationRequest, WalkPhase, WalkState, pte_outcome, PTE_V};
use rvsim::pipeline::latches::ExMemPayload;
use rvsim::pipeline::mem_stage::{MemoryEvent, load_outcome, store_outcome};
use rvsim::privilege::PrivilegeMode;
use rvsim::reference::ReferenceCore;

#[test]
fn start_cycle_takes_enabled_pending_interrupt_before_fetch() {
    let mut core = ReferenceCore::new(0);
    core.hart_state_mut().csrs.write(CsrAddress::Mstatus, 1 << 3);
    core.hart_state_mut().csrs.write(CsrAddress::Mie, 1 << 7);
    core.hart_state_mut().csrs.write(CsrAddress::Mtvec, 0x40);
    let report = core.start_cycle(InterruptSet::from(InterruptLine::MachineTimer), false);
    assert_eq!(report, Some(CpuCycle { retired_instructions: 0, stalled: true }));
    assert_eq!(core.hart_state().pc, 0x40);
    assert_eq!(core.hart_state().csrs.read(CsrAddress::Mcause), (1 << 31) | 7);
    assert_eq!(core.hart_state().privilege, PrivilegeMode::Machine);
}

#[test]
fn start_cycle_waits_for_an_idle_bus_before_an_interrupt() {
    let mut core = ReferenceCore::new(0);
    core.hart_state_mut().csrs.write(CsrAddress::Mstatus, 1 << 3);
    core.hart_state_mut().csrs.write(CsrAddress::Mie, 1 << 7);
    core.hart_state_mut().csrs.write(CsrAddress::Mtvec, 0x40);
    assert_eq!(core.start_cycle(InterruptSet::from(InterruptLine::MachineTimer), true), None);
    assert_eq!(core.hart_state().pc, 0);
}

#[test]
fn finish_fetch_traps_an_undecodable_word_as_illegal() {
    let mut core = ReferenceCore::new(0);
    core.hart_state_mut().csrs.write(CsrAddress::Mtvec, 0x20);
    assert_eq!(core.finish_fetch(Ok(0xffff_ffff)), Ok(None));
    assert_eq!(
        core.last_trap(),
        Some(Trap::Exception(Exception::IllegalInstruction { instruction: 0xffff_ffff }))
    );
    assert_eq!(core.hart_state().pc, 0x20);
}

#[test]
fn finish_fetch_hands_on_a_decoded_word() {
    let mut core = ReferenceCore::new(0);
    assert_eq!(core.finish_fetch(Ok(0x0050_0093)), Ok(Some(decode(0x0050_0093, 0).unwrap())));
    assert_eq!(core.hart_state().pc, 0);
}

#[test]
fn finish_fetch_stalls_on_a_busy_bus_and_reports_other_failures() {
    let mut core = ReferenceCore::new(0);
    assert_eq!(core.finish_fetch(Err(BusError::Busy { remaining_cycles: 1 })), Ok(None));
    assert_eq!(core.hart_state().pc, 0);
    assert_eq!(core.last_trap(), None);
    assert_eq!(
        core.finish_fetch(Err(BusError::UnmappedAddress { addr: 0 })),
        Err(CpuError::Bus(BusError::UnmappedAddress { addr: 0 }))
    );
}

fn load_payload() -> ExMemPayload {
    ExMemPayload {
        decoded: decode(0x0200_a183, 0).unwrap(),
        writeback_value: None,
        csr_write: None,
        translation_fence: None,
        memory_address: Some(0x21),
        store_value: 0,
        next_pc: 4,
    }
}

#[test]
fn load_outcome_maps_each_bus_answer() {
    let payload = load_payload();
    match load_outcome(payload, 0x21, Ok(9)) {
        Ok(MemoryEvent::Advance(p)) => assert_eq!(p.writeback_value, Some(9)),
        other => panic!("unexpected {:?}", other),
    }
    assert_eq!(load_outcome(payload, 0x21, Err(BusError::Busy { remaining_cycles: 2 })), Ok(MemoryEvent::Stall(payload)));
    assert_eq!(
        load_outcome(payload, 0x21, Err(BusError::MisalignedAccess { addr: 0x21, width: 4 })),
        Ok(MemoryEvent::Trap(Trap::Exception(Exception::LoadAddressMisaligned { addr: 0x21 })))
    );
    assert_eq!(
        load_outcome(payload, 0x21, Err(BusError::UnmappedAddress { addr: 0x21 })),
        Err(BusError::UnmappedAddress { addr: 0x21 })
    );
}

#[test]
fn store_outcome_maps_each_bus_answer() {
    let payload = load_payload();
    match store_outcome(payload, 0x21, Ok(())) {
        Ok(MemoryEvent::Advance(p)) => assert_eq!(p.writeback_value, None),
        other => panic!("unexpected {:?}", other),
    }
    assert_eq!(
        store_outcome(payload, 0x21, Err(BusError::MisalignedAccess { addr: 0x21, width: 4 })),
        Ok(MemoryEvent::Trap(Trap::Exception(Exception::StoreAddressMisaligned { addr: 0x21 })))
    );
}

fn walk_state(level: u32) -> WalkState {
    WalkState {
        request: TranslationRequest {
            satp: 1 << 31,
            status: 0,
            privilege: PrivilegeMode::Supervisor,
            virtual_address: 0x0040_1234,
            access: MemoryAccess::Load,
        },
        level,
        pte_address: 0x1004,
        phase: WalkPhase::ReadPte,
    }
}

#[test]
fn pte_outcome_faults_on_an_invalid_entry() {
    assert_eq!(pte_outcome(walk_state(1), 0), PteOutcome::Fault);
    assert_eq!(pte_outcome(walk_state(0), PTE_V), PteOutcome::Fault);
}

#[test]
fn pte_outcome_descends_to_the_next_table_entry() {
    let pointer = PTE_V | (0x3 << 10);
    match pte_outcome(walk_state(1), pointer) {
        PteOutcome::Descend(next) => {
            assert_eq!(next.level, 0);
            assert_eq!(next.pte_address, 0x3000 + ((0x0040_1234u32 >> 12) & 0x3ff) * 4);
        },
        other => panic!("unexpected {:?}", other),
    }
}

#[test]
fn map_device_rejects_an_overlapping_range_at_its_start() {
    let mut memory: MemoryMap<MappedDevice> = MemoryMap::new();
    assert!(memory.map_device(MappedDevice::Ram(Ram::new(0x1000, 0x100))).is_ok());
    let err = memory.map_device(MappedDevice::Ram(Ram::new(0x1080, 0x100))).unwrap_err();
    assert_eq!(err, BusError::DeviceFault { addr: 0x1080, message: "device overlaps an existing mapping" });
}

#[test]
fn submit_burst_names_the_first_beat_outside_the_device() {
    let mut memory: MemoryMap<MappedDevice> = MemoryMap::new();
    memory.map_device(MappedDevice::Ram(Ram::new(0x1000, 0x10))).unwrap();
    let err = memory.submit_burst(BurstRequest::read_words(0x1008, 4, AccessKind::Load)).unwrap_err();
    assert_eq!(err, BusError::DeviceFault { addr: 0x1010, message: "burst crosses device boundary" });
    assert!(memory.submit_burst(BurstRequest::read_words(0x1000, 4, AccessKind::Load)).is_ok());
}

#[test]
fn interrupt_set_union_is_commutative_and_idempotent() {
    let a = InterruptSet::from(InterruptLine::MachineTimer);
    let b = InterruptSet::from(InterruptLine::SupervisorSoftware);
    assert_eq!(a.union(b), b.union(a));
    assert_eq!(a.union(a), a);
    assert_eq!(a.union(InterruptSet::empty()), a);
}
