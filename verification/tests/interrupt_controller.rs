use rvsim::bus::{Addressable, BusError, InterruptLine};
use rvsim::devices::interrupt_controller::InterruptController;

const CONTROLLER_BASE: u64 = 0x4000_0000;

#[test]
fn raises_machine_external_interrupt_when_enabled_pending_source_exists() {
    let mut controller = InterruptController::new(CONTROLLER_BASE);

    write_u32(&mut controller, CONTROLLER_BASE + 4, 0b0010);
    write_u32(&mut controller, CONTROLLER_BASE + 8, 0b0010);

    assert_eq!(read_u32(&mut controller, CONTROLLER_BASE), 0b0010);
    assert_eq!(
        controller.pending_interrupt(),
        Some(InterruptLine::MachineExternal)
    );
}

#[test]
fn claim_register_selects_highest_priority_pending_source() {
    let mut controller = InterruptController::new(CONTROLLER_BASE);

    write_u32(&mut controller, CONTROLLER_BASE + 4, 0b0101);
    write_u32(&mut controller, CONTROLLER_BASE + 8, 0b0101);

    assert_eq!(read_u32(&mut controller, CONTROLLER_BASE + 12), 1);
    assert_eq!(read_u32(&mut controller, CONTROLLER_BASE), 0b0100);
    assert_eq!(
        controller.pending_interrupt(),
        Some(InterruptLine::MachineExternal)
    );

    assert_eq!(read_u32(&mut controller, CONTROLLER_BASE + 12), 3);
    assert_eq!(read_u32(&mut controller, CONTROLLER_BASE), 0);
    assert_eq!(controller.pending_interrupt(), None);
}

#[test]
fn completion_allows_source_to_be_raised_again() {
    let mut controller = InterruptController::new(CONTROLLER_BASE);

    write_u32(&mut controller, CONTROLLER_BASE + 4, 0b0001);
    write_u32(&mut controller, CONTROLLER_BASE + 8, 0b0001);

    assert_eq!(read_u32(&mut controller, CONTROLLER_BASE + 12), 1);
    assert_eq!(controller.pending_interrupt(), None);

    write_u32(&mut controller, CONTROLLER_BASE + 8, 0b0001);
    assert_eq!(controller.pending_interrupt(), None);

    write_u32(&mut controller, CONTROLLER_BASE + 12, 1);
    write_u32(&mut controller, CONTROLLER_BASE + 8, 0b0001);
    assert_eq!(
        controller.pending_interrupt(),
        Some(InterruptLine::MachineExternal)
    );
}

#[test]
fn route_register_can_raise_supervisor_external_interrupts() {
    let mut controller = InterruptController::new(CONTROLLER_BASE);

    write_u32(&mut controller, CONTROLLER_BASE + 4, 0b0001);
    write_u32(&mut controller, CONTROLLER_BASE + 16, 1);
    write_u32(&mut controller, CONTROLLER_BASE + 8, 0b0001);

    assert_eq!(read_u32(&mut controller, CONTROLLER_BASE + 16), 1);
    assert_eq!(
        controller.pending_interrupt(),
        Some(InterruptLine::SupervisorExternal)
    );
}

#[test]
fn route_register_masks_reserved_bits() {
    let mut controller = InterruptController::new(CONTROLLER_BASE);

    write_u32(&mut controller, CONTROLLER_BASE + 16, u32::MAX);

    assert_eq!(read_u32(&mut controller, CONTROLLER_BASE + 16), 1);
}

#[test]
fn rejects_direct_writes_to_pending_register() {
    let mut controller = InterruptController::new(CONTROLLER_BASE);

    let error = controller
        .store8(CONTROLLER_BASE, 1)
        .expect_err("pending register should be read-only");
    assert_eq!(
        error,
        BusError::ReadOnlyAddress {
            addr: CONTROLLER_BASE
        }
    );
}

fn read_u32(controller: &mut InterruptController, addr: u64) -> u32 {
    let mut bytes = [0; 4];
    for (offset, byte) in bytes.iter_mut().enumerate() {
        *byte = controller
            .load8(addr + offset as u64)
            .expect("controller register read should succeed");
    }
    u32::from_le_bytes(bytes)
}

fn write_u32(controller: &mut InterruptController, addr: u64, value: u32) {
    for (offset, byte) in value.to_le_bytes().into_iter().enumerate() {
        controller
            .store8(addr + offset as u64, byte)
            .expect("controller register write should succeed");
    }
}
