use rvsim::bus::{Addressable, InterruptLine};
use rvsim::devices::supervisor_software_interrupt::SupervisorSoftwareInterrupt;

const SSIP_BASE: u64 = 0x6000_0000;

#[test]
fn raises_supervisor_software_interrupt_when_ssip_is_set() {
    let mut device = SupervisorSoftwareInterrupt::new(SSIP_BASE);

    write_u32(&mut device, SSIP_BASE, 1);

    assert_eq!(read_u32(&mut device, SSIP_BASE), 1);
    assert_eq!(
        device.pending_interrupt(),
        Some(InterruptLine::SupervisorSoftware)
    );
}

#[test]
fn clears_supervisor_software_interrupt_when_ssip_is_reset() {
    let mut device = SupervisorSoftwareInterrupt::new(SSIP_BASE);

    write_u32(&mut device, SSIP_BASE, 1);
    write_u32(&mut device, SSIP_BASE, 0);

    assert_eq!(read_u32(&mut device, SSIP_BASE), 0);
    assert_eq!(device.pending_interrupt(), None);
}

fn read_u32(device: &mut SupervisorSoftwareInterrupt, addr: u64) -> u32 {
    let mut bytes = [0; 4];
    for (offset, byte) in bytes.iter_mut().enumerate() {
        *byte = device
            .load8(addr + offset as u64)
            .expect("ssip register read should succeed");
    }
    u32::from_le_bytes(bytes)
}

fn write_u32(device: &mut SupervisorSoftwareInterrupt, addr: u64, value: u32) {
    for (offset, byte) in value.to_le_bytes().into_iter().enumerate() {
        device
            .store8(addr + offset as u64, byte)
            .expect("ssip register write should succeed");
    }
}
