use rvsim::bus::{Addressable, InterruptLine};
use rvsim::devices::machine_software_interrupt::MachineSoftwareInterrupt;

const MSIP_BASE: u64 = 0x5000_0000;

#[test]
fn raises_machine_software_interrupt_when_msip_is_set() {
    let mut device = MachineSoftwareInterrupt::new(MSIP_BASE);

    write_u32(&mut device, MSIP_BASE, 1);

    assert_eq!(read_u32(&mut device, MSIP_BASE), 1);
    assert_eq!(
        device.pending_interrupt(),
        Some(InterruptLine::MachineSoftware)
    );
}

#[test]
fn clears_machine_software_interrupt_when_msip_is_reset() {
    let mut device = MachineSoftwareInterrupt::new(MSIP_BASE);

    write_u32(&mut device, MSIP_BASE, 1);
    write_u32(&mut device, MSIP_BASE, 0);

    assert_eq!(read_u32(&mut device, MSIP_BASE), 0);
    assert_eq!(device.pending_interrupt(), None);
}

fn read_u32(device: &mut MachineSoftwareInterrupt, addr: u64) -> u32 {
    let mut bytes = [0; 4];
    for (offset, byte) in bytes.iter_mut().enumerate() {
        *byte = device
            .load8(addr + offset as u64)
            .expect("msip register read should succeed");
    }
    u32::from_le_bytes(bytes)
}

fn write_u32(device: &mut MachineSoftwareInterrupt, addr: u64, value: u32) {
    for (offset, byte) in value.to_le_bytes().into_iter().enumerate() {
        device
            .store8(addr + offset as u64, byte)
            .expect("msip register write should succeed");
    }
}
