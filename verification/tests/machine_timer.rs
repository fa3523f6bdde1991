use rvsim::bus::{Addressable, InterruptLine};
use rvsim::devices::machine_timer::MachineTimer;

const TIMER_BASE: u64 = 0x3000_0000;

#[test]
fn ticks_until_compare_and_raises_machine_timer_interrupt() {
    let mut timer = MachineTimer::new(TIMER_BASE);

    write_u32(&mut timer, TIMER_BASE + 8, 3);
    write_u32(&mut timer, TIMER_BASE + 12, 0);

    assert_eq!(read_u32(&mut timer, TIMER_BASE), 0);
    assert_eq!(timer.pending_interrupt(), None);

    timer.tick();
    timer.tick();

    assert_eq!(read_u32(&mut timer, TIMER_BASE), 2);
    assert_eq!(timer.pending_interrupt(), None);

    timer.tick();

    assert_eq!(read_u32(&mut timer, TIMER_BASE), 3);
    assert_eq!(timer.pending_interrupt(), Some(InterruptLine::MachineTimer));
}

#[test]
fn reset_restores_counter_and_disarms_compare() {
    let mut timer = MachineTimer::new(TIMER_BASE);

    write_u32(&mut timer, TIMER_BASE + 8, 1);
    write_u32(&mut timer, TIMER_BASE + 12, 0);
    timer.tick();
    assert_eq!(timer.pending_interrupt(), Some(InterruptLine::MachineTimer));

    timer.reset();

    assert_eq!(read_u32(&mut timer, TIMER_BASE), 0);
    assert_eq!(read_u32(&mut timer, TIMER_BASE + 4), 0);
    assert_eq!(read_u32(&mut timer, TIMER_BASE + 8), u32::MAX);
    assert_eq!(read_u32(&mut timer, TIMER_BASE + 12), u32::MAX);
    assert_eq!(timer.pending_interrupt(), None);
}

#[test]
fn exposes_current_mtime_as_machine_time_source() {
    let mut timer = MachineTimer::new(TIMER_BASE);

    assert_eq!(timer.machine_time(), Some(0));

    write_u32(&mut timer, TIMER_BASE, 0x1234_5678);
    write_u32(&mut timer, TIMER_BASE + 4, 1);

    assert_eq!(timer.machine_time(), Some(0x0000_0001_1234_5678));

    timer.tick();

    assert_eq!(timer.machine_time(), Some(0x0000_0001_1234_5679));
    assert_eq!(timer.mtime(), 0x0000_0001_1234_5679);
}

fn read_u32(timer: &mut MachineTimer, addr: u64) -> u32 {
    let mut bytes = [0; 4];
    for (offset, byte) in bytes.iter_mut().enumerate() {
        *byte = timer
            .load8(addr + offset as u64)
            .expect("timer register read should succeed");
    }
    u32::from_le_bytes(bytes)
}

fn write_u32(timer: &mut MachineTimer, addr: u64, value: u32) {
    for (offset, byte) in value.to_le_bytes().into_iter().enumerate() {
        timer
            .store8(addr + offset as u64, byte)
            .expect("timer register write should succeed");
    }
}
