use rvsim::bus::{InterruptLine, InterruptSet};
use rvsim::csr_address::CsrAddress;
use rvsim::csr_file::{
    CsrFile, COUNTEREN_CY, COUNTEREN_IR, COUNTEREN_MASK, MIP_MSIP, MIP_MTIP, MIP_SEIP, MIP_SSIP, MIP_STIP, MSTATUS_MXR,
    MSTATUS_SUM, MSTATUS_TW, SSTATUS_MASK,
};
use rvsim::exception::{Exception, Interrupt, Trap};
use rvsim::privilege::PrivilegeMode;

#[test]
fn syncs_pending_supervisor_and_machine_interrupt_bits_from_interrupt_set() {
    let mut csrs = CsrFile::default();
    csrs.sync_interrupts(
        InterruptSet::from(InterruptLine::SupervisorSoftware)
            .union(InterruptSet::from(InterruptLine::MachineSoftware))
            .union(InterruptSet::from(InterruptLine::SupervisorTimer))
            .union(InterruptSet::from(InterruptLine::MachineTimer))
            .union(InterruptSet::from(InterruptLine::SupervisorExternal))
            .union(InterruptSet::from(InterruptLine::MachineExternal)),
    );

    assert_eq!(
        csrs.read(CsrAddress::Mip),
        (1 << 1) | (1 << 3) | (1 << 5) | (1 << 7) | (1 << 9) | (1 << 11)
    );
}

#[test]
fn prefers_machine_external_interrupt_over_software_and_timer() {
    let mut csrs = CsrFile::default();
    csrs.write(CsrAddress::Mstatus, 1 << 3);
    csrs.write(CsrAddress::Mie, (1 << 3) | (1 << 7) | (1 << 11));
    csrs.sync_interrupts(
        InterruptSet::from(InterruptLine::MachineSoftware)
            .union(InterruptSet::from(InterruptLine::MachineTimer))
            .union(InterruptSet::from(InterruptLine::MachineExternal)),
    );

    assert_eq!(
        csrs.pending_interrupt(PrivilegeMode::Machine),
        Some(Interrupt::MachineExternal)
    );
}

#[test]
fn prefers_machine_software_interrupt_over_machine_timer() {
    let mut csrs = CsrFile::default();
    csrs.write(CsrAddress::Mstatus, 1 << 3);
    csrs.write(CsrAddress::Mie, (1 << 3) | (1 << 7));
    csrs.sync_interrupts(
        InterruptSet::from(InterruptLine::MachineSoftware)
            .union(InterruptSet::from(InterruptLine::MachineTimer)),
    );

    assert_eq!(
        csrs.pending_interrupt(PrivilegeMode::Machine),
        Some(Interrupt::MachineSoftware)
    );
}

#[test]
fn software_pending_bits_survive_sync_without_bus_sources() {
    let mut csrs = CsrFile::default();
    csrs.write(CsrAddress::Mip, MIP_MSIP | MIP_SSIP);
    csrs.sync_interrupts(InterruptSet::empty());

    assert_eq!(
        csrs.read(CsrAddress::Mip) & (MIP_MSIP | MIP_SSIP),
        MIP_MSIP | MIP_SSIP
    );
}

#[test]
fn mip_write_only_controls_modeled_software_pending_bits() {
    let mut csrs = CsrFile::default();
    csrs.sync_interrupts(InterruptSet::from(InterruptLine::MachineTimer));
    csrs.write(CsrAddress::Mip, u32::MAX);

    assert_eq!(
        csrs.read(CsrAddress::Mip),
        MIP_MSIP | MIP_SSIP | MIP_MTIP
    );
}

#[test]
fn sip_write_only_controls_ssip_and_preserves_device_pending_bits() {
    let mut csrs = CsrFile::default();
    csrs.sync_interrupts(
        InterruptSet::from(InterruptLine::SupervisorTimer)
            .union(InterruptSet::from(InterruptLine::SupervisorExternal)),
    );
    csrs.write(CsrAddress::Sip, u32::MAX);

    assert_eq!(
        csrs.read(CsrAddress::Sip),
        MIP_SSIP | MIP_STIP | MIP_SEIP
    );
    assert_eq!(csrs.read(CsrAddress::Mip) & MIP_MSIP, 0);
}

#[test]
fn delegated_supervisor_interrupt_is_pending_in_user_mode() {
    let mut csrs = CsrFile::default();
    csrs.write(CsrAddress::Mideleg, 1 << 9);
    csrs.write(CsrAddress::Sie, 1 << 9);
    csrs.sync_interrupts(InterruptSet::from(InterruptLine::SupervisorExternal));

    assert_eq!(
        csrs.pending_interrupt(PrivilegeMode::User),
        Some(Interrupt::SupervisorExternal)
    );
}

#[test]
fn delegated_supervisor_interrupt_is_masked_in_machine_mode() {
    let mut csrs = CsrFile::default();
    csrs.write(CsrAddress::Mstatus, 1 << 3);
    csrs.write(CsrAddress::Mideleg, 1 << 9);
    csrs.write(CsrAddress::Sie, 1 << 9);
    csrs.sync_interrupts(InterruptSet::from(InterruptLine::SupervisorExternal));

    assert_eq!(csrs.pending_interrupt(PrivilegeMode::Machine), None);
}

#[test]
fn supervisor_mode_requires_sie_for_delegated_supervisor_interrupts() {
    let mut csrs = CsrFile::default();
    csrs.write(CsrAddress::Mideleg, 1 << 1);
    csrs.write(CsrAddress::Sie, 1 << 1);
    csrs.sync_interrupts(InterruptSet::from(InterruptLine::SupervisorSoftware));

    assert_eq!(csrs.pending_interrupt(PrivilegeMode::Supervisor), None);

    csrs.write(CsrAddress::Sstatus, 1 << 1);

    assert_eq!(
        csrs.pending_interrupt(PrivilegeMode::Supervisor),
        Some(Interrupt::SupervisorSoftware)
    );
}

#[test]
fn clearing_software_pending_does_not_clear_bus_driven_interrupt_line() {
    let mut csrs = CsrFile::default();
    csrs.sync_interrupts(InterruptSet::from(InterruptLine::MachineSoftware));
    csrs.write(CsrAddress::Mip, 0);

    assert_eq!(
        csrs.read(CsrAddress::Mip) & MIP_MSIP,
        MIP_MSIP
    );
}

#[test]
fn nondelegated_supervisor_interrupt_still_targets_machine_mode() {
    let mut csrs = CsrFile::default();
    csrs.write(CsrAddress::Mie, 1 << 9);
    csrs.write(CsrAddress::Mtvec, 0x40);

    let (privilege, handler_pc) = csrs.enter_trap(
        Trap::Interrupt(Interrupt::SupervisorExternal),
        0x18,
        PrivilegeMode::User,
    );

    assert_eq!(privilege, PrivilegeMode::Machine);
    assert_eq!(handler_pc, 0x40);
    assert_eq!(csrs.read(CsrAddress::Mcause), (1 << 31) | 9);
    assert_eq!(csrs.read(CsrAddress::Mepc), 0x18);
}

#[test]
fn machine_interrupt_uses_vectored_mtvec_offset() {
    let mut csrs = CsrFile::default();
    csrs.write(CsrAddress::Mtvec, 0x40 | 0b01);

    let (privilege, handler_pc) = csrs.enter_trap(
        Trap::Interrupt(Interrupt::MachineSoftware),
        0x18,
        PrivilegeMode::User,
    );

    assert_eq!(privilege, PrivilegeMode::Machine);
    assert_eq!(handler_pc, 0x40 + (3 * 4));
    assert_eq!(csrs.read(CsrAddress::Mcause), (1 << 31) | 3);
    assert_eq!(csrs.read(CsrAddress::Mepc), 0x18);
}

#[test]
fn delegated_supervisor_interrupt_enters_supervisor_trap_state() {
    let mut csrs = CsrFile::default();
    csrs.write(CsrAddress::Mideleg, 1 << 1);
    csrs.write(CsrAddress::Stvec, 0x80);
    csrs.write(CsrAddress::Sie, 1 << 1);

    let (privilege, handler_pc) = csrs.enter_trap(
        Trap::Interrupt(Interrupt::SupervisorSoftware),
        0x24,
        PrivilegeMode::User,
    );

    assert_eq!(privilege, PrivilegeMode::Supervisor);
    assert_eq!(handler_pc, 0x80);
    assert_eq!(csrs.read(CsrAddress::Sepc), 0x24);
    assert_eq!(csrs.read(CsrAddress::Scause), (1 << 31) | 1);
    assert_eq!(csrs.read(CsrAddress::Stval), 0);
    assert_eq!(csrs.read(CsrAddress::Sstatus) & (1 << 5), 0);
}

#[test]
fn delegated_supervisor_interrupt_uses_vectored_stvec_offset() {
    let mut csrs = CsrFile::default();
    csrs.write(CsrAddress::Mideleg, 1 << 9);
    csrs.write(CsrAddress::Stvec, 0x80 | 0b01);
    csrs.write(CsrAddress::Sie, 1 << 9);

    let (privilege, handler_pc) = csrs.enter_trap(
        Trap::Interrupt(Interrupt::SupervisorExternal),
        0x24,
        PrivilegeMode::User,
    );

    assert_eq!(privilege, PrivilegeMode::Supervisor);
    assert_eq!(handler_pc, 0x80 + (9 * 4));
    assert_eq!(csrs.read(CsrAddress::Scause), (1 << 31) | 9);
    assert_eq!(csrs.read(CsrAddress::Sepc), 0x24);
}

#[test]
fn delegated_user_ecall_enters_supervisor_trap_state() {
    let mut csrs = CsrFile::default();
    csrs.write(CsrAddress::Medeleg, 1 << 8);
    csrs.write(CsrAddress::Stvec, 0x80);
    csrs.write(CsrAddress::Sstatus, 1 << 1);

    let (privilege, handler_pc) = csrs.enter_trap(
        Trap::Exception(Exception::EnvironmentCallFromUMode),
        0x24,
        PrivilegeMode::User,
    );

    assert_eq!(privilege, PrivilegeMode::Supervisor);
    assert_eq!(handler_pc, 0x80);
    assert_eq!(csrs.read(CsrAddress::Sepc), 0x24);
    assert_eq!(csrs.read(CsrAddress::Scause), 8);
    assert_eq!(csrs.read(CsrAddress::Stval), 0);
    assert_eq!(csrs.read(CsrAddress::Sstatus) & (1 << 5), 1 << 5);
    assert_eq!(csrs.read(CsrAddress::Sstatus) & (1 << 1), 0);
}

#[test]
fn supervisor_return_restores_user_mode_and_sepc() {
    let mut csrs = CsrFile::default();
    csrs.write(CsrAddress::Sepc, 0x44);
    csrs.write(CsrAddress::Sstatus, 1 << 5);

    let (privilege, pc) = csrs.return_from_supervisor_trap();

    assert_eq!(privilege, PrivilegeMode::User);
    assert_eq!(pc, 0x44);
    assert_eq!(csrs.read(CsrAddress::Sstatus) & (1 << 1), 1 << 1);
    assert_eq!(csrs.read(CsrAddress::Sstatus) & (1 << 8), 0);
}

#[test]
fn sstatus_is_a_masked_view_of_mstatus() {
    let mut csrs = CsrFile::default();
    csrs.write(CsrAddress::Mstatus, 0xffff_ffff);
    csrs.write(CsrAddress::Sstatus, 0);

    assert_eq!(csrs.read(CsrAddress::Sstatus), 0);
    assert_eq!(
        csrs.read(CsrAddress::Mstatus) & !SSTATUS_MASK,
        !SSTATUS_MASK
    );
}

#[test]
fn sstatus_exposes_sum_and_mxr_bits() {
    let mut csrs = CsrFile::default();
    csrs.write(CsrAddress::Sstatus, MSTATUS_SUM | MSTATUS_MXR);

    assert_eq!(
        csrs.read(CsrAddress::Sstatus),
        MSTATUS_SUM | MSTATUS_MXR
    );
    assert_eq!(
        csrs.read(CsrAddress::Mstatus) & (MSTATUS_SUM | MSTATUS_MXR),
        MSTATUS_SUM | MSTATUS_MXR
    );
}

#[test]
fn tw_enabled_reflects_mstatus_without_leaking_into_sstatus() {
    let mut csrs = CsrFile::default();
    assert!(!csrs.tw_enabled());

    csrs.write(CsrAddress::Mstatus, MSTATUS_TW);

    assert!(csrs.tw_enabled());
    assert_eq!(csrs.read(CsrAddress::Sstatus) & MSTATUS_TW, 0);
}

#[test]
fn supervisor_counter_access_requires_mcounteren() {
    let mut csrs = CsrFile::default();

    assert!(!csrs.allows_csr_access(PrivilegeMode::Supervisor, CsrAddress::Cycleh));

    csrs.write(CsrAddress::Mcounteren, COUNTEREN_CY);

    assert!(csrs.allows_csr_access(PrivilegeMode::Supervisor, CsrAddress::Cycleh));
}

#[test]
fn user_counter_access_requires_machine_and_supervisor_counteren() {
    let mut csrs = CsrFile::default();

    csrs.write(CsrAddress::Mcounteren, COUNTEREN_IR);
    assert!(!csrs.allows_csr_access(PrivilegeMode::User, CsrAddress::Instreth));

    csrs.write(CsrAddress::Scounteren, COUNTEREN_IR);
    assert!(csrs.allows_csr_access(PrivilegeMode::User, CsrAddress::Instreth));
}

#[test]
fn counter_shadows_reflect_both_halves_and_time_follows_cycle_domain() {
    let mut csrs = CsrFile::default();
    csrs.write(CsrAddress::Mcycle, 7);
    csrs.write(CsrAddress::Mcycleh, 1);
    csrs.write(CsrAddress::Minstret, 3);
    csrs.write(CsrAddress::Minstreth, 2);

    assert_eq!(csrs.read(CsrAddress::Cycle), 7);
    assert_eq!(csrs.read(CsrAddress::Time), 7);
    assert_eq!(csrs.read(CsrAddress::Cycleh), 1);
    assert_eq!(csrs.read(CsrAddress::Timeh), 1);
    assert_eq!(csrs.read(CsrAddress::Instret), 3);
    assert_eq!(csrs.read(CsrAddress::Instreth), 2);
}

#[test]
fn counter_high_halves_preserve_other_half_on_write_and_increment_carries() {
    let mut csrs = CsrFile::default();
    csrs.write(CsrAddress::Mcycleh, 4);
    csrs.write(CsrAddress::Mcycle, u32::MAX);
    csrs.write(CsrAddress::Minstreth, 7);
    csrs.write(CsrAddress::Minstret, u32::MAX);

    csrs.increment_cycle();
    csrs.increment_instret(2);

    assert_eq!(csrs.read(CsrAddress::Mcycle), 0);
    assert_eq!(csrs.read(CsrAddress::Mcycleh), 5);
    assert_eq!(csrs.read(CsrAddress::Time), 0);
    assert_eq!(csrs.read(CsrAddress::Timeh), 5);
    assert_eq!(csrs.read(CsrAddress::Minstret), 1);
    assert_eq!(csrs.read(CsrAddress::Minstreth), 8);
}

#[test]
fn counteren_writes_are_masked_to_modeled_bits() {
    let mut csrs = CsrFile::default();
    csrs.write(CsrAddress::Mcounteren, u32::MAX);
    csrs.write(CsrAddress::Scounteren, u32::MAX);

    assert_eq!(csrs.read(CsrAddress::Mcounteren), COUNTEREN_MASK);
    assert_eq!(csrs.read(CsrAddress::Scounteren), COUNTEREN_MASK);
}
