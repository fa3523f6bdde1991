//! Machine and supervisor control/status registers, interrupt selection, and
//! trap entry and return.

use vstd::prelude::*;
use crate::bus::{InterruptLine, InterruptSet};
use crate::csr_address::CsrAddress;
use crate::exception::{Interrupt, Trap, interrupt_code, interrupt_is_supervisor, trap_cause_bits, trap_code, trap_value};
use crate::privilege::PrivilegeMode;

verus! {

pub const MSTATUS_SIE: u32 = 0x2;
pub const MSTATUS_MIE: u32 = 0x8;
pub const MSTATUS_SPIE: u32 = 0x20;
pub const MSTATUS_MPIE: u32 = 0x80;
pub const MSTATUS_SPP: u32 = 0x100;
pub const MSTATUS_MPP_SHIFT: u32 = 11;
pub const MSTATUS_MPP_MASK: u32 = 0x1800;
pub const MSTATUS_MPRV: u32 = 0x2_0000;
pub const MSTATUS_SUM: u32 = 0x4_0000;
pub const MSTATUS_MXR: u32 = 0x8_0000;
pub const MSTATUS_TVM: u32 = 0x10_0000;
pub const MSTATUS_TW: u32 = 0x20_0000;
pub const MSTATUS_TSR: u32 = 0x40_0000;
/// The `mstatus` bits visible through `sstatus`: SIE, SPIE, SPP, SUM and MXR.
pub const SSTATUS_MASK: u32 = 0xc_0122;
pub const MIE_SSIE: u32 = 0x2;
pub const MIE_MSIE: u32 = 0x8;
pub const MIE_STIE: u32 = 0x20;
pub const MIE_MTIE: u32 = 0x80;
pub const MIE_SEIE: u32 = 0x200;
pub const MIE_MEIE: u32 = 0x800;
/// The `mie` bits visible through `sie`.
pub const SIE_MASK: u32 = 0x222;
pub const MIP_SSIP: u32 = 0x2;
pub const MIP_MSIP: u32 = 0x8;
pub const MIP_STIP: u32 = 0x20;
pub const MIP_MTIP: u32 = 0x80;
pub const MIP_SEIP: u32 = 0x200;
pub const MIP_MEIP: u32 = 0x800;
/// The `mip` bits visible through `sip`.
pub const SIP_MASK: u32 = 0x222;
/// Every modeled pending bit.
pub const MANAGED_INTERRUPT_MASK: u32 = 0xaaa;
/// The software-pending bits that `mip` writes control.
pub const MIP_WRITABLE_MASK: u32 = 0xa;
/// The software-pending bit that `sip` writes control.
pub const SIP_WRITABLE_MASK: u32 = 0x2;
/// The interrupts that may be delegated to supervisor mode.
pub const MIDELEG_MASK: u32 = 0x222;
pub const COUNTEREN_CY: u32 = 0x1;
pub const COUNTEREN_TM: u32 = 0x2;
pub const COUNTEREN_IR: u32 = 0x4;
pub const COUNTEREN_MASK: u32 = 0x7;

/// Machine-mode CSR values.
#[derive(Debug, Clone, Copy, PartialEq, Eq, Structural)]
pub struct MachineCsrs {
    pub mstatus: u32,
    pub medeleg: u32,
    pub mideleg: u32,
    pub mie: u32,
    pub mtvec: u32,
    pub mcounteren: u32,
    pub mcycle: u64,
    pub minstret: u64,
    pub mepc: u32,
    pub mcause: u32,
    pub mtval: u32,
    pub mip: u32,
}

/// Supervisor-visible trap and address-translation state.
#[derive(Debug, Clone, Copy, PartialEq, Eq, Structural)]
pub struct SupervisorCsrs {
    pub stvec: u32,
    pub scounteren: u32,
    pub sepc: u32,
    pub scause: u32,
    pub stval: u32,
    pub satp: u32,
}

impl Default for MachineCsrs {
    fn default() -> (r: Self)
        ensures
            r == zero_machine_csrs(),
    {
        MachineCsrs {
            mstatus: 0,
            medeleg: 0,
            mideleg: 0,
            mie: 0,
            mtvec: 0,
            mcounteren: 0,
            mcycle: 0,
            minstret: 0,
            mepc: 0,
            mcause: 0,
            mtval: 0,
            mip: 0,
        }
    }
}

impl Default for SupervisorCsrs {
    fn default() -> (r: Self)
        ensures
            r == zero_supervisor_csrs(),
    {
        SupervisorCsrs { stvec: 0, scounteren: 0, sepc: 0, scause: 0, stval: 0, satp: 0 }
    }
}

/// Every machine CSR zero.
pub open spec fn zero_machine_csrs() -> MachineCsrs {
    MachineCsrs {
        mstatus: 0,
        medeleg: 0,
        mideleg: 0,
        mie: 0,
        mtvec: 0,
        mcounteren: 0,
        mcycle: 0,
        minstret: 0,
        mepc: 0,
        mcause: 0,
        mtval: 0,
        mip: 0,
    }
}

/// Every supervisor CSR zero.
pub open spec fn zero_supervisor_csrs() -> SupervisorCsrs {
    SupervisorCsrs { stvec: 0, scounteren: 0, sepc: 0, scause: 0, stval: 0, satp: 0 }
}

/// The abstract content of a CSR file: the architectural registers plus the
/// software-written and device-driven pending interrupt bits.
#[derive(Debug, Clone, Copy, PartialEq, Eq, Structural)]
pub struct CsrModel {
    pub machine: MachineCsrs,
    pub supervisor: SupervisorCsrs,
    pub software_pending: u32,
    pub external_pending: u32,
}

/// The low 32 bits of a counter.
pub open spec fn low_half(value: u64) -> u32 {
    (value & 0xffff_ffff) as u32
}

/// The high 32 bits of a counter.
pub open spec fn high_half(value: u64) -> u32 {
    (value >> 32) as u32
}

/// A counter with its low half replaced.
pub open spec fn with_low_half(target: u64, value: u32) -> u64 {
    (target & 0xffff_ffff_0000_0000) | (value as u64)
}

/// A counter with its high half replaced.
pub open spec fn with_high_half(target: u64, value: u32) -> u64 {
    ((value as u64) << 32) | (target & 0xffff_ffff)
}

/// `value` with the bits of `mask` set or cleared.
pub open spec fn with_flag(value: u32, mask: u32, enabled: bool) -> u32 {
    if enabled { value | mask } else { value & !mask }
}

/// The `mip` bit of an interrupt.
pub open spec fn pending_mask(i: Interrupt) -> u32 {
    match i {
        Interrupt::SupervisorSoftware => MIP_SSIP,
        Interrupt::MachineSoftware => MIP_MSIP,
        Interrupt::SupervisorTimer => MIP_STIP,
        Interrupt::MachineTimer => MIP_MTIP,
        Interrupt::SupervisorExternal => MIP_SEIP,
        Interrupt::MachineExternal => MIP_MEIP,
    }
}

/// The `mie` bit of an interrupt.
pub open spec fn enable_mask(i: Interrupt) -> u32 {
    match i {
        Interrupt::SupervisorSoftware => MIE_SSIE,
        Interrupt::MachineSoftware => MIE_MSIE,
        Interrupt::SupervisorTimer => MIE_STIE,
        Interrupt::MachineTimer => MIE_MTIE,
        Interrupt::SupervisorExternal => MIE_SEIE,
        Interrupt::MachineExternal => MIE_MEIE,
    }
}

/// The MPP field value recording a privilege.
pub open spec fn privilege_bits(p: PrivilegeMode) -> u32 {
    match p {
        PrivilegeMode::User => 0,
        PrivilegeMode::Supervisor => 0x800,
        PrivilegeMode::Machine => 0x1800,
    }
}

/// The privilege encoded by a two-bit MPP value (2 is reserved and read as machine).
pub open spec fn privilege_from_bits(bits: u32) -> PrivilegeMode {
    if bits == 0 {
        PrivilegeMode::User
    } else if bits == 1 {
        PrivilegeMode::Supervisor
    } else {
        PrivilegeMode::Machine
    }
}

/// The handler address for a trap: the vector base, plus four times the cause
/// code for interrupts when the vector is in vectored mode.
pub open spec fn trap_vector(tvec: u32, trap: Trap) -> u32 {
    let base = tvec & !3u32;
    if trap is Interrupt && tvec & 3 == 1 {
        vstd::wrapping::u32_specs::wrapping_add(base, (4 * trap_code(trap)) as u32)
    } else {
        base
    }
}

impl CsrModel {
    /// The register file after reset: every register zero.
    pub open spec fn zero() -> CsrModel {
        CsrModel {
            machine: zero_machine_csrs(),
            supervisor: zero_supervisor_csrs(),
            software_pending: 0,
            external_pending: 0,
        }
    }

    /// `mip` recomputed from the software-written and device-driven pending bits.
    pub open spec fn refreshed_mip(self, software_pending: u32, external_pending: u32) -> u32 {
        (self.machine.mip & !MANAGED_INTERRUPT_MASK) | (software_pending & MIP_WRITABLE_MASK) | (
        external_pending & MANAGED_INTERRUPT_MASK)
    }

    /// The value a CSR read returns.
    pub open spec fn read(self, a: CsrAddress) -> u32 {
        let m = self.machine;
        let s = self.supervisor;
        match a {
            CsrAddress::Sstatus => m.mstatus & SSTATUS_MASK,
            CsrAddress::Sie => m.mie & SIE_MASK,
            CsrAddress::Stvec => s.stvec,
            CsrAddress::Scounteren => s.scounteren,
            CsrAddress::Satp => s.satp,
            CsrAddress::Mstatus => m.mstatus,
            CsrAddress::Medeleg => m.medeleg,
            CsrAddress::Mideleg => m.mideleg,
            CsrAddress::Mie => m.mie,
            CsrAddress::Mtvec => m.mtvec,
            CsrAddress::Mcounteren => m.mcounteren,
            CsrAddress::Mcycle => low_half(m.mcycle),
            CsrAddress::Minstret => low_half(m.minstret),
            CsrAddress::Mcycleh => high_half(m.mcycle),
            CsrAddress::Minstreth => high_half(m.minstret),
            CsrAddress::Cycle | CsrAddress::Time => low_half(m.mcycle),
            CsrAddress::Instret => low_half(m.minstret),
            CsrAddress::Cycleh | CsrAddress::Timeh => high_half(m.mcycle),
            CsrAddress::Instreth => high_half(m.minstret),
            CsrAddress::Sepc => s.sepc,
            CsrAddress::Scause => s.scause,
            CsrAddress::Stval => s.stval,
            CsrAddress::Sip => m.mip & SIP_MASK,
            CsrAddress::Mepc => m.mepc,
            CsrAddress::Mcause => m.mcause,
            CsrAddress::Mtval => m.mtval,
            CsrAddress::Mip => m.mip,
        }
    }

    /// The register file after a CSR write.
    pub open spec fn write(self, a: CsrAddress, v: u32) -> CsrModel {
        let m = self.machine;
        let s = self.supervisor;
        match a {
            CsrAddress::Sstatus => CsrModel {
                machine: MachineCsrs { mstatus: (m.mstatus & !SSTATUS_MASK) | (v & SSTATUS_MASK), ..m },
                ..self
            },
            CsrAddress::Sie => CsrModel {
                machine: MachineCsrs { mie: (m.mie & !SIE_MASK) | (v & SIE_MASK), ..m },
                ..self
            },
            CsrAddress::Stvec => CsrModel { supervisor: SupervisorCsrs { stvec: v, ..s }, ..self },
            CsrAddress::Scounteren => CsrModel {
                supervisor: SupervisorCsrs { scounteren: v & COUNTEREN_MASK, ..s },
                ..self
            },
            CsrAddress::Satp => CsrModel { supervisor: SupervisorCsrs { satp: v, ..s }, ..self },
            CsrAddress::Mstatus => CsrModel { machine: MachineCsrs { mstatus: v, ..m }, ..self },
            CsrAddress::Medeleg => CsrModel { machine: MachineCsrs { medeleg: v, ..m }, ..self },
            CsrAddress::Mideleg => CsrModel {
                machine: MachineCsrs { mideleg: v & MIDELEG_MASK, ..m },
                ..self
            },
            CsrAddress::Mie => CsrModel { machine: MachineCsrs { mie: v, ..m }, ..self },
            CsrAddress::Mtvec => CsrModel { machine: MachineCsrs { mtvec: v, ..m }, ..self },
            CsrAddress::Mcounteren => CsrModel {
                machine: MachineCsrs { mcounteren: v & COUNTEREN_MASK, ..m },
                ..self
            },
            CsrAddress::Mcycle | CsrAddress::Cycle | CsrAddress::Time => CsrModel {
                machine: MachineCsrs { mcycle: with_low_half(m.mcycle, v), ..m },
                ..self
            },
            CsrAddress::Minstret | CsrAddress::Instret => CsrModel {
                machine: MachineCsrs { minstret: with_low_half(m.minstret, v), ..m },
                ..self
            },
            CsrAddress::Mcycleh | CsrAddress::Cycleh | CsrAddress::Timeh => CsrModel {
                machine: MachineCsrs { mcycle: with_high_half(m.mcycle, v), ..m },
                ..self
            },
            CsrAddress::Minstreth | CsrAddress::Instreth => CsrModel {
                machine: MachineCsrs { minstret: with_high_half(m.minstret, v), ..m },
                ..self
            },
            CsrAddress::Sepc => CsrModel { supervisor: SupervisorCsrs { sepc: v, ..s }, ..self },
            CsrAddress::Scause => CsrModel { supervisor: SupervisorCsrs { scause: v, ..s }, ..self },
            CsrAddress::Stval => CsrModel { supervisor: SupervisorCsrs { stval: v, ..s }, ..self },
            CsrAddress::Sip => {
                let sp = (self.software_pending & !SIP_WRITABLE_MASK) | (v & SIP_WRITABLE_MASK);
                CsrModel {
                    machine: MachineCsrs { mip: self.refreshed_mip(sp, self.external_pending), ..m },
                    software_pending: sp,
                    ..self
                }
            },
            CsrAddress::Mepc => CsrModel { machine: MachineCsrs { mepc: v, ..m }, ..self },
            CsrAddress::Mcause => CsrModel { machine: MachineCsrs { mcause: v, ..m }, ..self },
            CsrAddress::Mtval => CsrModel { machine: MachineCsrs { mtval: v, ..m }, ..self },
            CsrAddress::Mip => {
                let sp = (self.software_pending & !MIP_WRITABLE_MASK) | (v & MIP_WRITABLE_MASK);
                CsrModel {
                    machine: MachineCsrs { mip: self.refreshed_mip(sp, self.external_pending), ..m },
                    software_pending: sp,
                    ..self
                }
            },
        }
    }

    /// The device-driven pending bits corresponding to a set of asserted lines.
    pub open spec fn external_bits(set: InterruptSet) -> u32 {
        (if set.has(InterruptLine::SupervisorSoftware) { MIP_SSIP } else { 0 }) | (if set.has(
            InterruptLine::MachineExternal,
        ) { MIP_MEIP } else { 0 }) | (if set.has(InterruptLine::MachineSoftware) { MIP_MSIP } else {
            0
        }) | (if set.has(InterruptLine::SupervisorTimer) { MIP_STIP } else { 0 }) | (if set.has(
            InterruptLine::MachineTimer,
        ) { MIP_MTIP } else { 0 }) | (if set.has(InterruptLine::SupervisorExternal) { MIP_SEIP } else {
            0
        })
    }

    /// The register file after the bus's asserted lines are latched into `mip`.
    pub open spec fn synced(self, set: InterruptSet) -> CsrModel {
        let ep = CsrModel::external_bits(set);
        CsrModel {
            machine: MachineCsrs { mip: self.refreshed_mip(self.software_pending, ep), ..self.machine },
            external_pending: ep,
            ..self
        }
    }

    /// Whether an interrupt is delegated to supervisor mode by `mideleg`.
    pub open spec fn delegates_interrupt(self, i: Interrupt) -> bool {
        interrupt_is_supervisor(i) && self.machine.mideleg & (1u32 << interrupt_code(i)) != 0
    }

    /// The privilege that handles an interrupt taken at `cur`, or `None` when a
    /// delegated interrupt arrives in machine mode (it is masked there).
    pub open spec fn interrupt_target(self, i: Interrupt, cur: PrivilegeMode) -> Option<PrivilegeMode> {
        if self.delegates_interrupt(i) {
            if cur == PrivilegeMode::Machine { None } else { Some(PrivilegeMode::Supervisor) }
        } else {
            Some(PrivilegeMode::Machine)
        }
    }

    /// Whether interrupts for `target` are globally enabled while running at `cur`.
    pub open spec fn globally_enabled(self, target: PrivilegeMode, cur: PrivilegeMode) -> bool {
        match target {
            PrivilegeMode::Machine => cur != PrivilegeMode::Machine || self.machine.mstatus
                & MSTATUS_MIE != 0,
            PrivilegeMode::Supervisor => cur == PrivilegeMode::User || (cur
                == PrivilegeMode::Supervisor && self.machine.mstatus & MSTATUS_SIE != 0),
            PrivilegeMode::User => false,
        }
    }

    /// Whether an interrupt is pending, enabled, and may be taken at `cur`.
    pub open spec fn takeable(self, i: Interrupt, cur: PrivilegeMode) -> bool {
        &&& self.machine.mip & pending_mask(i) != 0
        &&& self.machine.mie & enable_mask(i) != 0
        &&& match self.interrupt_target(i, cur) {
            Some(t) => self.globally_enabled(t, cur),
            None => false,
        }
    }

    /// The takeable interrupt of highest priority: machine external, software,
    /// timer, then supervisor external, software, timer.
    pub open spec fn pending_interrupt(self, cur: PrivilegeMode) -> Option<Interrupt> {
        if self.takeable(Interrupt::MachineExternal, cur) {
            Some(Interrupt::MachineExternal)
        } else if self.takeable(Interrupt::MachineSoftware, cur) {
            Some(Interrupt::MachineSoftware)
        } else if self.takeable(Interrupt::MachineTimer, cur) {
            Some(Interrupt::MachineTimer)
        } else if self.takeable(Interrupt::SupervisorExternal, cur) {
            Some(Interrupt::SupervisorExternal)
        } else if self.takeable(Interrupt::SupervisorSoftware, cur) {
            Some(Interrupt::SupervisorSoftware)
        } else if self.takeable(Interrupt::SupervisorTimer, cur) {
            Some(Interrupt::SupervisorTimer)
        } else {
            None
        }
    }

    /// Whether a trap taken at `cur` is handled in supervisor mode.
    pub open spec fn delegates_trap(self, trap: Trap, cur: PrivilegeMode) -> bool {
        cur != PrivilegeMode::Machine && match trap {
            Trap::Exception(_) => self.machine.medeleg & (1u32 << trap_code(trap)) != 0,
            Trap::Interrupt(i) => self.delegates_interrupt(i),
        }
    }

    /// The register file after trap entry into machine mode.
    pub open spec fn machine_trap_entered(self, trap: Trap, pc: u32, cur: PrivilegeMode) -> CsrModel {
        let ms = self.machine.mstatus;
        let ms1 = with_flag(ms, MSTATUS_MPIE, ms & MSTATUS_MIE != 0);
        let ms2 = ms1 & !MSTATUS_MIE;
        let ms3 = (ms2 & !MSTATUS_MPP_MASK) | privilege_bits(cur);
        CsrModel {
            machine: MachineCsrs {
                mepc: pc,
                mcause: trap_cause_bits(trap),
                mtval: trap_value(trap),
                mstatus: ms3,
                ..self.machine
            },
            ..self
        }
    }

    /// The register file after trap entry into supervisor mode.
    pub open spec fn supervisor_trap_entered(self, trap: Trap, pc: u32, cur: PrivilegeMode) -> CsrModel {
        let ms = self.machine.mstatus;
        let ms1 = with_flag(ms, MSTATUS_SPIE, ms & MSTATUS_SIE != 0);
        let ms2 = ms1 & !MSTATUS_SIE;
        let ms3 = with_flag(ms2, MSTATUS_SPP, cur == PrivilegeMode::Supervisor);
        CsrModel {
            machine: MachineCsrs { mstatus: ms3, ..self.machine },
            supervisor: SupervisorCsrs {
                sepc: pc,
                scause: trap_cause_bits(trap),
                stval: trap_value(trap),
                ..self.supervisor
            },
            ..self
        }
    }

    /// Trap entry: the new register file, the handler's privilege, and the handler address.
    pub open spec fn trap_entered(self, trap: Trap, pc: u32, cur: PrivilegeMode) -> (CsrModel, PrivilegeMode, u32) {
        if self.delegates_trap(trap, cur) {
            (
                self.supervisor_trap_entered(trap, pc, cur),
                PrivilegeMode::Supervisor,
                trap_vector(self.supervisor.stvec, trap),
            )
        } else {
            (
                self.machine_trap_entered(trap, pc, cur),
                PrivilegeMode::Machine,
                trap_vector(self.machine.mtvec, trap),
            )
        }
    }

    /// `mret`: the new register file, the privilege recorded in MPP, and `mepc`.
    pub open spec fn machine_returned(self) -> (CsrModel, PrivilegeMode, u32) {
        let ms = self.machine.mstatus;
        let mpp = (ms & MSTATUS_MPP_MASK) >> MSTATUS_MPP_SHIFT;
        let ms1 = with_flag(ms, MSTATUS_MIE, ms & MSTATUS_MPIE != 0);
        let ms2 = (ms1 | MSTATUS_MPIE) & !MSTATUS_MPP_MASK;
        (
            CsrModel { machine: MachineCsrs { mstatus: ms2, ..self.machine }, ..self },
            privilege_from_bits(mpp),
            self.machine.mepc,
        )
    }

    /// `sret`: the new register file, the privilege recorded in SPP, and `sepc`.
    pub open spec fn supervisor_returned(self) -> (CsrModel, PrivilegeMode, u32) {
        let ms = self.machine.mstatus;
        let ms1 = with_flag(ms, MSTATUS_SIE, ms & MSTATUS_SPIE != 0);
        let ms2 = (ms1 | MSTATUS_SPIE) & !MSTATUS_SPP;
        (
            CsrModel { machine: MachineCsrs { mstatus: ms2, ..self.machine }, ..self },
            if ms & MSTATUS_SPP != 0 { PrivilegeMode::Supervisor } else { PrivilegeMode::User },
            self.supervisor.sepc,
        )
    }

    /// Whether a CSR may be accessed at privilege `p`: the CSR's minimum level,
    /// and for counters the machine (and for user mode also supervisor) counter enables.
    pub open spec fn allows_access(self, p: PrivilegeMode, a: CsrAddress) -> bool {
        let level = match p {
            PrivilegeMode::User => 0int,
            PrivilegeMode::Supervisor => 1int,
            PrivilegeMode::Machine => 3int,
        };
        let min = (crate::csr_address::csr_number(a) as int / 256) % 4;
        if level < min {
            false
        } else {
            match counter_bit(a) {
                None => true,
                Some(mask) => match p {
                    PrivilegeMode::Machine => true,
                    PrivilegeMode::Supervisor => self.machine.mcounteren & mask != 0,
                    PrivilegeMode::User => self.machine.mcounteren & mask != 0
                        && self.supervisor.scounteren & mask != 0,
                },
            }
        }
    }
}

/// The counter-enable bit that gates a counter CSR.
pub open spec fn counter_bit(a: CsrAddress) -> Option<u32> {
    match a {
        CsrAddress::Cycle | CsrAddress::Cycleh => Some(1u32),
        CsrAddress::Time | CsrAddress::Timeh => Some(2u32),
        CsrAddress::Instret | CsrAddress::Instreth => Some(4u32),
        _ => None,
    }
}

/// Storage for CSR reads and writes.
#[derive(Debug, Clone, Copy, PartialEq, Eq, Structural)]
pub struct CsrFile {
    machine: MachineCsrs,
    supervisor: SupervisorCsrs,
    software_pending: u32,
    external_pending: u32,
}

impl View for CsrFile {
    type V = CsrModel;

    closed spec fn view(&self) -> CsrModel {
        CsrModel {
            machine: self.machine,
            supervisor: self.supervisor,
            software_pending: self.software_pending,
            external_pending: self.external_pending,
        }
    }
}

impl Default for CsrFile {
    fn default() -> (r: Self)
        ensures
            r@ == CsrModel::zero(),
    {
        CsrFile {
            machine: MachineCsrs::default(),
            supervisor: SupervisorCsrs::default(),
            software_pending: 0,
            external_pending: 0,
        }
    }
}

fn set_flag(value: u32, mask: u32, enabled: bool) -> (r: u32)
    ensures
        r == with_flag(value, mask, enabled),
{
    if enabled {
        value | mask
    } else {
        value & !mask
    }
}

fn interrupt_pending_mask(i: Interrupt) -> (m: u32)
    ensures
        m == pending_mask(i),
{
    match i {
        Interrupt::SupervisorSoftware => MIP_SSIP,
        Interrupt::MachineSoftware => MIP_MSIP,
        Interrupt::SupervisorTimer => MIP_STIP,
        Interrupt::MachineTimer => MIP_MTIP,
        Interrupt::SupervisorExternal => MIP_SEIP,
        Interrupt::MachineExternal => MIP_MEIP,
    }
}

fn interrupt_enable_mask(i: Interrupt) -> (m: u32)
    ensures
        m == enable_mask(i),
{
    match i {
        Interrupt::SupervisorSoftware => MIE_SSIE,
        Interrupt::MachineSoftware => MIE_MSIE,
        Interrupt::SupervisorTimer => MIE_STIE,
        Interrupt::MachineTimer => MIE_MTIE,
        Interrupt::SupervisorExternal => MIE_SEIE,
        Interrupt::MachineExternal => MIE_MEIE,
    }
}

fn encode_privilege(p: PrivilegeMode) -> (b: u32)
    ensures
        b == privilege_bits(p),
{
    match p {
        PrivilegeMode::User => 0,
        PrivilegeMode::Supervisor => 0x800,
        PrivilegeMode::Machine => 0x1800,
    }
}

fn decode_privilege(bits: u32) -> (p: PrivilegeMode)
    ensures
        p == privilege_from_bits(bits),
{
    if bits == 0 {
        PrivilegeMode::User
    } else if bits == 1 {
        PrivilegeMode::Supervisor
    } else {
        PrivilegeMode::Machine
    }
}

fn vector_address(tvec: u32, trap: Trap) -> (a: u32)
    ensures
        a == trap_vector(tvec, trap),
{
    let base = tvec & !3u32;
    let mode = tvec & 3;
    if trap.is_interrupt() && mode == 1 {
        let code = trap.cause_code();
        base.wrapping_add(code * 4)
    } else {
        base
    }
}

impl CsrFile {
    /// The value of a CSR.
    pub fn read(&self, address: CsrAddress) -> (v: u32)
        ensures
            v == self@.read(address),
    {
        let m = &self.machine;
        let s = &self.supervisor;
        match address {
            CsrAddress::Sstatus => m.mstatus & SSTATUS_MASK,
            CsrAddress::Sie => m.mie & SIE_MASK,
            CsrAddress::Stvec => s.stvec,
            CsrAddress::Scounteren => s.scounteren,
            CsrAddress::Satp => s.satp,
            CsrAddress::Mstatus => m.mstatus,
            CsrAddress::Medeleg => m.medeleg,
            CsrAddress::Mideleg => m.mideleg,
            CsrAddress::Mie => m.mie,
            CsrAddress::Mtvec => m.mtvec,
            CsrAddress::Mcounteren => m.mcounteren,
            CsrAddress::Mcycle => (m.mcycle & 0xffff_ffff) as u32,
            CsrAddress::Minstret => (m.minstret & 0xffff_ffff) as u32,
            CsrAddress::Mcycleh => (m.mcycle >> 32) as u32,
            CsrAddress::Minstreth => (m.minstret >> 32) as u32,
            CsrAddress::Cycle | CsrAddress::Time => (m.mcycle & 0xffff_ffff) as u32,
            CsrAddress::Instret => (m.minstret & 0xffff_ffff) as u32,
            CsrAddress::Cycleh | CsrAddress::Timeh => (m.mcycle >> 32) as u32,
            CsrAddress::Instreth => (m.minstret >> 32) as u32,
            CsrAddress::Sepc => s.sepc,
            CsrAddress::Scause => s.scause,
            CsrAddress::Stval => s.stval,
            CsrAddress::Sip => m.mip & SIP_MASK,
            CsrAddress::Mepc => m.mepc,
            CsrAddress::Mcause => m.mcause,
            CsrAddress::Mtval => m.mtval,
            CsrAddress::Mip => m.mip,
        }
    }

    fn refresh_mip(&mut self)
        ensures
            final(self)@ == (CsrModel {
                machine: MachineCsrs {
                    mip: old(self)@.refreshed_mip(old(self)@.software_pending, old(self)@.external_pending),
                    ..old(self)@.machine
                },
                ..old(self)@
            }),
    {
        self.machine.mip = (self.machine.mip & !MANAGED_INTERRUPT_MASK) | (self.software_pending
            & MIP_WRITABLE_MASK) | (self.external_pending & MANAGED_INTERRUPT_MASK);
    }

    /// Write a CSR, applying the field masks and aliases of the modeled registers.
    pub fn write(&mut self, address: CsrAddress, value: u32)
        ensures
            final(self)@ == old(self)@.write(address, value),
    {
        match address {
            CsrAddress::Sstatus => {
                self.machine.mstatus = (self.machine.mstatus & !SSTATUS_MASK) | (value & SSTATUS_MASK);
            },
            CsrAddress::Sie => {
                self.machine.mie = (self.machine.mie & !SIE_MASK) | (value & SIE_MASK);
            },
            CsrAddress::Stvec => self.supervisor.stvec = value,
            CsrAddress::Scounteren => self.supervisor.scounteren = value & COUNTEREN_MASK,
            CsrAddress::Satp => self.supervisor.satp = value,
            CsrAddress::Mstatus => self.machine.mstatus = value,
            CsrAddress::Medeleg => self.machine.medeleg = value,
            CsrAddress::Mideleg => self.machine.mideleg = value & MIDELEG_MASK,
            CsrAddress::Mie => self.machine.mie = value,
            CsrAddress::Mtvec => self.machine.mtvec = value,
            CsrAddress::Mcounteren => self.machine.mcounteren = value & COUNTEREN_MASK,
            CsrAddress::Mcycle | CsrAddress::Cycle | CsrAddress::Time => {
                self.machine.mcycle = (self.machine.mcycle & 0xffff_ffff_0000_0000) | (value as u64);
            },
            CsrAddress::Minstret | CsrAddress::Instret => {
                self.machine.minstret = (self.machine.minstret & 0xffff_ffff_0000_0000) | (value as u64);
            },
            CsrAddress::Mcycleh | CsrAddress::Cycleh | CsrAddress::Timeh => {
                self.machine.mcycle = ((value as u64) << 32) | (self.machine.mcycle & 0xffff_ffff);
            },
            CsrAddress::Minstreth | CsrAddress::Instreth => {
                self.machine.minstret = ((value as u64) << 32) | (self.machine.minstret & 0xffff_ffff);
            },
            CsrAddress::Sepc => self.supervisor.sepc = value,
            CsrAddress::Scause => self.supervisor.scause = value,
            CsrAddress::Stval => self.supervisor.stval = value,
            CsrAddress::Sip => {
                self.software_pending = (self.software_pending & !SIP_WRITABLE_MASK) | (value
                    & SIP_WRITABLE_MASK);
                self.refresh_mip();
            },
            CsrAddress::Mepc => self.machine.mepc = value,
            CsrAddress::Mcause => self.machine.mcause = value,
            CsrAddress::Mtval => self.machine.mtval = value,
            CsrAddress::Mip => {
                self.software_pending = (self.software_pending & !MIP_WRITABLE_MASK) | (value
                    & MIP_WRITABLE_MASK);
                self.refresh_mip();
            },
        }
    }

    /// The machine-mode registers.
    pub fn machine(&self) -> (m: &MachineCsrs)
        ensures
            *m == self@.machine,
    {
        &self.machine
    }

    /// The supervisor-mode registers.
    pub fn supervisor(&self) -> (s: &SupervisorCsrs)
        ensures
            *s == self@.supervisor,
    {
        &self.supervisor
    }

    /// Advance the cycle counter by one, wrapping at 2^64.
    pub fn increment_cycle(&mut self)
        ensures
            final(self)@ == (CsrModel {
                machine: MachineCsrs {
                    mcycle: vstd::wrapping::u64_specs::wrapping_add(old(self)@.machine.mcycle, 1),
                    ..old(self)@.machine
                },
                ..old(self)@
            }),
    {
        self.machine.mcycle = self.machine.mcycle.wrapping_add(1);
    }

    /// Advance the retired-instruction counter, wrapping at 2^64.
    pub fn increment_instret(&mut self, retired: u64)
        ensures
            final(self)@ == (CsrModel {
                machine: MachineCsrs {
                    minstret: vstd::wrapping::u64_specs::wrapping_add(old(self)@.machine.minstret, retired),
                    ..old(self)@.machine
                },
                ..old(self)@
            }),
    {
        self.machine.minstret = self.machine.minstret.wrapping_add(retired);
    }

    /// Latch the lines asserted on the bus into the device-driven pending bits of `mip`.
    pub fn sync_interrupts(&mut self, interrupts: InterruptSet)
        ensures
            final(self)@ == old(self)@.synced(interrupts),
    {
        let mut ep: u32 = 0;
        if interrupts.contains(InterruptLine::SupervisorSoftware) {
            ep = ep | MIP_SSIP;
        }
        let ep1 = ep;
        if interrupts.contains(InterruptLine::MachineExternal) {
            ep = ep | MIP_MEIP;
        }
        let ep2 = ep;
        if interrupts.contains(InterruptLine::MachineSoftware) {
            ep = ep | MIP_MSIP;
        }
        let ep3 = ep;
        if interrupts.contains(InterruptLine::SupervisorTimer) {
            ep = ep | MIP_STIP;
        }
        let ep4 = ep;
        if interrupts.contains(InterruptLine::MachineTimer) {
            ep = ep | MIP_MTIP;
        }
        let ep5 = ep;
        if interrupts.contains(InterruptLine::SupervisorExternal) {
            ep = ep | MIP_SEIP;
        }
        assert(ep == CsrModel::external_bits(interrupts)) by {
            assert(forall|x: u32| x | 0 == x) by (bit_vector);
            assert(0u32 | 0x2 == 0x2) by (bit_vector);
        }
        self.external_pending = ep;
        self.refresh_mip();
    }

    /// Latch a single line (or none) into the device-driven pending bits.
    pub fn sync_interrupt_line(&mut self, interrupt: Option<InterruptLine>)
        ensures
            final(self)@ == old(self)@.synced(
                match interrupt {
                    Some(line) => InterruptSet::of_line(line),
                    None => InterruptSet::nothing(),
                },
            ),
    {
        let set = match interrupt {
            Some(line) => InterruptSet::from_line(line),
            None => InterruptSet::empty(),
        };
        self.sync_interrupts(set);
    }

    fn takeable(&self, i: Interrupt, cur: PrivilegeMode) -> (b: bool)
        ensures
            b == self@.takeable(i, cur),
    {
        if self.machine.mip & interrupt_pending_mask(i) == 0 {
            return false;
        }
        if self.machine.mie & interrupt_enable_mask(i) == 0 {
            return false;
        }
        let delegated = i.is_supervisor() && (self.machine.mideleg & (1u32 << i.cause_code())) != 0;
        let target = if delegated {
            if cur == PrivilegeMode::Machine {
                return false;
            }
            PrivilegeMode::Supervisor
        } else {
            PrivilegeMode::Machine
        };
        match target {
            PrivilegeMode::Machine => cur != PrivilegeMode::Machine || self.machine.mstatus
                & MSTATUS_MIE != 0,
            PrivilegeMode::Supervisor => cur == PrivilegeMode::User || (cur
                == PrivilegeMode::Supervisor && self.machine.mstatus & MSTATUS_SIE != 0),
            PrivilegeMode::User => false,
        }
    }

    /// The interrupt to take at privilege `current_privilege`, if any.
    pub fn pending_interrupt(&self, current_privilege: PrivilegeMode) -> (r: Option<Interrupt>)
        ensures
            r == self@.pending_interrupt(current_privilege),
    {
        if self.takeable(Interrupt::MachineExternal, current_privilege) {
            Some(Interrupt::MachineExternal)
        } else if self.takeable(Interrupt::MachineSoftware, current_privilege) {
            Some(Interrupt::MachineSoftware)
        } else if self.takeable(Interrupt::MachineTimer, current_privilege) {
            Some(Interrupt::MachineTimer)
        } else if self.takeable(Interrupt::SupervisorExternal, current_privilege) {
            Some(Interrupt::SupervisorExternal)
        } else if self.takeable(Interrupt::SupervisorSoftware, current_privilege) {
            Some(Interrupt::SupervisorSoftware)
        } else if self.takeable(Interrupt::SupervisorTimer, current_privilege) {
            Some(Interrupt::SupervisorTimer)
        } else {
            None
        }
    }

    /// Whether code at `privilege` may access the CSR.
    pub fn allows_csr_access(&self, privilege: PrivilegeMode, address: CsrAddress) -> (b: bool)
        ensures
            b == self@.allows_access(privilege, address),
    {
        if privilege.csr_level() < address.min_privilege_level() {
            return false;
        }
        match address.counteren_mask() {
            None => true,
            Some(mask) => match privilege {
                PrivilegeMode::Machine => true,
                PrivilegeMode::Supervisor => (self.machine.mcounteren & mask) != 0,
                PrivilegeMode::User => (self.machine.mcounteren & mask) != 0
                    && (self.supervisor.scounteren & mask) != 0,
            },
        }
    }

    /// Whether `mstatus.TVM` traps supervisor address-translation management.
    pub fn tvm_enabled(&self) -> (b: bool)
        ensures
            b == (self@.machine.mstatus & MSTATUS_TVM != 0),
    {
        (self.machine.mstatus & MSTATUS_TVM) != 0
    }

    /// Whether `mstatus.TSR` traps `sret` in supervisor mode.
    pub fn tsr_enabled(&self) -> (b: bool)
        ensures
            b == (self@.machine.mstatus & MSTATUS_TSR != 0),
    {
        (self.machine.mstatus & MSTATUS_TSR) != 0
    }

    /// Whether `mstatus.TW` traps `wfi` below machine mode.
    pub fn tw_enabled(&self) -> (b: bool)
        ensures
            b == (self@.machine.mstatus & MSTATUS_TW != 0),
    {
        (self.machine.mstatus & MSTATUS_TW) != 0
    }

    /// Record trap state and return the handler's privilege and address.
    pub fn enter_trap(&mut self, trap: Trap, current_pc: u32, current_privilege: PrivilegeMode) -> (r: (PrivilegeMode, u32))
        ensures
            (final(self)@, r.0, r.1) == old(self)@.trap_entered(trap, current_pc, current_privilege),
    {
        let delegated = if current_privilege == PrivilegeMode::Machine {
            false
        } else {
            match trap {
                Trap::Exception(_) => (self.machine.medeleg & (1u32 << trap.cause_code())) != 0,
                Trap::Interrupt(i) => i.is_supervisor() && (self.machine.mideleg & (1u32
                    << i.cause_code())) != 0,
            }
        };
        if delegated {
            self.supervisor.sepc = current_pc;
            self.supervisor.scause = trap.cause_bits();
            self.supervisor.stval = trap.tval();
            let ms = self.machine.mstatus;
            let ms1 = set_flag(ms, MSTATUS_SPIE, (ms & MSTATUS_SIE) != 0);
            let ms2 = ms1 & !MSTATUS_SIE;
            let ms3 = set_flag(ms2, MSTATUS_SPP, current_privilege == PrivilegeMode::Supervisor);
            self.machine.mstatus = ms3;
            (PrivilegeMode::Supervisor, vector_address(self.supervisor.stvec, trap))
        } else {
            self.machine.mepc = current_pc;
            self.machine.mcause = trap.cause_bits();
            self.machine.mtval = trap.tval();
            let ms = self.machine.mstatus;
            let ms1 = set_flag(ms, MSTATUS_MPIE, (ms & MSTATUS_MIE) != 0);
            let ms2 = ms1 & !MSTATUS_MIE;
            let ms3 = (ms2 & !MSTATUS_MPP_MASK) | encode_privilege(current_privilege);
            self.machine.mstatus = ms3;
            (PrivilegeMode::Machine, vector_address(self.machine.mtvec, trap))
        }
    }

    /// Return from a machine-mode trap: restore MIE from MPIE and hand back MPP and `mepc`.
    pub fn return_from_machine_trap(&mut self) -> (r: (PrivilegeMode, u32))
        ensures
            (final(self)@, r.0, r.1) == old(self)@.machine_returned(),
    {
        let ms = self.machine.mstatus;
        let mpie = (ms & MSTATUS_MPIE) != 0;
        let mpp = (ms & MSTATUS_MPP_MASK) >> MSTATUS_MPP_SHIFT;
        let ms1 = set_flag(ms, MSTATUS_MIE, mpie);
        let ms2 = (ms1 | MSTATUS_MPIE) & !MSTATUS_MPP_MASK;
        self.machine.mstatus = ms2;
        (decode_privilege(mpp), self.machine.mepc)
    }

    /// Return from a supervisor-mode trap: restore SIE from SPIE and hand back SPP and `sepc`.
    pub fn return_from_supervisor_trap(&mut self) -> (r: (PrivilegeMode, u32))
        ensures
            (final(self)@, r.0, r.1) == old(self)@.supervisor_returned(),
    {
        let ms = self.machine.mstatus;
        let spie = (ms & MSTATUS_SPIE) != 0;
        let spp = (ms & MSTATUS_SPP) != 0;
        let ms1 = set_flag(ms, MSTATUS_SIE, spie);
        let ms2 = (ms1 | MSTATUS_SPIE) & !MSTATUS_SPP;
        self.machine.mstatus = ms2;
        (
            if spp {
                PrivilegeMode::Supervisor
            } else {
                PrivilegeMode::User
            },
            self.supervisor.sepc,
        )
    }
}

} // verus!
