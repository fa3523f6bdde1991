//! Properties of the CSR file that span several operations.

use vstd::prelude::*;
use crate::csr_address::CsrAddress;
use crate::csr_file::{CsrModel, MSTATUS_MIE, MSTATUS_SPIE, MSTATUS_MPIE, MSTATUS_MPP_MASK, MSTATUS_SIE, SSTATUS_MASK, SIE_MASK, COUNTEREN_MASK, MIDELEG_MASK, SIP_WRITABLE_MASK, MIP_WRITABLE_MASK, SIP_MASK, MANAGED_INTERRUPT_MASK, privilege_bits, with_flag};
use crate::exception::{Interrupt, Trap};
use crate::privilege::PrivilegeMode;

verus! {

/// The bits of a CSR that a write may change; the pending registers are
/// handled separately because device-driven bits show through them.
pub open spec fn write_mask(a: CsrAddress) -> u32 {
    match a {
        CsrAddress::Sstatus => SSTATUS_MASK,
        CsrAddress::Sie => SIE_MASK,
        CsrAddress::Scounteren | CsrAddress::Mcounteren => COUNTEREN_MASK,
        CsrAddress::Mideleg => MIDELEG_MASK,
        CsrAddress::Sip => SIP_WRITABLE_MASK,
        CsrAddress::Mip => MIP_WRITABLE_MASK,
        _ => 0xffff_ffff,
    }
}

/// CSRs that name the same storage share a group.
pub open spec fn storage_group(a: CsrAddress) -> int {
    match a {
        CsrAddress::Sstatus | CsrAddress::Mstatus => 0,
        CsrAddress::Sie | CsrAddress::Mie => 1,
        CsrAddress::Sip | CsrAddress::Mip => 2,
        CsrAddress::Mcycle | CsrAddress::Cycle | CsrAddress::Time | CsrAddress::Mcycleh
        | CsrAddress::Cycleh | CsrAddress::Timeh => 3,
        CsrAddress::Minstret | CsrAddress::Instret | CsrAddress::Minstreth | CsrAddress::Instreth => 4,
        CsrAddress::Stvec => 5,
        CsrAddress::Scounteren => 6,
        CsrAddress::Satp => 7,
        CsrAddress::Medeleg => 8,
        CsrAddress::Mideleg => 9,
        CsrAddress::Mtvec => 10,
        CsrAddress::Mcounteren => 11,
        CsrAddress::Sepc => 12,
        CsrAddress::Scause => 13,
        CsrAddress::Stval => 14,
        CsrAddress::Mepc => 15,
        CsrAddress::Mcause => 16,
        CsrAddress::Mtval => 17,
    }
}

/// Reading a CSR right after writing it returns the written value restricted
/// to the register's writable bits; for `sip` and `mip` the device-driven
/// pending bits stay visible beside the written software bits.
pub proof fn csr_read_after_write(m: CsrModel, a: CsrAddress, v: u32)
    ensures
        a != CsrAddress::Sip && a != CsrAddress::Mip ==> m.write(a, v).read(a) == v & write_mask(a),
        a == CsrAddress::Sip ==> m.write(a, v).read(a) == (v & SIP_WRITABLE_MASK) | (m.external_pending
            & SIP_MASK),
        a == CsrAddress::Mip ==> m.write(a, v).read(a) == (m.machine.mip & !MANAGED_INTERRUPT_MASK)
            | (v & MIP_WRITABLE_MASK) | (m.external_pending & MANAGED_INTERRUPT_MASK),
{
    let ms = m.machine.mstatus;
    let mie = m.machine.mie;
    let mip = m.machine.mip;
    let sp = m.software_pending;
    let ep = m.external_pending;
    let cy = m.machine.mcycle;
    let ir = m.machine.minstret;
    assert({
        &&& ((ms & !0xc_0122u32) | (v & 0xc_0122u32)) & 0xc_0122u32 == v & 0xc_0122u32
        &&& ((mie & !0x222u32) | (v & 0x222u32)) & 0x222u32 == v & 0x222u32
        &&& v & 0xffff_ffffu32 == v
        &&& v & 0xffff_ffffu32 | (ms & !0xffff_ffffu32) == v
        &&& forall|y: u32| v & 0xffff_ffffu32 | (y & !0xffff_ffffu32) == v
        &&& forall|y: u32| (v & 7u32) | ((y & 7u32) & !7u32) == v & 7u32
        &&& forall|y: u32| (v & 0x222u32) | ((y & 0x222u32) & !0x222u32) == v & 0x222u32
        &&& (((cy & 0xffff_ffff_0000_0000u64) | (v as u64)) & 0xffff_ffffu64) as u32 == v
        &&& (((ir & 0xffff_ffff_0000_0000u64) | (v as u64)) & 0xffff_ffffu64) as u32 == v
        &&& ((((v as u64) << 32u64) | (cy & 0xffff_ffffu64)) >> 32u64) as u32 == v
        &&& ((((v as u64) << 32u64) | (ir & 0xffff_ffffu64)) >> 32u64) as u32 == v
    }) by (bit_vector);
    let sp_s = (sp & !2u32) | (v & 2u32);
    assert(((mip & !0xaaau32) | (sp_s & 0xau32) | (ep & 0xaaau32)) & 0x222u32 == (v & 2u32) | (ep
        & 0x222u32)) by (bit_vector)
        requires sp_s == (sp & !2u32) | (v & 2u32);
    let sp_m = (sp & !0xau32) | (v & 0xau32);
    assert((mip & !0xaaau32) | (sp_m & 0xau32) | (ep & 0xaaau32) == (mip & !0xaaau32) | (v & 0xau32)
        | (ep & 0xaaau32)) by (bit_vector)
        requires sp_m == (sp & !0xau32) | (v & 0xau32);
    let w = m.write(a, v);
    match a {
        CsrAddress::Scounteren => {
            let y = m.supervisor.scounteren;
            assert((v & 7u32) | ((y & 7u32) & !7u32) == v & 7u32);
        },
        CsrAddress::Mcounteren => {
            let y = m.machine.mcounteren;
            assert((v & 7u32) | ((y & 7u32) & !7u32) == v & 7u32);
        },
        CsrAddress::Mideleg => {
            let y = m.machine.mideleg;
            assert((v & 0x222u32) | ((y & 0x222u32) & !0x222u32) == v & 0x222u32);
        },
        CsrAddress::Sstatus | CsrAddress::Sie | CsrAddress::Sip | CsrAddress::Mip => {},
        CsrAddress::Mcycle | CsrAddress::Cycle | CsrAddress::Time | CsrAddress::Minstret | CsrAddress::Instret
        | CsrAddress::Mcycleh | CsrAddress::Cycleh | CsrAddress::Timeh | CsrAddress::Minstreth
        | CsrAddress::Instreth => {
            assert(forall|y: u32| v & 0xffff_ffffu32 | (y & !0xffff_ffffu32) == v);
        },
        _ => {
            assert(forall|y: u32| v & 0xffff_ffffu32 | (y & !0xffff_ffffu32) == v);
        },
    }
}

/// Writing a CSR leaves every CSR outside its storage group unchanged.
#[verifier::rlimit(40)]
pub proof fn csr_write_frame(m: CsrModel, a: CsrAddress, v: u32, b: CsrAddress)
    requires
        storage_group(a) != storage_group(b),
    ensures
        m.write(a, v).read(b) == m.read(b),
{
    match a {
        CsrAddress::Sstatus => {},
        CsrAddress::Sie => {},
        CsrAddress::Stvec => {},
        CsrAddress::Scounteren => {},
        CsrAddress::Satp => {},
        CsrAddress::Mstatus => {},
        CsrAddress::Medeleg => {},
        CsrAddress::Mideleg => {},
        CsrAddress::Mie => {},
        CsrAddress::Mtvec => {},
        CsrAddress::Mcounteren => {},
        CsrAddress::Mcycle => {},
        CsrAddress::Minstret => {},
        CsrAddress::Mcycleh => {},
        CsrAddress::Minstreth => {},
        CsrAddress::Cycle => {},
        CsrAddress::Time => {},
        CsrAddress::Instret => {},
        CsrAddress::Cycleh => {},
        CsrAddress::Timeh => {},
        CsrAddress::Instreth => {},
        CsrAddress::Sepc => {},
        CsrAddress::Scause => {},
        CsrAddress::Stval => {},
        CsrAddress::Sip => {},
        CsrAddress::Mepc => {},
        CsrAddress::Mcause => {},
        CsrAddress::Mtval => {},
        CsrAddress::Mip => {},
    }
}

/// A trap taken into machine mode and returned from with `mret` resumes at the
/// trapping pc in the trapping privilege, with MIE restored.
pub proof fn machine_trap_round_trip(m: CsrModel, trap: Trap, pc: u32, cur: PrivilegeMode)
    requires
        !m.delegates_trap(trap, cur),
    ensures
        m.trap_entered(trap, pc, cur).1 == PrivilegeMode::Machine,
        m.trap_entered(trap, pc, cur).0.machine_returned().1 == cur,
        m.trap_entered(trap, pc, cur).0.machine_returned().2 == pc,
        (m.trap_entered(trap, pc, cur).0.machine_returned().0.machine.mstatus & MSTATUS_MIE != 0)
            == (m.machine.mstatus & MSTATUS_MIE != 0),
        m.trap_entered(trap, pc, cur).0.machine.mstatus & MSTATUS_MIE == 0,
{
    let ms = m.machine.mstatus;
    let pb = privilege_bits(cur);
    let ms1 = with_flag(ms, MSTATUS_MPIE, ms & MSTATUS_MIE != 0);
    let ms3 = ((ms1 & !MSTATUS_MIE) & !MSTATUS_MPP_MASK) | pb;
    assert({
        &&& ms3 & 8u32 == 0
        &&& (ms3 & 0x1800u32) >> 11u32 == pb >> 11u32
        &&& (ms3 & 0x80u32 != 0) == (ms & 8u32 != 0)
        &&& 0u32 >> 11u32 == 0 && 0x800u32 >> 11u32 == 1 && 0x1800u32 >> 11u32 == 3
    }) by (bit_vector)
        requires
            ms3 == ((ms1 & !8u32) & !0x1800u32) | pb,
            ms1 == (if ms & 8u32 != 0 { ms | 0x80u32 } else { ms & !0x80u32 }),
            pb == 0 || pb == 0x800 || pb == 0x1800;
    let ms4 = with_flag(ms3, MSTATUS_MIE, ms3 & MSTATUS_MPIE != 0);
    let ms5 = (ms4 | MSTATUS_MPIE) & !MSTATUS_MPP_MASK;
    assert((ms5 & 8u32 != 0) == (ms3 & 0x80u32 != 0)) by (bit_vector)
        requires
            ms4 == (if ms3 & 0x80u32 != 0 { ms3 | 8u32 } else { ms3 & !8u32 }),
            ms5 == (ms4 | 0x80u32) & !0x1800u32;
}

/// A trap delegated to supervisor mode and returned from with `sret` resumes at
/// the trapping pc in the trapping privilege, with SIE restored.
pub proof fn supervisor_trap_round_trip(m: CsrModel, trap: Trap, pc: u32, cur: PrivilegeMode)
    requires
        m.delegates_trap(trap, cur),
    ensures
        cur != PrivilegeMode::Machine,
        m.trap_entered(trap, pc, cur).1 == PrivilegeMode::Supervisor,
        m.trap_entered(trap, pc, cur).0.supervisor_returned().1 == cur,
        m.trap_entered(trap, pc, cur).0.supervisor_returned().2 == pc,
        (m.trap_entered(trap, pc, cur).0.supervisor_returned().0.machine.mstatus & MSTATUS_SIE != 0)
            == (m.machine.mstatus & MSTATUS_SIE != 0),
        m.trap_entered(trap, pc, cur).0.machine.mstatus & MSTATUS_SIE == 0,
{
    assert({
        &&& (forall|x: u32| #[trigger] (x | 2u32) & 2u32 != 0)
        &&& (forall|x: u32| #[trigger] (x & !2u32) & 2u32 == 0)
        &&& (forall|x: u32| #[trigger] (x | 0x100u32) & 0x100u32 != 0)
        &&& (forall|x: u32| #[trigger] (x & !0x100u32) & 0x100u32 == 0)
        &&& (forall|x: u32| #[trigger] ((x | 0x20u32) & !2u32) & 0x20u32 != 0)
        &&& (forall|x: u32| #[trigger] ((x & !0x20u32) & !2u32) & 0x20u32 == 0)
        &&& (forall|x: u32| ((x & !2u32) | 0x100u32) & 2u32 == 0)
        &&& (forall|x: u32| ((x & !2u32) & !0x100u32) & 2u32 == 0)
    }) by (bit_vector);
    let ms = m.machine.mstatus;
    let ms1 = with_flag(ms, MSTATUS_SPIE, ms & MSTATUS_SIE != 0);
    let ms2 = ms1 & !MSTATUS_SIE;
    let ms3 = with_flag(ms2, 0x100u32, cur == PrivilegeMode::Supervisor);
    let ms4 = with_flag(ms3, MSTATUS_SIE, ms3 & MSTATUS_SPIE != 0);
    let ms5 = (ms4 | MSTATUS_SPIE) & !0x100u32;
    let b = cur == PrivilegeMode::Supervisor;
    assert((ms5 & 2u32 != 0) == (ms & 2u32 != 0)) by (bit_vector)
        requires
            ms1 == (if ms & 2u32 != 0 { ms | 0x20u32 } else { ms & !0x20u32 }),
            ms2 == ms1 & !2u32,
            ms3 == (if b { ms2 | 0x100u32 } else { ms2 & !0x100u32 }),
            ms4 == (if ms3 & 0x20u32 != 0 { ms3 | 2u32 } else { ms3 & !2u32 }),
            ms5 == (ms4 | 0x20u32) & !0x100u32;
}

/// The selected interrupt is takeable, no takeable interrupt is passed over
/// for nothing, and an interrupt delegated to supervisor mode is never taken
/// while running in machine mode.
pub proof fn interrupt_selection_sound(m: CsrModel, cur: PrivilegeMode, i: Interrupt)
    ensures
        m.pending_interrupt(cur) matches Some(j) ==> m.takeable(j, cur),
        m.pending_interrupt(cur) is None ==> !m.takeable(i, cur),
        cur == PrivilegeMode::Machine ==> (m.pending_interrupt(cur) matches Some(j) ==> !m.delegates_interrupt(j)),
{
}

} // verus!
