//! The write-back stage: the single point where instructions change
//! architectural state.

use vstd::prelude::*;
use crate::csr_file::CsrModel;
use crate::exec::{return_from_supervisor_trap, return_from_trap};
use crate::hart::HartState;
use crate::mmu::{PageWalker, fenced};
use crate::opcode::{InstructionKind, SystemKind};
use crate::pipeline::latches::MemWbPayload;
use crate::privilege::PrivilegeMode;
use crate::trace::CommitEvent;

verus! {

/// The register file after writing `value` to `rd` (x0 stays zero).
pub open spec fn registers_written(regs: Seq<u32>, rd: Option<u8>, value: Option<u32>) -> Seq<u32> {
    match (rd, value) {
        (Some(r), Some(v)) => if r == 0 { regs } else { regs.update(r as int, v) },
        _ => regs,
    }
}

/// The CSR file after an optional deferred CSR write.
pub open spec fn csrs_written(csrs: CsrModel, payload: MemWbPayload) -> CsrModel {
    match payload.csr_write {
        Some(w) => csrs.write(w.address, w.value),
        None => csrs,
    }
}

/// Architectural state after committing `payload`: registers, CSRs,
/// privilege and program counter.
pub open spec fn committed(
    regs: Seq<u32>,
    csrs: CsrModel,
    privilege: PrivilegeMode,
    payload: MemWbPayload,
) -> (Seq<u32>, CsrModel, PrivilegeMode, u32) {
    match payload.decoded.kind {
        InstructionKind::System(SystemKind::Mret) => {
            let (c, p, pc) = csrs.machine_returned();
            (regs, c, p, pc)
        },
        InstructionKind::System(SystemKind::Sret) => {
            let (c, p, pc) = csrs.supervisor_returned();
            (regs, c, p, pc)
        },
        _ => (
            registers_written(regs, payload.decoded.rd, payload.writeback_value),
            csrs_written(csrs, payload),
            privilege,
            payload.next_pc,
        ),
    }
}

/// The commit record of `payload`, leaving for `next_pc`.
pub open spec fn commit_event(payload: MemWbPayload, next_pc: u32) -> CommitEvent {
    CommitEvent {
        pc: payload.decoded.pc,
        next_pc,
        kind: payload.decoded.kind,
        destination: payload.decoded.rd,
        value: payload.writeback_value,
        csr_write: payload.csr_write,
    }
}

/// Write one instruction result back to architectural state: trap returns
/// restore the saved context, other instructions apply their CSR write,
/// register result and next PC; an `sfence.vma` drops the TLB entries it selects.
pub fn write_back(state: &mut HartState, walker: &mut PageWalker, payload: MemWbPayload) -> (c: CommitEvent)
    requires
        payload.decoded.register_fields_valid(),
    ensures
        (final(state).registers@, final(state).csrs@, final(state).privilege, final(state).pc)
            == committed(old(state).registers@, old(state).csrs@, old(state).privilege, payload),
        final(state).halted == old(state).halted,
        final(state).reset_vector == old(state).reset_vector,
        c == commit_event(payload, final(state).pc),
        final(walker).spec_active() == old(walker).spec_active(),
        match payload.translation_fence {
            Some(f) => forall|i: int| 0 <= i < final(walker).spec_tlb().len() ==> #[trigger] final(walker).spec_tlb()[i]
                == fenced(old(walker).spec_tlb()[i], f.virtual_address, f.asid),
            None => final(walker).spec_tlb() == old(walker).spec_tlb(),
        },
        final(walker).spec_tlb().len() == old(walker).spec_tlb().len(),
{
    let next_pc = match payload.decoded.kind {
        InstructionKind::System(SystemKind::Mret) => {
            let _result = return_from_trap(state);
            state.pc
        },
        InstructionKind::System(SystemKind::Sret) => {
            let _result = return_from_supervisor_trap(state);
            state.pc
        },
        _ => {
            if let Some(write) = payload.csr_write {
                state.csrs.write(write.address, write.value);
            }
            if let (Some(rd), Some(value)) = (payload.decoded.rd, payload.writeback_value) {
                state.registers.write(rd, value);
            }
            state.pc = payload.next_pc;
            payload.next_pc
        },
    };
    if let Some(fence) = payload.translation_fence {
        walker.flush_selected(fence.virtual_address, fence.asid);
    }
    CommitEvent {
        pc: payload.decoded.pc,
        next_pc,
        kind: payload.decoded.kind,
        destination: payload.decoded.rd,
        value: payload.writeback_value,
        csr_write: payload.csr_write,
    }
}

} // verus!
