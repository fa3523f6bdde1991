//! The fetch stage: translate the fetch address, read the instruction word,
//! and predict the next fetch address.

use vstd::prelude::*;
use crate::bus::{Bus, BusError, aligned_accesses, byte_reads, logged};
use crate::csr_file::CsrFile;
use crate::decode::{imm_b, imm_b_value, imm_j, imm_j_value};
use crate::exception::Trap;
use crate::exec::{bus_error_trap, map_bus_error_to_trap};
use crate::exec::branch::pc_relative;
use crate::mmu::{MemoryAccess, PageWalker, TranslationResult, effective_privilege, spec_page_fault, spec_tlb_lookup, spec_translation_enabled, translation_without_walk};
use crate::pipeline::ex_stage::fallthrough;
use crate::pipeline::latches::IfIdPayload;
use crate::pipeline::mem_stage::data_request;
use crate::predictor::{BranchPrediction, BranchPredictor};
use crate::privilege::PrivilegeMode;

verus! {

/// Outcome of one fetch attempt.
#[derive(Debug, Clone, Copy, PartialEq, Eq, Structural)]
pub enum FetchEvent {
    Advance(IfIdPayload),
    Stall,
    Trap(Trap),
}

/// Whether `p` is a prediction the front end may make for the word `raw` at
/// `pc`: jumps are taken to their target, conditional branches follow the
/// predictor towards their target or the next word, and everything else
/// falls through.
pub open spec fn valid_prediction(pc: u32, raw: u32, p: BranchPrediction) -> bool {
    if raw & 0x7f == 0x63 {
        p.target == (if p.taken { pc_relative(pc, imm_b_value(raw) as i32) } else { fallthrough(pc) })
    } else if raw & 0x7f == 0x6f {
        p == (BranchPrediction { taken: true, target: pc_relative(pc, imm_j_value(raw) as i32) })
    } else {
        p == (BranchPrediction { taken: false, target: fallthrough(pc) })
    }
}

/// The traps a fetch may raise: a page fault of the translation of `pc`, or
/// the exception mapped from a failed bus read at `pc`.
pub open spec fn fetch_trap(csrs: crate::csr_file::CsrModel, privilege: PrivilegeMode, pc: u32, trap: Trap) -> bool {
    ||| trap == spec_page_fault(data_request(csrs, privilege, pc, MemoryAccess::Instruction))
    ||| exists|e: BusError| bus_error_trap(e, pc, MemoryAccess::Instruction) == Some(trap)
}

/// Predict the next fetch address for the word `raw` fetched at `pc`.
pub fn predict_from_raw<P: BranchPredictor>(pc: u32, raw: u32, predictor: &P) -> (p: BranchPrediction)
    ensures
        valid_prediction(pc, raw, p),
{
    let next = pc.wrapping_add(4);
    let opcode = raw & 0x7f;
    if opcode == 0x63 {
        let target = pc.wrapping_add_signed(imm_b(raw));
        predictor.predict(pc, next, target)
    } else if opcode == 0x6f {
        BranchPrediction { taken: true, target: pc.wrapping_add_signed(imm_j(raw)) }
    } else {
        BranchPrediction { taken: false, target: next }
    }
}

/// Fetch one instruction through the instruction path of the bus.
pub fn fetch<B: Bus, P: BranchPredictor>(
    bus: &mut B,
    walker: &mut PageWalker,
    csrs: &CsrFile,
    privilege: PrivilegeMode,
    pc: u32,
    predictor: &P,
) -> (r: Result<FetchEvent, BusError>)
    ensures
        r is Ok,
        r matches Ok(FetchEvent::Advance(p)) ==> p.pc == pc && valid_prediction(
            pc,
            p.raw,
            BranchPrediction { taken: p.predicted_taken, target: p.predicted_pc },
        ),
        r matches Ok(FetchEvent::Trap(t)) ==> fetch_trap(csrs@, privilege, pc, t),
        old(walker).spec_active() is None && spec_translation_enabled(
            csrs@.supervisor.satp,
            effective_privilege(csrs@.machine.mstatus, privilege, MemoryAccess::Instruction),
        ) ==> (spec_tlb_lookup(old(walker).spec_tlb(), data_request(csrs@, privilege, pc, MemoryAccess::Instruction))
            matches Some(TranslationResult::PageFault(t)) ==> r == Ok::<FetchEvent, BusError>(FetchEvent::Trap(t))),
        old(bus).spec_keeps_log() ==> (translation_without_walk(*old(walker), csrs@, privilege, pc, MemoryAccess::Instruction)
            matches Some(TranslationResult::PhysicalAddress(pa)) ==> final(bus).spec_keeps_log() && logged(
            old(bus).spec_log(),
            final(bus).spec_log(),
            aligned_accesses(pa % 4 == 0, byte_reads(pa as u64, 4)),
            r matches Ok(FetchEvent::Advance(_)),
        )),
{
    let physical_address = match walker.translate(bus, csrs, privilege, pc, MemoryAccess::Instruction) {
        Ok(TranslationResult::PhysicalAddress(pa)) => pa,
        Ok(TranslationResult::Stall) => return Ok(FetchEvent::Stall),
        Ok(TranslationResult::PageFault(trap)) => return Ok(FetchEvent::Trap(trap)),
        Err(error) => return Err(error),
    };
    let raw = match bus.fetch32(physical_address as u64) {
        Ok(raw) => raw,
        Err(error) => {
            return match map_bus_error_to_trap(&error, pc, MemoryAccess::Instruction) {
                Some(trap) => Ok(FetchEvent::Trap(trap)),
                None => Ok(FetchEvent::Stall),
            };
        },
    };
    let prediction = predict_from_raw(pc, raw, predictor);
    Ok(
        FetchEvent::Advance(
            IfIdPayload {
                pc,
                raw,
                predicted_pc: prediction.target,
                predicted_taken: prediction.taken,
            },
        ),
    )
}

} // verus!
