//! Instruction execution shared by the CPU cores: trap entry and return,
//! the mapping of bus failures onto exceptions, and the one-instruction
//! step of the reference core.

pub mod alu;
pub mod branch;
pub mod csr;
pub mod load_store;

use vstd::prelude::*;
use crate::bus::{Bus, BusError, log_grows};
use crate::cpu_model::CpuError;
use crate::exception::{Exception, Trap};
use crate::hart::HartState;
use crate::instruction::DecodedInstruction;
use crate::mmu::{MemoryAccess, PageWalker};
use crate::pipeline::ex_stage::{self, ExecuteEvent, execute_spec, spec_uses_memory};
use crate::pipeline::latches::ExMemPayload;
use crate::pipeline::mem_stage::{self, MemoryEvent, passed_through};
use crate::pipeline::wb_stage::{self, committed};

verus! {

/// Minimal post-execution status shared across the core implementations.
#[derive(Debug, Clone, Copy, PartialEq, Eq, Structural)]
pub struct ExecutionResult {
    pub retired: u64,
    pub trap: Option<Trap>,
    pub memory_access: bool,
}

impl Default for ExecutionResult {
    fn default() -> (r: Self)
        ensures
            r == (ExecutionResult { retired: 0, trap: None, memory_access: false }),
    {
        ExecutionResult { retired: 0, trap: None, memory_access: false }
    }
}

/// The exception a failed bus access raises, or `None` for a busy bus (the
/// access is retried).
pub open spec fn bus_error_trap(error: BusError, address: u32, access: MemoryAccess) -> Option<Trap> {
    match error {
        BusError::Busy { .. } => None,
        BusError::MisalignedAccess { .. } => Some(
            Trap::Exception(
                match access {
                    MemoryAccess::Instruction => Exception::InstructionAddressMisaligned { addr: address },
                    MemoryAccess::Load => Exception::LoadAddressMisaligned { addr: address },
                    MemoryAccess::Store => Exception::StoreAddressMisaligned { addr: address },
                },
            ),
        ),
        _ => Some(
            Trap::Exception(
                match access {
                    MemoryAccess::Instruction => Exception::InstructionAccessFault { addr: address },
                    MemoryAccess::Load => Exception::LoadAccessFault { addr: address },
                    MemoryAccess::Store => Exception::StoreAccessFault { addr: address },
                },
            ),
        ),
    }
}

/// Map a bus failure at `address` onto the architectural exception it raises.
pub fn map_bus_error_to_trap(error: &BusError, address: u32, access: MemoryAccess) -> (t: Option<Trap>)
    ensures
        t == bus_error_trap(*error, address, access),
{
    match error {
        BusError::Busy { .. } => None,
        BusError::MisalignedAccess { .. } => Some(
            Trap::Exception(
                match access {
                    MemoryAccess::Instruction => Exception::InstructionAddressMisaligned { addr: address },
                    MemoryAccess::Load => Exception::LoadAddressMisaligned { addr: address },
                    MemoryAccess::Store => Exception::StoreAddressMisaligned { addr: address },
                },
            ),
        ),
        _ => Some(
            Trap::Exception(
                match access {
                    MemoryAccess::Instruction => Exception::InstructionAccessFault { addr: address },
                    MemoryAccess::Load => Exception::LoadAccessFault { addr: address },
                    MemoryAccess::Store => Exception::StoreAccessFault { addr: address },
                },
            ),
        ),
    }
}

/// The hart after taking `trap` at `pc`: trap CSRs recorded, privilege and
/// program counter moved to the handler; registers untouched.
pub open spec fn trap_taken(before: &HartState, after: &HartState, trap: Trap, pc: u32) -> bool {
    let (csrs, privilege, vector) = before.csrs@.trap_entered(trap, pc, before.privilege);
    &&& after.csrs@ == csrs
    &&& after.privilege == privilege
    &&& after.pc == vector
    &&& after.registers@ == before.registers@
    &&& after.halted == before.halted
    &&& after.reset_vector == before.reset_vector
}

/// Apply a trap to the trap CSRs and redirect the hart to the handler chosen
/// by delegation.
pub fn apply_trap(state: &mut HartState, trap: Trap, current_pc: u32) -> (r: ExecutionResult)
    ensures
        trap_taken(old(state), final(state), trap, current_pc),
        r == (ExecutionResult { retired: 0, trap: Some(trap), memory_access: false }),
{
    let (privilege, vector) = state.csrs.enter_trap(trap, current_pc, state.privilege);
    state.privilege = privilege;
    state.pc = vector;
    ExecutionResult { retired: 0, trap: Some(trap), memory_access: false }
}

/// Return from the current machine-mode trap context using `mepc`.
pub fn return_from_trap(state: &mut HartState) -> (r: ExecutionResult)
    ensures
        (final(state).csrs@, final(state).privilege, final(state).pc) == old(state).csrs@.machine_returned(),
        final(state).registers@ == old(state).registers@,
        final(state).halted == old(state).halted,
        final(state).reset_vector == old(state).reset_vector,
        r == (ExecutionResult { retired: 1, trap: None, memory_access: false }),
{
    let (privilege, next_pc) = state.csrs.return_from_machine_trap();
    state.privilege = privilege;
    state.pc = next_pc;
    ExecutionResult { retired: 1, trap: None, memory_access: false }
}

/// Return from the current supervisor-mode trap context using `sepc`.
pub fn return_from_supervisor_trap(state: &mut HartState) -> (r: ExecutionResult)
    ensures
        (final(state).csrs@, final(state).privilege, final(state).pc) == old(state).csrs@.supervisor_returned(),
        final(state).registers@ == old(state).registers@,
        final(state).halted == old(state).halted,
        final(state).reset_vector == old(state).reset_vector,
        r == (ExecutionResult { retired: 1, trap: None, memory_access: false }),
{
    let (privilege, next_pc) = state.csrs.return_from_supervisor_trap();
    state.privilege = privilege;
    state.pc = next_pc;
    ExecutionResult { retired: 1, trap: None, memory_access: false }
}

/// The payload the execute stage hands on for `outcome`.
pub open spec fn payload_of(decoded: DecodedInstruction, outcome: ex_stage::ExecuteOutcome) -> ExMemPayload {
    ExMemPayload {
        decoded,
        writeback_value: outcome.writeback_value,
        csr_write: outcome.csr_write,
        translation_fence: outcome.translation_fence,
        memory_address: outcome.memory_address,
        store_value: outcome.store_value,
        next_pc: outcome.next_pc,
    }
}

/// The value an optional source register reads as (absent sources read as x0).
pub open spec fn source_value(regs: Seq<u32>, source: Option<u8>) -> u32 {
    match source {
        Some(r) => regs[r as int],
        None => regs[0],
    }
}

/// How the hart `before` becomes `after` when a load or store whose memory
/// stage ended in `event` completes: a completed access commits, a stalled
/// one leaves the hart as it was so it can be retried, a trap is taken at
/// the instruction, and a bus failure is reported with the hart unchanged.
pub open spec fn memory_completion(
    before: HartState,
    after: HartState,
    decoded: DecodedInstruction,
    event: Result<MemoryEvent, BusError>,
    r: Result<ExecutionResult, CpuError>,
) -> bool {
    let unchanged = after.registers@ == before.registers@ && after.csrs@ == before.csrs@ && after.privilege
        == before.privilege && after.pc == before.pc;
    match event {
        Ok(MemoryEvent::Advance(done)) => r == Ok::<ExecutionResult, CpuError>(
            ExecutionResult { retired: 1, trap: None, memory_access: true },
        ) && (after.registers@, after.csrs@, after.privilege, after.pc) == committed(
            before.registers@,
            before.csrs@,
            before.privilege,
            done,
        ),
        Ok(MemoryEvent::Stall(_)) => r == Ok::<ExecutionResult, CpuError>(
            ExecutionResult { retired: 0, trap: None, memory_access: true },
        ) && unchanged,
        Ok(MemoryEvent::Trap(t)) => r == Ok::<ExecutionResult, CpuError>(
            ExecutionResult { retired: 0, trap: Some(t), memory_access: true },
        ) && trap_taken(&before, &after, t, decoded.pc),
        Err(e) => r == Err::<ExecutionResult, CpuError>(CpuError::Bus(e)) && unchanged,
    }
}

/// How executing `decoded` to completion takes the hart `before` to `after`
/// with result `r`: the execute stage's outcome on the register values; a
/// trap is taken at the instruction; an instruction without a memory access
/// commits at once; a load or store completes as its memory stage ended,
/// for some answer of the bus.
pub open spec fn execution(before: HartState, after: HartState, decoded: DecodedInstruction, r: Result<
    ExecutionResult,
    CpuError,
>) -> bool {
    let rs1_value = source_value(before.registers@, decoded.rs1);
    let rs2_value = source_value(before.registers@, decoded.rs2);
    &&& after.registers@.len() == 32
    &&& after.halted == before.halted
    &&& after.reset_vector == before.reset_vector
    &&& match execute_spec(decoded, rs1_value, rs2_value, before.privilege, before.csrs@) {
        ExecuteEvent::Trap(t) => {
            &&& r == Ok::<ExecutionResult, CpuError>(ExecutionResult { retired: 0, trap: Some(t), memory_access: false })
            &&& trap_taken(&before, &after, t, decoded.pc)
        },
        ExecuteEvent::Advance(o) => if !spec_uses_memory(decoded) {
            &&& r == Ok::<ExecutionResult, CpuError>(ExecutionResult { retired: 1, trap: None, memory_access: false })
            &&& (after.registers@, after.csrs@, after.privilege, after.pc) == committed(
                before.registers@,
                before.csrs@,
                before.privilege,
                passed_through(payload_of(decoded, o)),
            )
        } else {
            exists|event: Result<MemoryEvent, BusError>|
                #[trigger] mem_stage::memory_outcome(before.csrs@, before.privilege, payload_of(decoded, o), event)
                    && memory_completion(before, after, decoded, event, r)
        },
    }
}

/// Execute one decoded instruction to completion against the hart: execute,
/// then the memory access if any, then write-back. A busy bus or an
/// unfinished page walk leaves the hart unchanged so the instruction can be
/// retried.
pub fn execute_decoded<B: Bus>(
    state: &mut HartState,
    walker: &mut PageWalker,
    bus: &mut B,
    decoded: DecodedInstruction,
) -> (r: Result<ExecutionResult, CpuError>)
    requires
        decoded.register_fields_valid(),
        old(state).registers@.len() == 32,
    ensures
        execution(*old(state), *final(state), decoded, r),
        (r matches Ok(res) && !res.memory_access) ==> *final(bus) == *old(bus),
        old(bus).spec_keeps_log() ==> final(bus).spec_keeps_log() && log_grows(old(bus).spec_log(), final(bus).spec_log()),
{
    let rs1_value = match decoded.rs1 {
        Some(r) => state.registers.read(r),
        None => state.registers.read(0),
    };
    let rs2_value = match decoded.rs2 {
        Some(r) => state.registers.read(r),
        None => state.registers.read(0),
    };
    let outcome = match ex_stage::execute(decoded, rs1_value, rs2_value, state.privilege, &state.csrs) {
        ExecuteEvent::Trap(trap) => return Ok(apply_trap(state, trap, decoded.pc)),
        ExecuteEvent::Advance(outcome) => outcome,
    };
    let payload = ExMemPayload {
        decoded,
        writeback_value: outcome.writeback_value,
        csr_write: outcome.csr_write,
        translation_fence: outcome.translation_fence,
        memory_address: outcome.memory_address,
        store_value: outcome.store_value,
        next_pc: outcome.next_pc,
    };
    let memory_access = ex_stage::uses_memory(decoded);
    let answer = mem_stage::access(bus, walker, &state.csrs, state.privilege, payload);
    proof {
        if spec_uses_memory(decoded) {
            assert(mem_stage::memory_outcome(state.csrs@, state.privilege, payload, answer));
        }
    }
    let event = match answer {
        Ok(event) => event,
        Err(error) => return Err(CpuError::Bus(error)),
    };
    match event {
        MemoryEvent::Advance(done) => {
            let _commit = wb_stage::write_back(state, walker, done);
            Ok(ExecutionResult { retired: 1, trap: None, memory_access })
        },
        MemoryEvent::Stall(_) => Ok(ExecutionResult { retired: 0, trap: None, memory_access: true }),
        MemoryEvent::Trap(trap) => {
            let result = apply_trap(state, trap, decoded.pc);
            Ok(ExecutionResult { memory_access: true, ..result })
        },
    }
}

} // verus!
