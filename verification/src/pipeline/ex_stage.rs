//! The execute stage: ALU results, branch resolution, address generation,
//! CSR evaluation and the privilege checks of system instructions.

use vstd::prelude::*;
use crate::csr_address::{CsrAddress, csr_number};
use crate::csr_file::{CsrFile, CsrModel, MSTATUS_TSR, MSTATUS_TVM, MSTATUS_TW};
use crate::exception::{Exception, Trap};
use crate::exec::alu::{alu_result, execute_alu};
use crate::exec::branch::{branch_condition, branch_taken, branch_target, pc_relative};
use crate::exec::csr::{self, CsrWrite, csr_outcome};
use crate::exec::load_store::effective_address;
use crate::instruction::DecodedInstruction;
use crate::opcode::{AluOp, InstructionKind, SystemKind};
use crate::privilege::PrivilegeMode;

verus! {

/// Metadata produced by execute-stage classification.
#[derive(Debug, Clone, Copy, PartialEq, Eq, Structural)]
pub struct ExecuteMetadata {
    pub memory_access: bool,
    pub branch_target: Option<u32>,
}

impl Default for ExecuteMetadata {
    fn default() -> (m: Self)
        ensures
            m == (ExecuteMetadata { memory_access: false, branch_target: None }),
    {
        ExecuteMetadata { memory_access: false, branch_target: None }
    }
}

/// The TLB entries an `sfence.vma` selects: `None` stands for every address
/// (rs1 = x0) or every address space (rs2 = x0).
#[derive(Debug, Clone, Copy, PartialEq, Eq, Structural)]
pub struct TranslationFence {
    pub virtual_address: Option<u32>,
    pub asid: Option<u32>,
}

/// Everything the execute stage hands to the memory stage.
#[derive(Debug, Clone, Copy, PartialEq, Eq, Structural)]
pub struct ExecuteOutcome {
    pub writeback_value: Option<u32>,
    pub csr_write: Option<CsrWrite>,
    pub translation_fence: Option<TranslationFence>,
    pub memory_address: Option<u32>,
    pub store_value: u32,
    pub next_pc: u32,
}

/// Result of the execute stage: the instruction proceeds, or it traps.
#[derive(Debug, Clone, Copy, PartialEq, Eq, Structural)]
pub enum ExecuteEvent {
    Advance(ExecuteOutcome),
    Trap(Trap),
}

/// The address of the next sequential instruction.
pub open spec fn fallthrough(pc: u32) -> u32 {
    vstd::wrapping::u32_specs::wrapping_add(pc, 4)
}

/// The control-transfer target of a branch or jump, `None` for a branch not
/// taken and for every other instruction.
pub open spec fn branch_destination(decoded: DecodedInstruction, rs1_value: u32, rs2_value: u32) -> Option<u32> {
    match decoded.kind {
        InstructionKind::Branch(kind) => if branch_condition(kind, rs1_value, rs2_value) {
            Some(pc_relative(decoded.pc, decoded.imm))
        } else {
            None
        },
        InstructionKind::Jal => Some(pc_relative(decoded.pc, decoded.imm)),
        InstructionKind::Jalr => Some(pc_relative(rs1_value, decoded.imm) & !1u32),
        _ => None,
    }
}

/// Whether the instruction goes through the memory stage.
pub open spec fn spec_uses_memory(decoded: DecodedInstruction) -> bool {
    decoded.kind is Load || decoded.kind is Store
}

/// Whether the instruction produces a register result at write-back.
pub open spec fn spec_writes_back(decoded: DecodedInstruction) -> bool {
    decoded.rd is Some && match decoded.kind {
        InstructionKind::Branch(_) | InstructionKind::Store(_) | InstructionKind::System(_) => false,
        _ => true,
    }
}

/// Whether bits 11:10 of the CSR number mark it read-only.
pub open spec fn read_only_csr(address: CsrAddress) -> bool {
    (csr_number(address) as int / 1024) % 4 == 3
}

/// The trap raised for an instruction the current privilege may not execute.
pub open spec fn illegal(decoded: DecodedInstruction) -> Trap {
    Trap::Exception(Exception::IllegalInstruction { instruction: decoded.raw.0 })
}

/// The environment-call exception for the privilege that executes `ecall`.
pub open spec fn ecall_exception(privilege: PrivilegeMode) -> Exception {
    match privilege {
        PrivilegeMode::User => Exception::EnvironmentCallFromUMode,
        PrivilegeMode::Supervisor => Exception::EnvironmentCallFromSMode,
        PrivilegeMode::Machine => Exception::EnvironmentCallFromMMode,
    }
}

/// The second ALU operand of an immediate instruction: the shift-amount
/// field for shifts, the sign-extended immediate otherwise.
pub open spec fn op_imm_operand(decoded: DecodedInstruction, op: AluOp) -> u32 {
    match op {
        AluOp::Sll | AluOp::Srl | AluOp::Sra => decoded.raw.0 >> 20,
        _ => decoded.imm as u32,
    }
}

/// An outcome that only writes `value` (if any) and falls through.
pub open spec fn simple_outcome(pc: u32, value: Option<u32>, next_pc: u32) -> ExecuteOutcome {
    ExecuteOutcome {
        writeback_value: value,
        csr_write: None,
        translation_fence: None,
        memory_address: None,
        store_value: 0,
        next_pc,
    }
}

/// What the execute stage does with one instruction, its forwarded operands,
/// the current privilege and the committed CSR values.
pub open spec fn execute_spec(
    decoded: DecodedInstruction,
    rs1_value: u32,
    rs2_value: u32,
    privilege: PrivilegeMode,
    csrs: CsrModel,
) -> ExecuteEvent {
    let pc = decoded.pc;
    let next = fallthrough(pc);
    let tvm = csrs.machine.mstatus & MSTATUS_TVM != 0;
    match decoded.kind {
        InstructionKind::Lui => ExecuteEvent::Advance(simple_outcome(pc, Some(decoded.imm as u32), next)),
        InstructionKind::Auipc => ExecuteEvent::Advance(
            simple_outcome(pc, Some(pc_relative(pc, decoded.imm)), next),
        ),
        InstructionKind::Jal => ExecuteEvent::Advance(
            simple_outcome(pc, Some(next), pc_relative(pc, decoded.imm)),
        ),
        InstructionKind::Jalr => ExecuteEvent::Advance(
            simple_outcome(pc, Some(next), pc_relative(rs1_value, decoded.imm) & !1u32),
        ),
        InstructionKind::Branch(kind) => ExecuteEvent::Advance(
            simple_outcome(
                pc,
                None,
                if branch_condition(kind, rs1_value, rs2_value) {
                    pc_relative(pc, decoded.imm)
                } else {
                    next
                },
            ),
        ),
        InstructionKind::Load(_) => ExecuteEvent::Advance(
            ExecuteOutcome {
                memory_address: Some(pc_relative(rs1_value, decoded.imm)),
                ..simple_outcome(pc, None, next)
            },
        ),
        InstructionKind::Store(_) => ExecuteEvent::Advance(
            ExecuteOutcome {
                memory_address: Some(pc_relative(rs1_value, decoded.imm)),
                store_value: rs2_value,
                ..simple_outcome(pc, None, next)
            },
        ),
        InstructionKind::OpImm(op) => ExecuteEvent::Advance(
            simple_outcome(pc, Some(alu_result(op, rs1_value, op_imm_operand(decoded, op))), next),
        ),
        InstructionKind::Op(op) => ExecuteEvent::Advance(
            simple_outcome(pc, Some(alu_result(op, rs1_value, rs2_value)), next),
        ),
        InstructionKind::Csr(_) => match decoded.csr {
            None => ExecuteEvent::Trap(illegal(decoded)),
            Some(address) => if !csrs.allows_access(privilege, address) {
                ExecuteEvent::Trap(illegal(decoded))
            } else if address == CsrAddress::Satp && privilege == PrivilegeMode::Supervisor && tvm {
                ExecuteEvent::Trap(illegal(decoded))
            } else {
                match csr_outcome(decoded, csrs, rs1_value) {
                    None => ExecuteEvent::Trap(illegal(decoded)),
                    Some(outcome) => if outcome.write is Some && read_only_csr(address) {
                        ExecuteEvent::Trap(illegal(decoded))
                    } else {
                        ExecuteEvent::Advance(
                            ExecuteOutcome {
                                csr_write: outcome.write,
                                ..simple_outcome(pc, Some(outcome.read_value), next)
                            },
                        )
                    },
                }
            },
        },
        InstructionKind::System(SystemKind::Ecall) => ExecuteEvent::Trap(
            Trap::Exception(ecall_exception(privilege)),
        ),
        InstructionKind::System(SystemKind::Ebreak) => ExecuteEvent::Trap(Trap::Exception(Exception::Breakpoint)),
        InstructionKind::System(SystemKind::SfenceVma) => if privilege == PrivilegeMode::User || (
        privilege == PrivilegeMode::Supervisor && tvm) {
            ExecuteEvent::Trap(illegal(decoded))
        } else {
            ExecuteEvent::Advance(
                ExecuteOutcome {
                    translation_fence: Some(
                        TranslationFence {
                            virtual_address: match decoded.rs1 {
                                Some(r) => if r == 0 { None } else { Some(rs1_value) },
                                None => None,
                            },
                            asid: match decoded.rs2 {
                                Some(r) => if r == 0 { None } else { Some(rs2_value & 0x1ff) },
                                None => None,
                            },
                        },
                    ),
                    ..simple_outcome(pc, None, next)
                },
            )
        },
        InstructionKind::System(SystemKind::Mret) => if privilege != PrivilegeMode::Machine {
            ExecuteEvent::Trap(illegal(decoded))
        } else {
            ExecuteEvent::Advance(simple_outcome(pc, None, csrs.machine.mepc))
        },
        InstructionKind::System(SystemKind::Sret) => if privilege == PrivilegeMode::User || (
        privilege == PrivilegeMode::Supervisor && csrs.machine.mstatus & MSTATUS_TSR != 0) {
            ExecuteEvent::Trap(illegal(decoded))
        } else {
            ExecuteEvent::Advance(simple_outcome(pc, None, csrs.supervisor.sepc))
        },
        InstructionKind::System(SystemKind::Wfi) => if privilege != PrivilegeMode::Machine
            && csrs.machine.mstatus & MSTATUS_TW != 0 {
            ExecuteEvent::Trap(illegal(decoded))
        } else {
            ExecuteEvent::Advance(simple_outcome(pc, None, next))
        },
    }
}

/// Compute branch targets and identify whether a decoded instruction uses the memory stage.
pub fn classify(decoded: DecodedInstruction, rs1_value: u32, rs2_value: u32) -> (m: ExecuteMetadata)
    ensures
        m.memory_access == spec_uses_memory(decoded),
        m.branch_target == branch_destination(decoded, rs1_value, rs2_value),
{
    match decoded.kind {
        InstructionKind::Branch(kind) => ExecuteMetadata {
            memory_access: false,
            branch_target: if branch_taken(kind, rs1_value, rs2_value) {
                Some(branch_target(decoded.pc, decoded.imm))
            } else {
                None
            },
        },
        InstructionKind::Jal => ExecuteMetadata {
            memory_access: false,
            branch_target: Some(branch_target(decoded.pc, decoded.imm)),
        },
        InstructionKind::Jalr => ExecuteMetadata {
            memory_access: false,
            branch_target: Some(effective_address(rs1_value, decoded.imm) & !1u32),
        },
        InstructionKind::Load(_) | InstructionKind::Store(_) => ExecuteMetadata {
            memory_access: true,
            branch_target: None,
        },
        _ => ExecuteMetadata::default(),
    }
}

/// Whether the instruction accesses data memory.
pub fn uses_memory(decoded: DecodedInstruction) -> (b: bool)
    ensures
        b == spec_uses_memory(decoded),
{
    matches!(decoded.kind, InstructionKind::Load(_) | InstructionKind::Store(_))
}

/// Whether the instruction is a load, whose result is known only after the memory stage.
pub fn is_load(decoded: DecodedInstruction) -> (b: bool)
    ensures
        b == decoded.kind is Load,
{
    matches!(decoded.kind, InstructionKind::Load(_))
}

/// Whether the instruction writes a destination register.
pub fn writes_back(decoded: DecodedInstruction) -> (b: bool)
    ensures
        b == spec_writes_back(decoded),
{
    decoded.rd.is_some() && !matches!(
        decoded.kind,
        InstructionKind::Branch(_) | InstructionKind::Store(_) | InstructionKind::System(_)
    )
}

fn advance(value: Option<u32>, next_pc: u32) -> (e: ExecuteEvent)
    ensures
        e == ExecuteEvent::Advance(simple_outcome(0, value, next_pc)),
{
    ExecuteEvent::Advance(
        ExecuteOutcome {
            writeback_value: value,
            csr_write: None,
            translation_fence: None,
            memory_address: None,
            store_value: 0,
            next_pc,
        },
    )
}

fn illegal_instruction(decoded: DecodedInstruction) -> (e: ExecuteEvent)
    ensures
        e == ExecuteEvent::Trap(illegal(decoded)),
{
    ExecuteEvent::Trap(Trap::Exception(Exception::IllegalInstruction { instruction: decoded.raw.0 }))
}

/// Execute one instruction with forwarded operands, checking privilege
/// against the current mode and reading CSRs from the committed file.
pub fn execute(
    decoded: DecodedInstruction,
    rs1_value: u32,
    rs2_value: u32,
    privilege: PrivilegeMode,
    csrs: &CsrFile,
) -> (e: ExecuteEvent)
    ensures
        e == execute_spec(decoded, rs1_value, rs2_value, privilege, csrs@),
{
    let pc = decoded.pc;
    let next = pc.wrapping_add(4);
    match decoded.kind {
        InstructionKind::Lui => advance(Some(decoded.imm as u32), next),
        InstructionKind::Auipc => advance(Some(branch_target(pc, decoded.imm)), next),
        InstructionKind::Jal => advance(Some(next), branch_target(pc, decoded.imm)),
        InstructionKind::Jalr => advance(Some(next), effective_address(rs1_value, decoded.imm) & !1u32),
        InstructionKind::Branch(kind) => {
            if branch_taken(kind, rs1_value, rs2_value) {
                advance(None, branch_target(pc, decoded.imm))
            } else {
                advance(None, next)
            }
        },
        InstructionKind::Load(_) => ExecuteEvent::Advance(
            ExecuteOutcome {
                writeback_value: None,
                csr_write: None,
                translation_fence: None,
                memory_address: Some(effective_address(rs1_value, decoded.imm)),
                store_value: 0,
                next_pc: next,
            },
        ),
        InstructionKind::Store(_) => ExecuteEvent::Advance(
            ExecuteOutcome {
                writeback_value: None,
                csr_write: None,
                translation_fence: None,
                memory_address: Some(effective_address(rs1_value, decoded.imm)),
                store_value: rs2_value,
                next_pc: next,
            },
        ),
        InstructionKind::OpImm(op) => {
            let rhs = match op {
                AluOp::Sll | AluOp::Srl | AluOp::Sra => decoded.raw.0 >> 20,
                _ => decoded.imm as u32,
            };
            advance(Some(execute_alu(op, rs1_value, rhs)), next)
        },
        InstructionKind::Op(op) => advance(Some(execute_alu(op, rs1_value, rs2_value)), next),
        InstructionKind::Csr(_) => {
            let address = match decoded.csr {
                Some(a) => a,
                None => return illegal_instruction(decoded),
            };
            if !csrs.allows_csr_access(privilege, address) {
                return illegal_instruction(decoded);
            }
            if address == CsrAddress::Satp && privilege == PrivilegeMode::Supervisor
                && csrs.tvm_enabled() {
                return illegal_instruction(decoded);
            }
            match csr::execute(decoded, csrs, rs1_value) {
                None => illegal_instruction(decoded),
                Some(outcome) => {
                    if outcome.write.is_some() && address.is_read_only() {
                        illegal_instruction(decoded)
                    } else {
                        ExecuteEvent::Advance(
                            ExecuteOutcome {
                                writeback_value: Some(outcome.read_value),
                                csr_write: outcome.write,
                                translation_fence: None,
                                memory_address: None,
                                store_value: 0,
                                next_pc: next,
                            },
                        )
                    }
                },
            }
        },
        InstructionKind::System(SystemKind::Ecall) => ExecuteEvent::Trap(
            Trap::Exception(
                match privilege {
                    PrivilegeMode::User => Exception::EnvironmentCallFromUMode,
                    PrivilegeMode::Supervisor => Exception::EnvironmentCallFromSMode,
                    PrivilegeMode::Machine => Exception::EnvironmentCallFromMMode,
                },
            ),
        ),
        InstructionKind::System(SystemKind::Ebreak) => ExecuteEvent::Trap(Trap::Exception(Exception::Breakpoint)),
        InstructionKind::System(SystemKind::SfenceVma) => {
            if privilege == PrivilegeMode::User || (privilege == PrivilegeMode::Supervisor
                && csrs.tvm_enabled()) {
                return illegal_instruction(decoded);
            }
            let virtual_address = match decoded.rs1 {
                Some(r) => if r == 0 { None } else { Some(rs1_value) },
                None => None,
            };
            let asid = match decoded.rs2 {
                Some(r) => if r == 0 { None } else { Some(rs2_value & 0x1ff) },
                None => None,
            };
            ExecuteEvent::Advance(
                ExecuteOutcome {
                    writeback_value: None,
                    csr_write: None,
                    translation_fence: Some(TranslationFence { virtual_address, asid }),
                    memory_address: None,
                    store_value: 0,
                    next_pc: next,
                },
            )
        },
        InstructionKind::System(SystemKind::Mret) => {
            if privilege != PrivilegeMode::Machine {
                illegal_instruction(decoded)
            } else {
                advance(None, csrs.read(CsrAddress::Mepc))
            }
        },
        InstructionKind::System(SystemKind::Sret) => {
            if privilege == PrivilegeMode::User || (privilege == PrivilegeMode::Supervisor
                && csrs.tsr_enabled()) {
                illegal_instruction(decoded)
            } else {
                advance(None, csrs.read(CsrAddress::Sepc))
            }
        },
        InstructionKind::System(SystemKind::Wfi) => {
            if privilege != PrivilegeMode::Machine && csrs.tw_enabled() {
                illegal_instruction(decoded)
            } else {
                advance(None, next)
            }
        },
    }
}

} // verus!
