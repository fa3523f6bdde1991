//! Instruction containers passed between decode and execution.

use vstd::prelude::*;
use crate::csr_address::CsrAddress;
use crate::opcode::InstructionKind;

verus! {

/// Raw instruction word fetched from memory.
#[derive(Debug, Clone, Copy, PartialEq, Eq, Structural)]
pub struct InstructionWord(pub u32);

/// A decoded RV32I instruction plus the fields needed by microarchitecture models.
#[derive(Debug, Clone, Copy, PartialEq, Eq, Structural)]
pub struct DecodedInstruction {
    pub raw: InstructionWord,
    pub pc: u32,
    pub kind: InstructionKind,
    pub rd: Option<u8>,
    pub rs1: Option<u8>,
    pub rs2: Option<u8>,
    pub imm: i32,
    pub csr: Option<CsrAddress>,
}

impl DecodedInstruction {
    /// Every register field names one of x0..x31.
    pub open spec fn register_fields_valid(self) -> bool {
        &&& self.rd matches Some(r) ==> r < 32
        &&& self.rs1 matches Some(r) ==> r < 32
        &&& self.rs2 matches Some(r) ==> r < 32
    }

    /// Assemble a decoded instruction from its fields.
    pub fn new(
        raw: u32,
        pc: u32,
        kind: InstructionKind,
        rd: Option<u8>,
        rs1: Option<u8>,
        rs2: Option<u8>,
        imm: i32,
        csr: Option<CsrAddress>,
    ) -> (d: Self)
        ensures
            d == (DecodedInstruction { raw: InstructionWord(raw), pc, kind, rd, rs1, rs2, imm, csr }),
    {
        DecodedInstruction { raw: InstructionWord(raw), pc, kind, rd, rs1, rs2, imm, csr }
    }
}

} // verus!
