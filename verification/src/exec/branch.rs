//! Conditional branch evaluation.

use vstd::prelude::*;
use crate::decode::spec_decode;
use crate::exec::alu::{lemma_sign_bits, lemma_signed_order, signed, signed_less_than};
use crate::opcode::{BranchKind, InstructionKind};

verus! {

/// Whether a branch condition holds for the two operands.
pub open spec fn branch_condition(kind: BranchKind, lhs: u32, rhs: u32) -> bool {
    match kind {
        BranchKind::Beq => lhs == rhs,
        BranchKind::Bne => lhs != rhs,
        BranchKind::Blt => signed(lhs) < signed(rhs),
        BranchKind::Bge => signed(lhs) >= signed(rhs),
        BranchKind::Bltu => lhs < rhs,
        BranchKind::Bgeu => lhs >= rhs,
    }
}

/// `pc + imm`, wrapping around the 32-bit address space.
pub open spec fn pc_relative(pc: u32, imm: i32) -> u32 {
    vstd::wrapping::u32_specs::wrapping_add_signed(pc, imm)
}

/// Return whether a conditional branch should be taken.
pub fn branch_taken(kind: BranchKind, lhs: u32, rhs: u32) -> (b: bool)
    ensures
        b == branch_condition(kind, lhs, rhs),
{
    match kind {
        BranchKind::Beq => lhs == rhs,
        BranchKind::Bne => lhs != rhs,
        BranchKind::Blt => signed_less_than(lhs, rhs),
        BranchKind::Bge => !signed_less_than(lhs, rhs),
        BranchKind::Bltu => lhs < rhs,
        BranchKind::Bgeu => lhs >= rhs,
    }
}

/// The branch destination relative to the current program counter.
pub fn branch_target(pc: u32, imm: i32) -> (t: u32)
    ensures
        t == pc_relative(pc, imm),
{
    pc.wrapping_add_signed(imm)
}

/// A B-type word (opcode 0x63) decodes to a branch taken, as the RV32I
/// table gives for its funct3, when the operands are equal (0), differ (1),
/// are signed less (4) or signed greater or equal (5), or unsigned less (6)
/// or unsigned greater or equal (7); funct3 2 and 3 are no branch.
pub proof fn decoded_branch_condition(raw: u32, pc: u32, lhs: u32, rhs: u32)
    requires
        raw & 0x7f == 0x63,
    ensures
        ((raw >> 12) & 7 == 2 || (raw >> 12) & 7 == 3) ==> spec_decode(raw, pc) is Err,
        !((raw >> 12) & 7 == 2 || (raw >> 12) & 7 == 3) ==> (spec_decode(raw, pc) matches Ok(d) && d.kind matches InstructionKind::Branch(k)
            && branch_condition(k, lhs, rhs) == (if (raw >> 12) & 7 == 0 {
            lhs == rhs
        } else if (raw >> 12) & 7 == 1 {
            lhs != rhs
        } else if (raw >> 12) & 7 == 4 {
            (lhs as i32) < (rhs as i32)
        } else if (raw >> 12) & 7 == 5 {
            (lhs as i32) >= (rhs as i32)
        } else if (raw >> 12) & 7 == 6 {
            lhs < rhs
        } else {
            lhs >= rhs
        })),
{
    lemma_signed_order(lhs, rhs);
    let f3 = (raw >> 12) & 7;
    assert(f3 < 8) by (bit_vector)
        requires f3 == (raw >> 12) & 7;
    assert(f3 == 0 || f3 == 1 || f3 == 2 || f3 == 3 || f3 == 4 || f3 == 5 || f3 == 6 || f3 == 7);
}

/// The unsigned branches are complements, as are the signed ones, and the
/// signed and unsigned less-than disagree exactly when the sign bits differ.
pub proof fn branch_conditions_relate(lhs: u32, rhs: u32)
    ensures
        branch_condition(BranchKind::Bltu, lhs, rhs) != branch_condition(BranchKind::Bgeu, lhs, rhs),
        branch_condition(BranchKind::Blt, lhs, rhs) != branch_condition(BranchKind::Bge, lhs, rhs),
        branch_condition(BranchKind::Bltu, lhs, rhs) ==> !branch_condition(BranchKind::Bltu, rhs, lhs),
        ((lhs >> 31) != (rhs >> 31)) ==> branch_condition(BranchKind::Blt, lhs, rhs) != branch_condition(
            BranchKind::Bltu,
            lhs,
            rhs,
        ),
{
    lemma_sign_bits(lhs, rhs);
}

} // verus!
