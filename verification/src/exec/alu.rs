//! The RV32I integer ALU.

use vstd::prelude::*;
use crate::opcode::AluOp;

verus! {

/// A 32-bit word read as a two's-complement signed integer.
pub open spec fn signed(x: u32) -> int {
    if x >= 0x8000_0000 { x - 0x1_0000_0000 } else { x as int }
}

/// Arithmetic shift right: the logical shift with the vacated high bits
/// filled by copies of the sign bit.
pub open spec fn spec_sra(x: u32, shift: u32) -> u32 {
    (x >> shift) | (if x & 0x8000_0000 != 0 { !(0xffff_ffffu32 >> shift) } else { 0 })
}

/// The result of an ALU operation; shift amounts use the low five bits of `rhs`.
pub open spec fn alu_result(op: AluOp, lhs: u32, rhs: u32) -> u32 {
    match op {
        AluOp::Add => vstd::wrapping::u32_specs::wrapping_add(lhs, rhs),
        AluOp::Sub => vstd::wrapping::u32_specs::wrapping_sub(lhs, rhs),
        AluOp::And => lhs & rhs,
        AluOp::Or => lhs | rhs,
        AluOp::Xor => lhs ^ rhs,
        AluOp::Sll => lhs << (rhs & 0x1f),
        AluOp::Slt => if signed(lhs) < signed(rhs) { 1 } else { 0 },
        AluOp::Sltu => if lhs < rhs { 1 } else { 0 },
        AluOp::Srl => lhs >> (rhs & 0x1f),
        AluOp::Sra => spec_sra(lhs, rhs & 0x1f),
    }
}

/// Signed less-than on two's-complement words.
pub fn signed_less_than(lhs: u32, rhs: u32) -> (b: bool)
    ensures
        b == (signed(lhs) < signed(rhs)),
{
    let lhs_negative = lhs >= 0x8000_0000;
    let rhs_negative = rhs >= 0x8000_0000;
    if lhs_negative != rhs_negative {
        lhs_negative
    } else {
        lhs < rhs
    }
}

/// Execute one RV32I ALU operation.
pub fn execute_alu(op: AluOp, lhs: u32, rhs: u32) -> (r: u32)
    ensures
        r == alu_result(op, lhs, rhs),
{
    let shift = rhs & 0x1f;
    assert(shift < 32) by (bit_vector)
        requires shift == rhs & 0x1f;
    match op {
        AluOp::Add => lhs.wrapping_add(rhs),
        AluOp::Sub => lhs.wrapping_sub(rhs),
        AluOp::And => lhs & rhs,
        AluOp::Or => lhs | rhs,
        AluOp::Xor => lhs ^ rhs,
        AluOp::Sll => lhs << shift,
        AluOp::Slt => if signed_less_than(lhs, rhs) { 1 } else { 0 },
        AluOp::Sltu => if lhs < rhs { 1 } else { 0 },
        AluOp::Srl => lhs >> shift,
        AluOp::Sra => {
            let fill = if lhs & 0x8000_0000 != 0 { !(0xffff_ffffu32 >> shift) } else { 0 };
            (lhs >> shift) | fill
        },
    }
}

/// SLT compares its operands as two's-complement 32-bit integers: the
/// result is 1 exactly when `lhs` is less than `rhs` read as `i32`, else 0.
pub proof fn slt_is_signed_less_than(lhs: u32, rhs: u32)
    ensures
        alu_result(AluOp::Slt, lhs, rhs) == (if (lhs as i32) < (rhs as i32) { 1u32 } else { 0u32 }),
{
    lemma_signed_order(lhs, rhs);
}

/// Reading words with `signed` orders them as `i32` does.
pub proof fn lemma_signed_order(lhs: u32, rhs: u32)
    ensures
        (signed(lhs) < signed(rhs)) == ((lhs as i32) < (rhs as i32)),
{
    assert(((lhs as i32) < (rhs as i32)) == ((if lhs >= 0x8000_0000u32 { lhs - 0x1_0000_0000int } else { lhs as int })
        < (if rhs >= 0x8000_0000u32 { rhs - 0x1_0000_0000int } else { rhs as int }))) by (bit_vector);
}

/// SLT and SLTU agree when the operands have the same sign bit and give
/// opposite answers when the sign bits differ.
pub proof fn slt_and_sltu_differ_exactly_on_sign(lhs: u32, rhs: u32)
    ensures
        ((lhs >> 31) == (rhs >> 31)) ==> alu_result(AluOp::Slt, lhs, rhs) == alu_result(AluOp::Sltu, lhs, rhs),
        ((lhs >> 31) != (rhs >> 31)) ==> alu_result(AluOp::Slt, lhs, rhs) + alu_result(AluOp::Sltu, lhs, rhs) == 1,
{
    lemma_sign_bits(lhs, rhs);
}

/// Two words have the same top bit exactly when both or neither are at
/// least 2^31.
pub proof fn lemma_sign_bits(lhs: u32, rhs: u32)
    ensures
        (lhs >> 31) == (rhs >> 31) <==> ((lhs >= 0x8000_0000u32) == (rhs >= 0x8000_0000u32)),
{
    assert((lhs >> 31) == (rhs >> 31) <==> ((lhs >= 0x8000_0000u32) == (rhs >= 0x8000_0000u32))) by (bit_vector);
}

/// ADD and SUB wrap modulo 2^32 and undo each other; SLTU compares the
/// words as unsigned integers; SRA shifts the word as an `i32`, copying the
/// sign bit, and SRL as a `u32`, both by the low five bits of `rhs`.
pub proof fn alu_arithmetic_laws(lhs: u32, rhs: u32)
    ensures
        alu_result(AluOp::Add, lhs, rhs) as int == (lhs as int + rhs as int) % 0x1_0000_0000,
        alu_result(AluOp::Sub, alu_result(AluOp::Add, lhs, rhs), rhs) == lhs,
        alu_result(AluOp::Sltu, lhs, rhs) == (if (lhs as int) < (rhs as int) { 1u32 } else { 0u32 }),
        #[verifier::truncate] (alu_result(AluOp::Sra, lhs, rhs) as i32) == (#[verifier::truncate] (lhs as i32)) >> (rhs & 31),
        alu_result(AluOp::Srl, lhs, rhs) == lhs >> (rhs & 31),
        alu_result(AluOp::Sll, lhs, rhs) == lhs << (rhs & 31),
        alu_result(AluOp::Xor, alu_result(AluOp::Xor, lhs, rhs), rhs) == lhs,
{
    let shift = rhs & 31;
    assert(shift == rhs & 0x1f && spec_sra(lhs, shift) as i32 == (lhs as i32) >> shift && (lhs ^ rhs) ^ rhs == lhs)
        by (bit_vector)
        requires shift == rhs & 31;
}

} // verus!
