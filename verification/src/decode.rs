//! Instruction decoding for RV32I plus the privileged system instructions.

use vstd::prelude::*;
use crate::csr_address::{CsrAddress, csr_from_number};
use crate::instruction::{DecodedInstruction, InstructionWord};
use crate::opcode::{AluOp, BranchKind, CsrOp, InstructionKind, LoadKind, StoreKind, SystemKind};

verus! {

/// Returned when the decoder meets an instruction outside the model.
#[derive(Debug, Clone, Copy, PartialEq, Eq, Structural)]
pub struct DecodeError {
    raw: u32,
}

impl DecodeError {
    /// The raw word that failed to decode.
    pub closed spec fn spec_raw(self) -> u32 {
        self.raw
    }

    /// The error reported for an undecodable word.
    pub closed spec fn for_word(raw: u32) -> DecodeError {
        DecodeError { raw }
    }

    /// An error for the given instruction word.
    pub fn new(raw: u32) -> (e: Self)
        ensures
            e.spec_raw() == raw,
            e == DecodeError::for_word(raw),
    {
        DecodeError { raw }
    }

    /// The instruction word that failed to decode.
    pub fn raw(self) -> (r: u32)
        ensures
            r == self.spec_raw(),
    {
        self.raw
    }
}

/// Bits 6:0.
pub open spec fn field_opcode(raw: u32) -> u32 {
    raw & 0x7f
}

/// Bits 11:7.
pub open spec fn field_rd(raw: u32) -> u32 {
    (raw >> 7) & 0x1f
}

/// Bits 14:12.
pub open spec fn field_funct3(raw: u32) -> u32 {
    (raw >> 12) & 0x7
}

/// Bits 19:15.
pub open spec fn field_rs1(raw: u32) -> u32 {
    (raw >> 15) & 0x1f
}

/// Bits 24:20.
pub open spec fn field_rs2(raw: u32) -> u32 {
    (raw >> 20) & 0x1f
}

/// Bits 31:25.
pub open spec fn field_funct7(raw: u32) -> u32 {
    (raw >> 25) & 0x7f
}

/// The I-type immediate: bits 31:20, sign-extended from 12 bits.
pub open spec fn imm_i_value(raw: u32) -> int {
    let v = (raw >> 20) as int;
    if v >= 2048 { v - 4096 } else { v }
}

/// The unsigned 12-bit S-type immediate field: bits 31:25 above bits 11:7.
pub open spec fn imm_s_bits(raw: u32) -> u32 {
    ((raw >> 7) & 0x1f) | (((raw >> 25) & 0x7f) << 5)
}

/// The S-type immediate, sign-extended from 12 bits.
pub open spec fn imm_s_value(raw: u32) -> int {
    let v = imm_s_bits(raw) as int;
    if v >= 2048 { v - 4096 } else { v }
}

/// The unsigned 13-bit B-type offset: bit 31 at 12, bit 7 at 11, bits 30:25 at 10:5, bits 11:8 at 4:1.
pub open spec fn imm_b_bits(raw: u32) -> u32 {
    (((raw >> 8) & 0x0f) << 1) | (((raw >> 25) & 0x3f) << 5) | (((raw >> 7) & 0x01) << 11) | (((raw
        >> 31) & 0x01) << 12)
}

/// The B-type immediate, sign-extended from 13 bits.
pub open spec fn imm_b_value(raw: u32) -> int {
    let v = imm_b_bits(raw) as int;
    if v >= 4096 { v - 8192 } else { v }
}

/// The U-type immediate: bits 31:12 with the low 12 bits clear, as a signed word.
pub open spec fn imm_u_value(raw: u32) -> int {
    let v = (raw & 0xffff_f000) as int;
    if v >= 0x8000_0000 { v - 0x1_0000_0000 } else { v }
}

/// The unsigned 21-bit J-type offset: bit 31 at 20, bits 19:12 at 19:12, bit 20 at 11, bits 30:21 at 10:1.
pub open spec fn imm_j_bits(raw: u32) -> u32 {
    (((raw >> 21) & 0x03ff) << 1) | (((raw >> 20) & 0x0001) << 11) | (((raw >> 12) & 0x00ff) << 12)
        | (((raw >> 31) & 0x0001) << 20)
}

/// The J-type immediate, sign-extended from 21 bits.
pub open spec fn imm_j_value(raw: u32) -> int {
    let v = imm_j_bits(raw) as int;
    if v >= 0x10_0000 { v - 0x20_0000 } else { v }
}

/// The branch condition selected by funct3.
pub open spec fn branch_kind_of(funct3: u32) -> Option<BranchKind> {
    if funct3 == 0 { Some(BranchKind::Beq) }
    else if funct3 == 1 { Some(BranchKind::Bne) }
    else if funct3 == 4 { Some(BranchKind::Blt) }
    else if funct3 == 5 { Some(BranchKind::Bge) }
    else if funct3 == 6 { Some(BranchKind::Bltu) }
    else if funct3 == 7 { Some(BranchKind::Bgeu) }
    else { None }
}

/// The load width selected by funct3.
pub open spec fn load_kind_of(funct3: u32) -> Option<LoadKind> {
    if funct3 == 0 { Some(LoadKind::Byte) }
    else if funct3 == 1 { Some(LoadKind::Half) }
    else if funct3 == 2 { Some(LoadKind::Word) }
    else if funct3 == 4 { Some(LoadKind::ByteUnsigned) }
    else if funct3 == 5 { Some(LoadKind::HalfUnsigned) }
    else { None }
}

/// The store width selected by funct3.
pub open spec fn store_kind_of(funct3: u32) -> Option<StoreKind> {
    if funct3 == 0 { Some(StoreKind::Byte) }
    else if funct3 == 1 { Some(StoreKind::Half) }
    else if funct3 == 2 { Some(StoreKind::Word) }
    else { None }
}

/// The ALU operation of an OP-IMM instruction; shifts require funct7 to be 0 (or 0x20 for SRAI).
pub open spec fn op_imm_kind_of(funct3: u32, funct7: u32) -> Option<AluOp> {
    if funct3 == 0 { Some(AluOp::Add) }
    else if funct3 == 2 { Some(AluOp::Slt) }
    else if funct3 == 3 { Some(AluOp::Sltu) }
    else if funct3 == 4 { Some(AluOp::Xor) }
    else if funct3 == 6 { Some(AluOp::Or) }
    else if funct3 == 7 { Some(AluOp::And) }
    else if funct3 == 1 && funct7 == 0 { Some(AluOp::Sll) }
    else if funct3 == 5 && funct7 == 0 { Some(AluOp::Srl) }
    else if funct3 == 5 && funct7 == 0x20 { Some(AluOp::Sra) }
    else { None }
}

/// The ALU operation of an OP instruction.
pub open spec fn op_kind_of(funct3: u32, funct7: u32) -> Option<AluOp> {
    if funct7 == 0 {
        if funct3 == 0 { Some(AluOp::Add) }
        else if funct3 == 1 { Some(AluOp::Sll) }
        else if funct3 == 2 { Some(AluOp::Slt) }
        else if funct3 == 3 { Some(AluOp::Sltu) }
        else if funct3 == 4 { Some(AluOp::Xor) }
        else if funct3 == 5 { Some(AluOp::Srl) }
        else if funct3 == 6 { Some(AluOp::Or) }
        else { Some(AluOp::And) }
    } else if funct7 == 0x20 {
        if funct3 == 0 { Some(AluOp::Sub) }
        else if funct3 == 5 { Some(AluOp::Sra) }
        else { None }
    } else {
        None
    }
}

/// The CSR operation selected by funct3 of a SYSTEM instruction.
pub open spec fn csr_op_of(funct3: u32) -> Option<CsrOp> {
    if funct3 == 1 { Some(CsrOp::ReadWrite) }
    else if funct3 == 2 { Some(CsrOp::ReadSet) }
    else if funct3 == 3 { Some(CsrOp::ReadClear) }
    else if funct3 == 5 { Some(CsrOp::ReadWriteImmediate) }
    else if funct3 == 6 { Some(CsrOp::ReadSetImmediate) }
    else if funct3 == 7 { Some(CsrOp::ReadClearImmediate) }
    else { None }
}

/// The non-CSR SYSTEM instruction encoded by a whole word.
pub open spec fn system_kind_of(raw: u32) -> Option<SystemKind> {
    if raw == 0x0000_0073 { Some(SystemKind::Ecall) }
    else if raw == 0x0010_0073 { Some(SystemKind::Ebreak) }
    else if raw == 0x3020_0073 { Some(SystemKind::Mret) }
    else if raw == 0x1020_0073 { Some(SystemKind::Sret) }
    else if raw == 0x1050_0073 { Some(SystemKind::Wfi) }
    else if field_funct7(raw) == 0x09 && field_funct3(raw) == 0 && field_rd(raw) == 0 {
        Some(SystemKind::SfenceVma)
    }
    else { None }
}

/// Shorthand for building the decoded form of a word.
pub open spec fn decoded(
    raw: u32,
    pc: u32,
    kind: InstructionKind,
    rd: Option<u8>,
    rs1: Option<u8>,
    rs2: Option<u8>,
    imm: int,
    csr: Option<CsrAddress>,
) -> DecodedInstruction {
    DecodedInstruction { raw: InstructionWord(raw), pc, kind, rd, rs1, rs2, imm: imm as i32, csr }
}

/// What a 32-bit instruction word at `pc` decodes to.
pub open spec fn spec_decode(raw: u32, pc: u32) -> Result<DecodedInstruction, DecodeError> {
    let op = field_opcode(raw);
    let rd = Some(field_rd(raw) as u8);
    let rs1 = Some(field_rs1(raw) as u8);
    let rs2 = Some(field_rs2(raw) as u8);
    let f3 = field_funct3(raw);
    let f7 = field_funct7(raw);
    let err = Err(DecodeError::for_word(raw));
    if op == 0x37 {
        Ok(decoded(raw, pc, InstructionKind::Lui, rd, None, None, imm_u_value(raw), None))
    } else if op == 0x17 {
        Ok(decoded(raw, pc, InstructionKind::Auipc, rd, None, None, imm_u_value(raw), None))
    } else if op == 0x6f {
        Ok(decoded(raw, pc, InstructionKind::Jal, rd, None, None, imm_j_value(raw), None))
    } else if op == 0x67 {
        if f3 == 0 {
            Ok(decoded(raw, pc, InstructionKind::Jalr, rd, rs1, None, imm_i_value(raw), None))
        } else {
            err
        }
    } else if op == 0x63 {
        match branch_kind_of(f3) {
            Some(k) => Ok(decoded(raw, pc, InstructionKind::Branch(k), None, rs1, rs2, imm_b_value(raw), None)),
            None => err,
        }
    } else if op == 0x03 {
        match load_kind_of(f3) {
            Some(k) => Ok(decoded(raw, pc, InstructionKind::Load(k), rd, rs1, None, imm_i_value(raw), None)),
            None => err,
        }
    } else if op == 0x23 {
        match store_kind_of(f3) {
            Some(k) => Ok(decoded(raw, pc, InstructionKind::Store(k), None, rs1, rs2, imm_s_value(raw), None)),
            None => err,
        }
    } else if op == 0x13 {
        match op_imm_kind_of(f3, f7) {
            Some(k) => Ok(decoded(raw, pc, InstructionKind::OpImm(k), rd, rs1, None, imm_i_value(raw), None)),
            None => err,
        }
    } else if op == 0x33 {
        match op_kind_of(f3, f7) {
            Some(k) => Ok(decoded(raw, pc, InstructionKind::Op(k), rd, rs1, rs2, 0, None)),
            None => err,
        }
    } else if op == 0x73 {
        match csr_op_of(f3) {
            Some(k) => match csr_from_number((raw >> 20) as u16) {
                Some(a) => Ok(decoded(raw, pc, InstructionKind::Csr(k), rd, rs1, None, 0, Some(a))),
                None => err,
            },
            None => match system_kind_of(raw) {
                Some(SystemKind::SfenceVma) => Ok(
                    decoded(raw, pc, InstructionKind::System(SystemKind::SfenceVma), None, rs1, rs2, 0, None),
                ),
                Some(k) => Ok(decoded(raw, pc, InstructionKind::System(k), None, None, None, 0, None)),
                None => err,
            },
        }
    } else {
        err
    }
}

fn decode_branch(funct3: u32) -> (r: Option<BranchKind>)
    ensures
        r == branch_kind_of(funct3),
{
    if funct3 == 0 { Some(BranchKind::Beq) }
    else if funct3 == 1 { Some(BranchKind::Bne) }
    else if funct3 == 4 { Some(BranchKind::Blt) }
    else if funct3 == 5 { Some(BranchKind::Bge) }
    else if funct3 == 6 { Some(BranchKind::Bltu) }
    else if funct3 == 7 { Some(BranchKind::Bgeu) }
    else { None }
}

fn decode_load(funct3: u32) -> (r: Option<LoadKind>)
    ensures
        r == load_kind_of(funct3),
{
    if funct3 == 0 { Some(LoadKind::Byte) }
    else if funct3 == 1 { Some(LoadKind::Half) }
    else if funct3 == 2 { Some(LoadKind::Word) }
    else if funct3 == 4 { Some(LoadKind::ByteUnsigned) }
    else if funct3 == 5 { Some(LoadKind::HalfUnsigned) }
    else { None }
}

fn decode_store(funct3: u32) -> (r: Option<StoreKind>)
    ensures
        r == store_kind_of(funct3),
{
    if funct3 == 0 { Some(StoreKind::Byte) }
    else if funct3 == 1 { Some(StoreKind::Half) }
    else if funct3 == 2 { Some(StoreKind::Word) }
    else { None }
}

fn decode_op_imm(funct3: u32, funct7: u32) -> (r: Option<AluOp>)
    ensures
        r == op_imm_kind_of(funct3, funct7),
{
    if funct3 == 0 { Some(AluOp::Add) }
    else if funct3 == 2 { Some(AluOp::Slt) }
    else if funct3 == 3 { Some(AluOp::Sltu) }
    else if funct3 == 4 { Some(AluOp::Xor) }
    else if funct3 == 6 { Some(AluOp::Or) }
    else if funct3 == 7 { Some(AluOp::And) }
    else if funct3 == 1 && funct7 == 0 { Some(AluOp::Sll) }
    else if funct3 == 5 && funct7 == 0 { Some(AluOp::Srl) }
    else if funct3 == 5 && funct7 == 0x20 { Some(AluOp::Sra) }
    else { None }
}

fn decode_op(funct3: u32, funct7: u32) -> (r: Option<AluOp>)
    requires
        funct3 < 8,
    ensures
        r == op_kind_of(funct3, funct7),
{
    if funct7 == 0 {
        if funct3 == 0 { Some(AluOp::Add) }
        else if funct3 == 1 { Some(AluOp::Sll) }
        else if funct3 == 2 { Some(AluOp::Slt) }
        else if funct3 == 3 { Some(AluOp::Sltu) }
        else if funct3 == 4 { Some(AluOp::Xor) }
        else if funct3 == 5 { Some(AluOp::Srl) }
        else if funct3 == 6 { Some(AluOp::Or) }
        else { Some(AluOp::And) }
    } else if funct7 == 0x20 {
        if funct3 == 0 { Some(AluOp::Sub) }
        else if funct3 == 5 { Some(AluOp::Sra) }
        else { None }
    } else {
        None
    }
}

fn decode_csr_op(funct3: u32) -> (r: Option<CsrOp>)
    ensures
        r == csr_op_of(funct3),
{
    if funct3 == 1 { Some(CsrOp::ReadWrite) }
    else if funct3 == 2 { Some(CsrOp::ReadSet) }
    else if funct3 == 3 { Some(CsrOp::ReadClear) }
    else if funct3 == 5 { Some(CsrOp::ReadWriteImmediate) }
    else if funct3 == 6 { Some(CsrOp::ReadSetImmediate) }
    else if funct3 == 7 { Some(CsrOp::ReadClearImmediate) }
    else { None }
}

fn decode_system(raw: u32) -> (r: Option<SystemKind>)
    ensures
        r == system_kind_of(raw),
{
    if raw == 0x0000_0073 { Some(SystemKind::Ecall) }
    else if raw == 0x0010_0073 { Some(SystemKind::Ebreak) }
    else if raw == 0x3020_0073 { Some(SystemKind::Mret) }
    else if raw == 0x1020_0073 { Some(SystemKind::Sret) }
    else if raw == 0x1050_0073 { Some(SystemKind::Wfi) }
    else if (raw >> 25) & 0x7f == 0x09 && (raw >> 12) & 0x7 == 0 && (raw >> 7) & 0x1f == 0 {
        Some(SystemKind::SfenceVma)
    }
    else { None }
}

fn imm_i(raw: u32) -> (imm: i32)
    ensures
        imm as int == imm_i_value(raw),
{
    let v = raw >> 20;
    assert(v < 4096) by (bit_vector)
        requires v == raw >> 20;
    let v = v as i32;
    if v >= 2048 { v - 4096 } else { v }
}

fn imm_s(raw: u32) -> (imm: i32)
    ensures
        imm as int == imm_s_value(raw),
{
    let v = ((raw >> 7) & 0x1f) | (((raw >> 25) & 0x7f) << 5);
    assert(v < 4096) by (bit_vector)
        requires v == ((raw >> 7) & 0x1f) | (((raw >> 25) & 0x7f) << 5);
    let v = v as i32;
    if v >= 2048 { v - 4096 } else { v }
}

pub(crate) fn imm_b(raw: u32) -> (imm: i32)
    ensures
        imm as int == imm_b_value(raw),
{
    let v = (((raw >> 8) & 0x0f) << 1) | (((raw >> 25) & 0x3f) << 5) | (((raw >> 7) & 0x01) << 11)
        | (((raw >> 31) & 0x01) << 12);
    assert(v < 8192) by (bit_vector)
        requires
            v == (((raw >> 8) & 0x0f) << 1) | (((raw >> 25) & 0x3f) << 5) | (((raw >> 7) & 0x01)
                << 11) | (((raw >> 31) & 0x01) << 12);
    let v = v as i32;
    if v >= 4096 { v - 8192 } else { v }
}

fn imm_u(raw: u32) -> (imm: i32)
    ensures
        imm as int == imm_u_value(raw),
{
    let v = raw & 0xffff_f000;
    if v >= 0x8000_0000 {
        let low = (v - 0x8000_0000) as i32;
        low - 0x4000_0000 - 0x4000_0000
    } else {
        v as i32
    }
}

pub(crate) fn imm_j(raw: u32) -> (imm: i32)
    ensures
        imm as int == imm_j_value(raw),
{
    let v = (((raw >> 21) & 0x03ff) << 1) | (((raw >> 20) & 0x0001) << 11) | (((raw >> 12) & 0x00ff)
        << 12) | (((raw >> 31) & 0x0001) << 20);
    assert(v < 0x20_0000) by (bit_vector)
        requires
            v == (((raw >> 21) & 0x03ff) << 1) | (((raw >> 20) & 0x0001) << 11) | (((raw >> 12)
                & 0x00ff) << 12) | (((raw >> 31) & 0x0001) << 20);
    let v = v as i32;
    if v >= 0x10_0000 { v - 0x20_0000 } else { v }
}

/// Register fields are five bits wide.
proof fn lemma_field_bounds(raw: u32)
    ensures
        field_rd(raw) < 32,
        field_rs1(raw) < 32,
        field_rs2(raw) < 32,
        field_funct3(raw) < 8,
        field_funct7(raw) < 128,
        field_opcode(raw) < 128,
        (raw >> 20) < 0x1000,
{
    assert({
        &&& (raw >> 7) & 0x1f < 32
        &&& (raw >> 15) & 0x1f < 32
        &&& (raw >> 20) & 0x1f < 32
        &&& (raw >> 12) & 0x7 < 8
        &&& (raw >> 25) & 0x7f < 128
        &&& raw & 0x7f < 128
        &&& raw >> 20 < 0x1000
    }) by (bit_vector);
}

/// Decoding names only registers x0..x31.
pub proof fn lemma_decoded_register_fields(raw: u32, pc: u32)
    ensures
        spec_decode(raw, pc) matches Ok(d) ==> d.register_fields_valid(),
{
    lemma_field_bounds(raw);
}

/// Decode a 32-bit instruction word fetched from `pc`.
pub fn decode(raw: u32, pc: u32) -> (r: Result<DecodedInstruction, DecodeError>)
    ensures
        r == spec_decode(raw, pc),
        r matches Ok(d) ==> d.raw.0 == raw && d.pc == pc,
        r matches Err(e) ==> e.spec_raw() == raw,
        r matches Ok(d) ==> d.register_fields_valid(),
{
    proof {
        lemma_decoded_register_fields(raw, pc);
    }
    proof {
        lemma_field_bounds(raw);
    }
    let opcode = raw & 0x7f;
    let rd = ((raw >> 7) & 0x1f) as u8;
    let funct3 = (raw >> 12) & 0x7;
    let rs1 = ((raw >> 15) & 0x1f) as u8;
    let rs2 = ((raw >> 20) & 0x1f) as u8;
    let funct7 = (raw >> 25) & 0x7f;

    if opcode == 0x37 {
        Ok(DecodedInstruction::new(raw, pc, InstructionKind::Lui, Some(rd), None, None, imm_u(raw), None))
    } else if opcode == 0x17 {
        Ok(DecodedInstruction::new(raw, pc, InstructionKind::Auipc, Some(rd), None, None, imm_u(raw), None))
    } else if opcode == 0x6f {
        Ok(DecodedInstruction::new(raw, pc, InstructionKind::Jal, Some(rd), None, None, imm_j(raw), None))
    } else if opcode == 0x67 {
        if funct3 == 0 {
            Ok(DecodedInstruction::new(raw, pc, InstructionKind::Jalr, Some(rd), Some(rs1), None, imm_i(raw), None))
        } else {
            Err(DecodeError::new(raw))
        }
    } else if opcode == 0x63 {
        match decode_branch(funct3) {
            Some(k) => Ok(DecodedInstruction::new(raw, pc, InstructionKind::Branch(k), None, Some(rs1), Some(rs2), imm_b(raw), None)),
            None => Err(DecodeError::new(raw)),
        }
    } else if opcode == 0x03 {
        match decode_load(funct3) {
            Some(k) => Ok(DecodedInstruction::new(raw, pc, InstructionKind::Load(k), Some(rd), Some(rs1), None, imm_i(raw), None)),
            None => Err(DecodeError::new(raw)),
        }
    } else if opcode == 0x23 {
        match decode_store(funct3) {
            Some(k) => Ok(DecodedInstruction::new(raw, pc, InstructionKind::Store(k), None, Some(rs1), Some(rs2), imm_s(raw), None)),
            None => Err(DecodeError::new(raw)),
        }
    } else if opcode == 0x13 {
        match decode_op_imm(funct3, funct7) {
            Some(k) => Ok(DecodedInstruction::new(raw, pc, InstructionKind::OpImm(k), Some(rd), Some(rs1), None, imm_i(raw), None)),
            None => Err(DecodeError::new(raw)),
        }
    } else if opcode == 0x33 {
        match decode_op(funct3, funct7) {
            Some(k) => Ok(DecodedInstruction::new(raw, pc, InstructionKind::Op(k), Some(rd), Some(rs1), Some(rs2), 0, None)),
            None => Err(DecodeError::new(raw)),
        }
    } else if opcode == 0x73 {
        match decode_csr_op(funct3) {
            Some(k) => match CsrAddress::from_number((raw >> 20) as u16) {
                Ok(a) => Ok(DecodedInstruction::new(raw, pc, InstructionKind::Csr(k), Some(rd), Some(rs1), None, 0, Some(a))),
                Err(_) => Err(DecodeError::new(raw)),
            },
            None => match decode_system(raw) {
                Some(SystemKind::SfenceVma) => Ok(DecodedInstruction::new(raw, pc, InstructionKind::System(SystemKind::SfenceVma), None, Some(rs1), Some(rs2), 0, None)),
                Some(k) => Ok(DecodedInstruction::new(raw, pc, InstructionKind::System(k), None, None, None, 0, None)),
                None => Err(DecodeError::new(raw)),
            },
        }
    } else {
        Err(DecodeError::new(raw))
    }
}

/// In a B-type word (opcode 0x63), funct3 6 names the unsigned less-than
/// branch BLTU and funct3 7 the unsigned greater-or-equal branch BGEU.
pub proof fn unsigned_branch_encodings(raw: u32, pc: u32)
    requires
        raw & 0x7f == 0x63,
    ensures
        (raw >> 12) & 7 == 6 ==> (spec_decode(raw, pc) matches Ok(d) && d.kind == InstructionKind::Branch(BranchKind::Bltu)),
        (raw >> 12) & 7 == 7 ==> (spec_decode(raw, pc) matches Ok(d) && d.kind == InstructionKind::Branch(BranchKind::Bgeu)),
{
}

} // verus!
