//! Evaluation of CSR read/modify/write instructions.

use vstd::prelude::*;
use crate::csr_address::CsrAddress;
use crate::csr_file::{CsrFile, CsrModel};
use crate::instruction::DecodedInstruction;
use crate::opcode::{CsrOp, InstructionKind};

verus! {

/// A deferred CSR side effect applied at commit.
#[derive(Debug, Clone, Copy, PartialEq, Eq, Structural)]
pub struct CsrWrite {
    pub address: CsrAddress,
    pub value: u32,
}

/// Read result plus optional write for one CSR instruction.
#[derive(Debug, Clone, Copy, PartialEq, Eq, Structural)]
pub struct CsrOutcome {
    pub read_value: u32,
    pub write: Option<CsrWrite>,
}

/// The write a CSR operation performs: the source itself for the write forms,
/// the current value with the source bits set or cleared for the set and
/// clear forms, and no write at all when a set/clear source is zero.
pub open spec fn csr_write_value(op: CsrOp, current: u32, source: u32) -> Option<u32> {
    match op {
        CsrOp::ReadWrite | CsrOp::ReadWriteImmediate => Some(source),
        CsrOp::ReadSet | CsrOp::ReadSetImmediate => if source == 0 { None } else { Some(current | source) },
        CsrOp::ReadClear | CsrOp::ReadClearImmediate => if source == 0 {
            None
        } else {
            Some(current & !source)
        },
    }
}

/// The source operand: the 5-bit immediate held in the rs1 field for the
/// immediate forms, the rs1 register value otherwise.
pub open spec fn csr_source(op: CsrOp, rs1: Option<u8>, rs1_value: u32) -> u32 {
    match op {
        CsrOp::ReadWriteImmediate | CsrOp::ReadSetImmediate | CsrOp::ReadClearImmediate => match rs1 {
            Some(r) => r as u32,
            None => 0,
        },
        _ => rs1_value,
    }
}

/// The outcome of a CSR instruction against the committed CSR values, or
/// `None` for an instruction that is not a CSR instruction with an address.
pub open spec fn csr_outcome(decoded: DecodedInstruction, csrs: CsrModel, rs1_value: u32) -> Option<CsrOutcome> {
    match (decoded.kind, decoded.csr) {
        (InstructionKind::Csr(op), Some(address)) => {
            let current = csrs.read(address);
            let source = csr_source(op, decoded.rs1, rs1_value);
            Some(
                CsrOutcome {
                    read_value: current,
                    write: match csr_write_value(op, current, source) {
                        Some(v) => Some(CsrWrite { address, value: v }),
                        None => None,
                    },
                },
            )
        },
        _ => None,
    }
}

fn write_value(op: CsrOp, address: CsrAddress, current_value: u32, source: u32) -> (w: Option<CsrWrite>)
    ensures
        w == (match csr_write_value(op, current_value, source) {
            Some(v) => Some(CsrWrite { address, value: v }),
            None => None,
        }),
{
    let value = match op {
        CsrOp::ReadWrite | CsrOp::ReadWriteImmediate => Some(source),
        CsrOp::ReadSet | CsrOp::ReadSetImmediate => {
            if source == 0 {
                None
            } else {
                Some(current_value | source)
            }
        },
        CsrOp::ReadClear | CsrOp::ReadClearImmediate => {
            if source == 0 {
                None
            } else {
                Some(current_value & !source)
            }
        },
    };
    match value {
        Some(v) => Some(CsrWrite { address, value: v }),
        None => None,
    }
}

/// Evaluate one CSR instruction using the committed CSR file.
pub fn execute(decoded: DecodedInstruction, csrs: &CsrFile, rs1_value: u32) -> (r: Option<CsrOutcome>)
    ensures
        r == csr_outcome(decoded, csrs@, rs1_value),
{
    let op = match decoded.kind {
        InstructionKind::Csr(op) => op,
        _ => return None,
    };
    let address = match decoded.csr {
        Some(a) => a,
        None => return None,
    };
    let current_value = csrs.read(address);
    let source = match op {
        CsrOp::ReadWriteImmediate | CsrOp::ReadSetImmediate | CsrOp::ReadClearImmediate => {
            match decoded.rs1 {
                Some(r) => r as u32,
                None => 0,
            }
        },
        CsrOp::ReadWrite | CsrOp::ReadSet | CsrOp::ReadClear => rs1_value,
    };
    let write = write_value(op, address, current_value, source);
    Some(CsrOutcome { read_value: current_value, write })
}

/// Bit by bit, CSRRC/CSRRCI with a non-zero source write the current value
/// with every source bit cleared and every other bit kept, CSRRS/CSRRSI
/// write it with every source bit set and every other bit kept, and with a
/// zero source neither writes; CSRRW/CSRRWI write the source unchanged.
pub proof fn csr_write_bits(op: CsrOp, current: u32, source: u32, bit: u32)
    requires
        bit < 32,
    ensures
        (op is ReadClear || op is ReadClearImmediate) && source != 0 ==> (csr_write_value(op, current, source) matches Some(w)
            && (w >> bit) & 1 == (if (source >> bit) & 1 == 1 { 0 } else { (current >> bit) & 1 })),
        (op is ReadSet || op is ReadSetImmediate) && source != 0 ==> (csr_write_value(op, current, source) matches Some(w)
            && (w >> bit) & 1 == (if (source >> bit) & 1 == 1 { 1 } else { (current >> bit) & 1 })),
        (op is ReadClear || op is ReadClearImmediate || op is ReadSet || op is ReadSetImmediate) && source == 0
            ==> csr_write_value(op, current, source) is None,
        (op is ReadWrite || op is ReadWriteImmediate) ==> csr_write_value(op, current, source) == Some(source),
{
    assert(((current & !source) >> bit) & 1 == (if (source >> bit) & 1 == 1 { 0 } else { (current >> bit) & 1 })
        && ((current | source) >> bit) & 1 == (if (source >> bit) & 1 == 1 { 1 } else { (current >> bit) & 1 }))
        by (bit_vector)
        requires bit < 32;
}

/// CSRRC on a CSR reads its current value and, with a non-zero source in
/// rs1, writes back that value with the source's bits cleared: no source
/// bit survives and every other bit is the current one.
pub proof fn csrrc_clears_source_bits(decoded: DecodedInstruction, csrs: CsrModel, rs1_value: u32, address: CsrAddress)
    requires
        decoded.kind == InstructionKind::Csr(CsrOp::ReadClear),
        decoded.csr == Some(address),
        rs1_value != 0,
    ensures
        csr_outcome(decoded, csrs, rs1_value) matches Some(o) && o.read_value == csrs.read(address) && (o.write matches Some(w)
            && w.address == address && (w.value & rs1_value) == 0 && (w.value | rs1_value) == (csrs.read(address) | rs1_value)),
{
    let c = csrs.read(address);
    assert((c & !rs1_value) & rs1_value == 0 && ((c & !rs1_value) | rs1_value) == c | rs1_value) by (bit_vector);
}

} // verus!
