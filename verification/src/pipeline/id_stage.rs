//! The decode stage.

use vstd::prelude::*;
use crate::decode::{DecodeError, decode, spec_decode};
use crate::instruction::DecodedInstruction;

verus! {

/// Decode one fetched instruction word.
pub fn decode_stage(raw: u32, pc: u32) -> (r: Result<DecodedInstruction, DecodeError>)
    ensures
        r == spec_decode(raw, pc),
        r matches Ok(d) ==> d.register_fields_valid() && d.raw.0 == raw && d.pc == pc,
{
    decode(raw, pc)
}

} // verus!
