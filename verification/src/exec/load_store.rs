//! Address generation and load extension.

use vstd::prelude::*;
use crate::exec::branch::pc_relative;

verus! {

/// A byte sign-extended to a word.
pub open spec fn byte_sign_extended(value: u8) -> u32 {
    if value >= 0x80 { (value as u32 + 0xffff_ff00) as u32 } else { value as u32 }
}

/// A half-word sign-extended to a word.
pub open spec fn half_sign_extended(value: u16) -> u32 {
    if value >= 0x8000 { (value as u32 + 0xffff_0000) as u32 } else { value as u32 }
}

/// The effective address `base + offset`, wrapping.
pub fn effective_address(base: u32, offset: i32) -> (a: u32)
    ensures
        a == pc_relative(base, offset),
{
    base.wrapping_add_signed(offset)
}

/// Sign-extend an 8-bit load into a 32-bit register result.
pub fn sign_extend_byte(value: u8) -> (r: u32)
    ensures
        r == byte_sign_extended(value),
{
    if value >= 0x80 {
        value as u32 + 0xffff_ff00
    } else {
        value as u32
    }
}

/// Sign-extend a 16-bit load into a 32-bit register result.
pub fn sign_extend_half(value: u16) -> (r: u32)
    ensures
        r == half_sign_extended(value),
{
    if value >= 0x8000 {
        value as u32 + 0xffff_0000
    } else {
        value as u32
    }
}

} // verus!
