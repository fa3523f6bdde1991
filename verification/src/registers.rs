//! Integer register file for RV32I.

use vstd::prelude::*;

verus! {

/// The 32 integer registers; `x0` always reads as zero.
#[derive(Debug, PartialEq, Eq)]
pub struct RegisterFile {
    regs: [u32; 32],
}

impl View for RegisterFile {
    type V = Seq<u32>;

    closed spec fn view(&self) -> Seq<u32> {
        self.regs@
    }
}

impl RegisterFile {
    /// The number of integer registers.
    pub const NUM_REGISTERS: usize = 32;

    #[verifier::type_invariant]
    spec fn inv(self) -> bool {
        self.regs[0] == 0
    }

    /// There are always exactly 32 registers.
    pub proof fn lemma_register_count(&self)
        ensures
            self@.len() == 32,
    {
    }

    /// The value of register `index`.
    pub fn read(&self, index: u8) -> (v: u32)
        requires
            index < 32,
        ensures
            v == self@[index as int],
            index == 0 ==> v == 0,
    {
        proof {
            use_type_invariant(self);
        }
        self.regs[index as usize]
    }

    /// Write `value` to register `index`; writes to `x0` are dropped.
    pub fn write(&mut self, index: u8, value: u32)
        requires
            index < 32,
        ensures
            final(self)@ == (if index == 0 { old(self)@ } else { old(self)@.update(index as int, value) }),
            final(self)@.len() == 32,
            final(self)@[0] == 0,
    {
        proof {
            use_type_invariant(&*self);
        }
        if index != 0 {
            self.regs[index as usize] = value;
        }
        proof {
            use_type_invariant(&*self);
        }
    }

    /// All 32 register values.
    pub fn as_slice(&self) -> (r: &[u32; 32])
        ensures
            r@ == self@,
    {
        &self.regs
    }

    /// A register file with every register zero.
    pub fn zeroed() -> (r: Self)
        ensures
            r@ == Seq::new(32, |i: int| 0u32),
    {
        let r = RegisterFile { regs: [0; 32] };
        assert(r.regs@ =~= Seq::new(32, |i: int| 0u32));
        r
    }
}

impl Clone for RegisterFile {
    fn clone(&self) -> (r: Self)
        ensures
            r@ == self@,
    {
        proof {
            use_type_invariant(self);
        }
        RegisterFile { regs: self.regs }
    }
}

impl Default for RegisterFile {
    fn default() -> (r: Self)
        ensures
            r@ == Seq::new(32, |i: int| 0u32),
    {
        RegisterFile::zeroed()
    }
}

/// Reading a register after writing it gives the written value, except that
/// `x0` stays zero; other registers keep their values.
pub proof fn register_read_after_write(before: RegisterFile, after: RegisterFile, index: u8, value: u32, other: u8)
    requires
        index < 32,
        other < 32,
        other != index,
        before@.len() == 32,
        before@[0] == 0,
        after@ == (if index == 0 { before@ } else { before@.update(index as int, value) }),
    ensures
        after@[index as int] == (if index == 0 { 0 } else { value }),
        after@[other as int] == before@[other as int],
{
}

} // verus!
