//! Architectural state visible at instruction boundaries.

use vstd::prelude::*;
use crate::csr_address::CsrAddress;
use crate::csr_file::{CsrFile, CsrModel};
use crate::privilege::PrivilegeMode;
use crate::registers::RegisterFile;

verus! {

/// The architectural state of one hart.
#[derive(Debug, PartialEq, Eq)]
pub struct HartState {
    pub reset_vector: u32,
    pub pc: u32,
    pub registers: RegisterFile,
    pub csrs: CsrFile,
    pub privilege: PrivilegeMode,
    pub halted: bool,
}

/// The CSR file right after reset: trap vectors point at the reset vector.
pub open spec fn reset_csrs(reset_vector: u32) -> CsrModel {
    CsrModel::zero().write(CsrAddress::Mtvec, reset_vector).write(CsrAddress::Stvec, reset_vector)
}

impl HartState {
    /// The reset vector the hart restarts from.
    pub open spec fn spec_reset_vector(&self) -> u32 {
        self.reset_vector
    }

    /// Whether the hart is in its power-on state for `reset_vector`.
    pub open spec fn is_reset(&self, reset_vector: u32) -> bool {
        &&& self.spec_reset_vector() == reset_vector
        &&& self.pc == reset_vector
        &&& self.registers@ == Seq::new(32, |i: int| 0u32)
        &&& self.csrs@ == reset_csrs(reset_vector)
        &&& self.privilege == PrivilegeMode::Machine
        &&& !self.halted
    }

    /// A hart at its reset vector in machine mode.
    pub fn new(reset_vector: u32) -> (s: Self)
        ensures
            s.is_reset(reset_vector),
    {
        let mut state = HartState {
            reset_vector,
            pc: reset_vector,
            registers: RegisterFile::zeroed(),
            csrs: CsrFile::default(),
            privilege: PrivilegeMode::Machine,
            halted: false,
        };
        state.csrs.write(CsrAddress::Mtvec, reset_vector);
        state.csrs.write(CsrAddress::Stvec, reset_vector);
        state
    }

    /// Return to the power-on state for a (possibly new) reset vector.
    pub fn reset(&mut self, reset_vector: u32)
        ensures
            final(self).is_reset(reset_vector),
    {
        self.reset_vector = reset_vector;
        self.pc = reset_vector;
        self.registers = RegisterFile::zeroed();
        self.csrs = CsrFile::default();
        self.csrs.write(CsrAddress::Mtvec, reset_vector);
        self.csrs.write(CsrAddress::Stvec, reset_vector);
        self.privilege = PrivilegeMode::Machine;
        self.halted = false;
    }

    /// The reset vector.
    pub fn reset_vector(&self) -> (v: u32)
        ensures
            v == self.spec_reset_vector(),
    {
        self.reset_vector
    }
}

} // verus!
