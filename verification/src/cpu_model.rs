//! The inspection interface shared by the CPU models, and their fatal errors.

use vstd::prelude::*;
use crate::bus::BusError;
use crate::decode::DecodeError;
use crate::component::Processor;
use crate::hart::HartState;

verus! {

/// Common inspection interface for all CPU models in this crate.
pub trait CpuModel: Processor {
    /// The architectural state of the core's hart.
    spec fn spec_hart(&self) -> HartState;

    fn hart_state(&self) -> (s: &HartState)
        ensures
            *s == self.spec_hart(),
    ;

    /// Editing the hart state changes neither the cycle count nor the
    /// core's well-formedness.
    fn hart_state_mut(&mut self) -> (s: &mut HartState)
        ensures
            *s == old(self).spec_hart(),
            final(self).spec_hart() == *final(s),
            final(self).spec_cycle() == old(self).spec_cycle(),
            final(self).well_formed() == old(self).well_formed(),
    ;

    fn model_name(&self) -> &'static str;
}

/// Fatal CPU errors that stop the simulation.
#[derive(Debug, Clone, Copy, PartialEq, Eq)]
pub enum CpuError {
    Bus(BusError),
    Decode(DecodeError),
}

impl From<BusError> for CpuError {
    fn from(value: BusError) -> (e: Self) {
        CpuError::Bus(value)
    }
}

impl vstd::std_specs::convert::FromSpecImpl<BusError> for CpuError {
    open spec fn obeys_from_spec() -> bool {
        true
    }

    open spec fn from_spec(v: BusError) -> CpuError {
        CpuError::Bus(v)
    }
}

impl From<DecodeError> for CpuError {
    fn from(value: DecodeError) -> (e: Self) {
        CpuError::Decode(value)
    }
}

impl vstd::std_specs::convert::FromSpecImpl<DecodeError> for CpuError {
    open spec fn obeys_from_spec() -> bool {
        true
    }

    open spec fn from_spec(v: DecodeError) -> CpuError {
        CpuError::Decode(v)
    }
}

} // verus!
