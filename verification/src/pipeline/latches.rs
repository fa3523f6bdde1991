//! Latch contents carried between pipeline stages.

use vstd::prelude::*;
use crate::exec::csr::CsrWrite;
use crate::instruction::DecodedInstruction;
use crate::pipeline::ex_stage::TranslationFence;

verus! {

/// IF-stage payload carried into decode.
#[derive(Debug, Clone, Copy, PartialEq, Eq, Structural)]
pub struct IfIdPayload {
    pub pc: u32,
    pub raw: u32,
    pub predicted_pc: u32,
    pub predicted_taken: bool,
}

/// IF/ID latch state.
#[derive(Debug, Clone, Copy, PartialEq, Eq, Structural)]
pub struct IfIdLatch {
    pub payload: Option<IfIdPayload>,
}

/// ID-stage payload carried into execute.
#[derive(Debug, Clone, Copy, PartialEq, Eq, Structural)]
pub struct IdExPayload {
    pub decoded: DecodedInstruction,
    pub rs1_value: u32,
    pub rs2_value: u32,
    pub predicted_pc: u32,
    pub predicted_taken: bool,
}

/// ID/EX latch state.
#[derive(Debug, Clone, Copy, PartialEq, Eq, Structural)]
pub struct IdExLatch {
    pub payload: Option<IdExPayload>,
}

/// EX-stage payload carried into memory.
#[derive(Debug, Clone, Copy, PartialEq, Eq, Structural)]
pub struct ExMemPayload {
    pub decoded: DecodedInstruction,
    pub writeback_value: Option<u32>,
    pub csr_write: Option<CsrWrite>,
    pub translation_fence: Option<TranslationFence>,
    pub memory_address: Option<u32>,
    pub store_value: u32,
    pub next_pc: u32,
}

/// EX/MEM latch state.
#[derive(Debug, Clone, Copy, PartialEq, Eq, Structural)]
pub struct ExMemLatch {
    pub payload: Option<ExMemPayload>,
}

/// MEM-stage payload carried into writeback.
#[derive(Debug, Clone, Copy, PartialEq, Eq, Structural)]
pub struct MemWbPayload {
    pub decoded: DecodedInstruction,
    pub writeback_value: Option<u32>,
    pub csr_write: Option<CsrWrite>,
    pub translation_fence: Option<TranslationFence>,
    pub next_pc: u32,
}

/// MEM/WB latch state.
#[derive(Debug, Clone, Copy, PartialEq, Eq, Structural)]
pub struct MemWbLatch {
    pub payload: Option<MemWbPayload>,
}

/// Full latch set for the five-stage pipeline.
#[derive(Debug, Clone, Copy, PartialEq, Eq, Structural)]
pub struct PipelineLatches {
    pub if_id: IfIdLatch,
    pub id_ex: IdExLatch,
    pub ex_mem: ExMemLatch,
    pub mem_wb: MemWbLatch,
}

impl PipelineLatches {
    /// Every latch empty.
    pub open spec fn empty() -> PipelineLatches {
        PipelineLatches {
            if_id: IfIdLatch { payload: None },
            id_ex: IdExLatch { payload: None },
            ex_mem: ExMemLatch { payload: None },
            mem_wb: MemWbLatch { payload: None },
        }
    }
}

impl Default for IfIdLatch {
    fn default() -> (l: Self)
        ensures
            l.payload is None,
    {
        IfIdLatch { payload: None }
    }
}

impl Default for IdExLatch {
    fn default() -> (l: Self)
        ensures
            l.payload is None,
    {
        IdExLatch { payload: None }
    }
}

impl Default for ExMemLatch {
    fn default() -> (l: Self)
        ensures
            l.payload is None,
    {
        ExMemLatch { payload: None }
    }
}

impl Default for MemWbLatch {
    fn default() -> (l: Self)
        ensures
            l.payload is None,
    {
        MemWbLatch { payload: None }
    }
}

impl Default for PipelineLatches {
    fn default() -> (l: Self)
        ensures
            l == PipelineLatches::empty(),
    {
        PipelineLatches {
            if_id: IfIdLatch { payload: None },
            id_ex: IdExLatch { payload: None },
            ex_mem: ExMemLatch { payload: None },
            mem_wb: MemWbLatch { payload: None },
        }
    }
}

} // verus!
