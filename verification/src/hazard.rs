//! Control, data and structural hazard detection.

use vstd::prelude::*;

verus! {

/// Control hazard status for a resolved branch.
#[derive(Debug, Clone, Copy, PartialEq, Eq, Structural)]
pub struct ControlHazardStatus {
    pub flush_required: bool,
}

/// Flush when the predicted and actual next pcs diverge.
pub fn detect_branch_flush(predicted_pc: u32, actual_pc: u32) -> (s: ControlHazardStatus)
    ensures
        s.flush_required == (predicted_pc != actual_pc),
{
    ControlHazardStatus { flush_required: predicted_pc != actual_pc }
}

/// Result of a read-after-write check between a producer and the next consumer.
#[derive(Debug, Clone, Copy, PartialEq, Eq, Structural)]
pub struct DataHazardStatus {
    pub stall: bool,
}

impl Default for DataHazardStatus {
    fn default() -> (s: Self)
        ensures
            !s.stall,
    {
        DataHazardStatus { stall: false }
    }
}

/// Stall when the consumer reads the non-zero register the producer writes.
pub fn detect_raw_hazard(producer_rd: Option<u8>, consumer_rs1: Option<u8>, consumer_rs2: Option<u8>) -> (s: DataHazardStatus)
    ensures
        s.stall == (producer_rd matches Some(p) && p != 0 && (consumer_rs1 == Some(p) || consumer_rs2
            == Some(p))),
{
    let producer = match producer_rd {
        Some(p) => p,
        None => return DataHazardStatus { stall: false },
    };
    let rs1_hit = match consumer_rs1 {
        Some(r) => r == producer,
        None => false,
    };
    let rs2_hit = match consumer_rs2 {
        Some(r) => r == producer,
        None => false,
    };
    DataHazardStatus { stall: producer != 0 && (rs1_hit || rs2_hit) }
}

/// Structural hazard policy of the machine configuration.
#[derive(Debug, Clone, Copy, PartialEq, Eq, Structural)]
pub struct StructuralHazardPolicy {
    pub unified_memory: bool,
}

impl Default for StructuralHazardPolicy {
    fn default() -> (p: Self)
        ensures
            p.unified_memory,
    {
        StructuralHazardPolicy { unified_memory: true }
    }
}

/// In a unified-memory machine, instruction fetch conflicts with a data access in the same cycle.
pub fn fetch_blocked_by_memory_access(unified_memory: bool, memory_stage_accessed: bool) -> (b: bool)
    ensures
        b == (unified_memory && memory_stage_accessed),
{
    unified_memory && memory_stage_accessed
}

} // verus!
