//! Commit records, flush reasons, statistics and per-cycle traces of the pipeline.

use vstd::prelude::*;
use crate::exception::Trap;
use crate::exec::csr::CsrWrite;
use crate::opcode::InstructionKind;

verus! {

/// One instruction leaving the write-back stage.
#[derive(Debug, Clone, Copy, PartialEq, Eq, Structural)]
pub struct CommitEvent {
    pub pc: u32,
    pub next_pc: u32,
    pub kind: InstructionKind,
    pub destination: Option<u8>,
    pub value: Option<u32>,
    pub csr_write: Option<CsrWrite>,
}

/// Why younger instructions were squashed.
#[derive(Debug, Clone, Copy, PartialEq, Eq, Structural)]
pub enum FlushReason {
    BranchRedirect,
    Trap,
    ReturnFromTrap,
    TranslationBarrier,
}

/// Cumulative pipeline counters.
#[derive(Debug, Clone, Copy, PartialEq, Eq, Structural)]
pub struct PipelineStats {
    pub cycles: u64,
    pub retired_instructions: u64,
    pub fetch_stall_cycles: u64,
    pub decode_stall_cycles: u64,
    pub flush_cycles: u64,
    pub predicted_taken_fetches: u64,
    pub branch_flushes: u64,
    pub trap_flushes: u64,
    pub return_flushes: u64,
    pub translation_barrier_flushes: u64,
    pub trap_count: u64,
}

impl PipelineStats {
    /// Every counter zero.
    pub open spec fn zero() -> PipelineStats {
        PipelineStats {
            cycles: 0,
            retired_instructions: 0,
            fetch_stall_cycles: 0,
            decode_stall_cycles: 0,
            flush_cycles: 0,
            predicted_taken_fetches: 0,
            branch_flushes: 0,
            trap_flushes: 0,
            return_flushes: 0,
            translation_barrier_flushes: 0,
            trap_count: 0,
        }
    }

    /// No counter exceeds the cycle count: each counts at most once per cycle.
    pub open spec fn bounded(self) -> bool {
        &&& self.retired_instructions <= self.cycles
        &&& self.fetch_stall_cycles <= self.cycles
        &&& self.decode_stall_cycles <= self.cycles
        &&& self.flush_cycles <= self.cycles
        &&& self.predicted_taken_fetches <= self.cycles
        &&& self.branch_flushes <= self.cycles
        &&& self.trap_flushes <= self.cycles
        &&& self.return_flushes <= self.cycles
        &&& self.translation_barrier_flushes <= self.cycles
        &&& self.trap_count <= self.cycles
    }
}

impl PipelineStats {
    /// `next` is one cycle later than `self`, and every other counter grew by zero or one.
    pub open spec fn one_cycle_later(self, next: PipelineStats) -> bool {
        &&& next.cycles == self.cycles + 1
        &&& self.retired_instructions <= next.retired_instructions <= self.retired_instructions + 1
        &&& self.fetch_stall_cycles <= next.fetch_stall_cycles <= self.fetch_stall_cycles + 1
        &&& self.decode_stall_cycles <= next.decode_stall_cycles <= self.decode_stall_cycles + 1
        &&& self.flush_cycles <= next.flush_cycles <= self.flush_cycles + 1
        &&& self.predicted_taken_fetches <= next.predicted_taken_fetches <= self.predicted_taken_fetches + 1
        &&& self.branch_flushes <= next.branch_flushes <= self.branch_flushes + 1
        &&& self.trap_flushes <= next.trap_flushes <= self.trap_flushes + 1
        &&& self.return_flushes <= next.return_flushes <= self.return_flushes + 1
        &&& self.translation_barrier_flushes <= next.translation_barrier_flushes
            <= self.translation_barrier_flushes + 1
        &&& self.trap_count <= next.trap_count <= self.trap_count + 1
    }
}

/// One for an event that happened, zero otherwise.
pub open spec fn tally(happened: bool) -> int {
    if happened { 1 } else { 0 }
}

impl PipelineStats {
    /// `next` is one cycle later than `self`, each counter having counted
    /// what the cycle reported in `trace`: the instructions it retired, a
    /// fetch or decode stall, a flush and its reason, a taken prediction
    /// and a trap.
    pub open spec fn counted(self, next: PipelineStats, trace: PipelineTrace) -> bool {
        &&& next.cycles == self.cycles + 1
        &&& next.retired_instructions == self.retired_instructions + trace.retired_instructions
        &&& next.fetch_stall_cycles == self.fetch_stall_cycles + tally(trace.fetch_stalled)
        &&& next.decode_stall_cycles == self.decode_stall_cycles + tally(trace.decode_stalled)
        &&& next.flush_cycles == self.flush_cycles + tally(trace.flushed)
        &&& next.predicted_taken_fetches == self.predicted_taken_fetches + tally(trace.predicted_taken)
        &&& next.branch_flushes == self.branch_flushes + tally(trace.flush_reason == Some(FlushReason::BranchRedirect))
        &&& next.trap_flushes == self.trap_flushes + tally(trace.flush_reason == Some(FlushReason::Trap))
        &&& next.return_flushes == self.return_flushes + tally(trace.flush_reason == Some(FlushReason::ReturnFromTrap))
        &&& next.translation_barrier_flushes == self.translation_barrier_flushes + tally(
            trace.flush_reason == Some(FlushReason::TranslationBarrier),
        )
        &&& next.trap_count == self.trap_count + tally(trace.trap is Some)
    }
}

impl Default for PipelineStats {
    fn default() -> (s: Self)
        ensures
            s == PipelineStats::zero(),
    {
        PipelineStats {
            cycles: 0,
            retired_instructions: 0,
            fetch_stall_cycles: 0,
            decode_stall_cycles: 0,
            flush_cycles: 0,
            predicted_taken_fetches: 0,
            branch_flushes: 0,
            trap_flushes: 0,
            return_flushes: 0,
            translation_barrier_flushes: 0,
            trap_count: 0,
        }
    }
}

/// What the pipeline did in one cycle.
#[derive(Debug, Clone, Copy, PartialEq, Eq)]
pub struct PipelineTrace {
    pub cycle: u64,
    pub fetched_pc: Option<u32>,
    pub decode_pc: Option<u32>,
    pub execute_pc: Option<u32>,
    pub memory_pc: Option<u32>,
    pub writeback_pc: Option<u32>,
    pub commit: Option<CommitEvent>,
    pub trap: Option<Trap>,
    pub flush_reason: Option<FlushReason>,
    pub retired_instructions: u64,
    pub predicted_taken: bool,
    pub fetch_stalled: bool,
    pub decode_stalled: bool,
    pub flushed: bool,
    pub note: &'static str,
}

impl Default for PipelineTrace {
    fn default() -> (t: Self)
        ensures
            t.cycle == 0 && t.fetched_pc is None && t.commit is None && t.trap is None
                && t.flush_reason is None && t.retired_instructions == 0 && !t.flushed,
    {
        PipelineTrace {
            cycle: 0,
            fetched_pc: None,
            decode_pc: None,
            execute_pc: None,
            memory_pc: None,
            writeback_pc: None,
            commit: None,
            trap: None,
            flush_reason: None,
            retired_instructions: 0,
            predicted_taken: false,
            fetch_stalled: false,
            decode_stalled: false,
            flushed: false,
            note: "",
        }
    }
}

} // verus!
