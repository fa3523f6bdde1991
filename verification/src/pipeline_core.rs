//! A five-stage in-order pipeline with explicit latches, operand forwarding,
//! hazard detection, branch prediction and precise trap entry at write-back.

use vstd::prelude::*;
use crate::bus::{Bus, aligned_accesses, byte_reads, logged};
use crate::component::{CpuCycle, Processor, SimComponent};
use crate::cpu_model::{CpuError, CpuModel};
use crate::csr_address::CsrAddress;
use crate::exception::{Exception, Trap};
use crate::exec::csr::CsrWrite;
use crate::exec::{ExecutionResult, apply_trap};
use crate::hart::HartState;
use crate::hazard::{DataHazardStatus, StructuralHazardPolicy, detect_branch_flush, detect_raw_hazard, fetch_blocked_by_memory_access};
use crate::instruction::DecodedInstruction;
use crate::decode::spec_decode;
use crate::mmu::{MemoryAccess, PageWalker, TranslationResult, effective_privilege, spec_translation_enabled, translation_without_walk};
use crate::opcode::{InstructionKind, SystemKind};
use crate::pipeline::ex_stage::{self, ExecuteEvent, execute_spec, spec_writes_back};
use crate::pipeline::id_stage::decode_stage;
use crate::pipeline::if_stage::{self, FetchEvent};
use crate::pipeline::latches::{ExMemPayload, IdExPayload, MemWbPayload, PipelineLatches};
use crate::pipeline::mem_stage::{self, MemoryEvent, passed_through};
use crate::pipeline::wb_stage::{self, commit_event};
use crate::predictor::{BimodalPredictor, BranchPredictor};
use crate::trace::{CommitEvent, FlushReason, PipelineStats, PipelineTrace};

verus! {

/// The operand value seen by the execute stage: x0 reads zero, a result
/// still in EX/MEM or MEM/WB for the same register wins over the value
/// latched at decode, the younger one first.
pub open spec fn forwarded(
    source: Option<u8>,
    latched_value: u32,
    ex_mem: Option<ExMemPayload>,
    mem_wb: Option<MemWbPayload>,
) -> u32 {
    match source {
        None => latched_value,
        Some(s) => if s == 0 {
            0
        } else if ex_mem matches Some(p) && p.decoded.rd == Some(s) && spec_writes_back(p.decoded)
            && p.writeback_value is Some {
            ex_mem->0.writeback_value->0
        } else if mem_wb matches Some(p) && p.decoded.rd == Some(s) && p.writeback_value is Some {
            mem_wb->0.writeback_value->0
        } else {
            latched_value
        },
    }
}

/// Whether an instruction changes address translation: an `sfence.vma`, or
/// a CSR write to `satp`. Younger instructions wait until it has committed.
pub open spec fn spec_translation_barrier(decoded: DecodedInstruction, csr_write: Option<CsrWrite>) -> bool {
    decoded.kind == InstructionKind::System(SystemKind::SfenceVma) || (csr_write matches Some(w)
        && w.address == CsrAddress::Satp)
}

/// Whether a trap return: `mret` or `sret`.
pub open spec fn spec_trap_return(decoded: DecodedInstruction) -> bool {
    decoded.kind == InstructionKind::System(SystemKind::Mret) || decoded.kind == InstructionKind::System(SystemKind::Sret)
}

/// The register file after the MEM/WB instruction, if any, has committed.
pub open spec fn registers_after_commit(regs: Seq<u32>, mem_wb: Option<MemWbPayload>) -> Seq<u32> {
    match mem_wb {
        Some(p) => if spec_trap_return(p.decoded) {
            regs
        } else {
            crate::pipeline::wb_stage::registers_written(regs, p.decoded.rd, p.writeback_value)
        },
        None => regs,
    }
}

/// Whether the EX/MEM instruction, if any, makes no memory access, so that
/// the memory stage cannot hold the younger stages.
pub open spec fn memory_stage_free(ex_mem: Option<ExMemPayload>) -> bool {
    match ex_mem {
        Some(p) => !(p.decoded.kind is Load || p.decoded.kind is Store),
        None => true,
    }
}

/// Whether a translation barrier still holds the younger stages once the
/// MEM/WB instruction has committed.
pub open spec fn barrier_after_commit(pending: bool, mem_wb: Option<MemWbPayload>) -> bool {
    pending && !(mem_wb matches Some(p) && spec_translation_barrier(p.decoded, p.csr_write))
}

/// Whether decode must hold `d` for a cycle: it reads the register a load
/// ahead of it in execute is about to write (load-use), or it is a CSR
/// instruction while an older CSR instruction is still in flight.
pub open spec fn decode_hazard(latches: PipelineLatches, d: DecodedInstruction) -> bool {
    let load_use = latches.id_ex.payload matches Some(p) && p.decoded.kind is Load && (p.decoded.rd matches Some(r) && r
        != 0 && (d.rs1 == Some(r) || d.rs2 == Some(r)));
    let older_csr = (latches.id_ex.payload matches Some(p) && p.decoded.kind is Csr) || (latches.ex_mem.payload matches Some(
        p,
    ) && p.decoded.kind is Csr) || (latches.mem_wb.payload matches Some(p) && p.decoded.kind is Csr);
    load_use || (d.kind is Csr && older_csr)
}

/// Every instruction in the latches names only registers x0..x31.
pub open spec fn latches_valid(latches: PipelineLatches) -> bool {
    &&& latches.id_ex.payload matches Some(p) ==> p.decoded.register_fields_valid()
    &&& latches.ex_mem.payload matches Some(p) ==> p.decoded.register_fields_valid()
    &&& latches.mem_wb.payload matches Some(p) ==> p.decoded.register_fields_valid()
}

fn is_translation_barrier_payload(decoded: DecodedInstruction, csr_write: Option<CsrWrite>) -> (b: bool)
    ensures
        b == spec_translation_barrier(decoded, csr_write),
{
    let fence = matches!(decoded.kind, InstructionKind::System(SystemKind::SfenceVma));
    let satp = match csr_write {
        Some(w) => w.address == CsrAddress::Satp,
        None => false,
    };
    fence || satp
}

fn is_csr_instruction(decoded: DecodedInstruction) -> (b: bool)
    ensures
        b == decoded.kind is Csr,
{
    matches!(decoded.kind, InstructionKind::Csr(_))
}

fn is_trap_return(decoded: DecodedInstruction) -> (b: bool)
    ensures
        b == (decoded.kind == InstructionKind::System(SystemKind::Mret) || decoded.kind
            == InstructionKind::System(SystemKind::Sret)),
{
    matches!(decoded.kind, InstructionKind::System(SystemKind::Mret) | InstructionKind::System(SystemKind::Sret))
}

/// A five-stage in-order pipeline with explicit latches and hazard handling.
#[derive(Debug)]
pub struct PipelineCore {
    reset_vector: u32,
    cycle: u64,
    front_end_pc: u32,
    state: HartState,
    page_walker: PageWalker,
    translation_barrier: bool,
    predictor: BimodalPredictor,
    latches: PipelineLatches,
    structural_hazards: StructuralHazardPolicy,
    last_commit: Option<CommitEvent>,
    last_trace: PipelineTrace,
    last_result: ExecutionResult,
    stats: PipelineStats,
}

impl PipelineCore {
    /// The architectural state.
    pub closed spec fn spec_state(&self) -> HartState {
        self.state
    }

    /// The address the core restarts from on reset.
    pub closed spec fn spec_core_reset_vector(&self) -> u32 {
        self.reset_vector
    }

    /// The next address the front end fetches from.
    pub closed spec fn spec_front_end_pc(&self) -> u32 {
        self.front_end_pc
    }

    /// The pipeline latches.
    pub closed spec fn spec_latches(&self) -> PipelineLatches {
        self.latches
    }

    /// The instruction committed in the last cycle, if any.
    pub closed spec fn spec_last_commit(&self) -> Option<CommitEvent> {
        self.last_commit
    }

    /// The trace of the last cycle.
    pub closed spec fn spec_last_trace(&self) -> PipelineTrace {
        self.last_trace
    }

    /// The cumulative counters.
    pub closed spec fn spec_stats(&self) -> PipelineStats {
        self.stats
    }

    /// Whether younger instructions wait for a translation change to commit.
    pub closed spec fn spec_barrier_pending(&self) -> bool {
        self.translation_barrier
    }

    /// The page walker and its TLB.
    pub closed spec fn spec_walker(&self) -> PageWalker {
        self.page_walker
    }

    /// A pipeline at cycle zero with empty latches, fetching from `reset_vector`.
    pub fn new(reset_vector: u32) -> (c: Self)
        ensures
            c.spec_cycle() == 0,
            c.spec_state().is_reset(reset_vector),
            c.spec_core_reset_vector() == reset_vector,
            c.spec_front_end_pc() == reset_vector,
            c.spec_latches() == PipelineLatches::empty(),
            c.spec_last_commit() is None,
            c.spec_stats() == PipelineStats::zero(),
            c.well_formed(),
    {
        PipelineCore {
            reset_vector,
            cycle: 0,
            front_end_pc: reset_vector,
            state: HartState::new(reset_vector),
            page_walker: PageWalker::new(),
            translation_barrier: false,
            predictor: BimodalPredictor::default(),
            latches: PipelineLatches::default(),
            structural_hazards: StructuralHazardPolicy::default(),
            last_commit: None,
            last_trace: PipelineTrace::default(),
            last_result: ExecutionResult::default(),
            stats: PipelineStats::default(),
        }
    }

    /// The pipeline latches.
    pub fn latches(&self) -> (l: &PipelineLatches)
        ensures
            *l == self.spec_latches(),
    {
        &self.latches
    }

    /// The trace of the last cycle.
    pub fn last_trace(&self) -> (t: &PipelineTrace)
        ensures
            *t == self.spec_last_trace(),
    {
        &self.last_trace
    }

    /// The next address the front end fetches from.
    pub fn front_end_pc(&self) -> (pc: u32)
        ensures
            pc == self.spec_front_end_pc(),
    {
        self.front_end_pc
    }

    /// The instruction committed in the last cycle, if any.
    pub fn last_commit(&self) -> (c: Option<CommitEvent>)
        ensures
            c == self.spec_last_commit(),
    {
        self.last_commit
    }

    /// The cumulative counters.
    pub fn stats(&self) -> (s: &PipelineStats)
        ensures
            *s == self.spec_stats(),
    {
        &self.stats
    }

    fn forwarded_operand(
        &self,
        source: Option<u8>,
        latched_value: u32,
        ex_mem_payload: Option<ExMemPayload>,
        mem_wb_payload: Option<MemWbPayload>,
    ) -> (v: u32)
        ensures
            v == forwarded(source, latched_value, ex_mem_payload, mem_wb_payload),
    {
        let source = match source {
            Some(s) => s,
            None => return latched_value,
        };
        if source == 0 {
            return 0;
        }
        if let Some(payload) = ex_mem_payload {
            if payload.decoded.rd == Some(source) && ex_stage::writes_back(payload.decoded) {
                if let Some(value) = payload.writeback_value {
                    return value;
                }
            }
        }
        if let Some(payload) = mem_wb_payload {
            if payload.decoded.rd == Some(source) {
                if let Some(value) = payload.writeback_value {
                    return value;
                }
            }
        }
        latched_value
    }
}

impl CpuModel for PipelineCore {
    closed spec fn spec_hart(&self) -> HartState {
        self.spec_state()
    }

    fn hart_state(&self) -> (s: &HartState)
        ensures
            *s == self.spec_state(),
    {
        &self.state
    }

    fn hart_state_mut(&mut self) -> (s: &mut HartState)
        ensures
            *s == old(self).spec_state(),
            final(self).spec_state() == *final(s),
            final(self).spec_cycle() == old(self).spec_cycle(),
            final(self).spec_latches() == old(self).spec_latches(),
            final(self).spec_stats() == old(self).spec_stats(),
            final(self).well_formed() == old(self).well_formed(),
    {
        &mut self.state
    }

    fn model_name(&self) -> (n: &'static str) {
        "pipeline"
    }
}

/// The cycle from `before` to `after` reporting `r`, as far as it does
/// not depend on what the bus answered: statistics, write-back, the pc
/// and privilege, the latches each stage fills, forwarding, the load-use
/// interlock and the front-end pc.
pub open spec fn pipeline_cycle(before: PipelineCore, after: PipelineCore, r: Result<CpuCycle, CpuError>) -> bool {
    &&& before.spec_stats().one_cycle_later(after.spec_stats())
    &&& r matches Ok(c) ==> c.retired_instructions <= 1
    &&& r matches Ok(c) ==> (c.retired_instructions == 1 <==> after.spec_last_commit() is Some)
    &&& r is Ok ==> (after.spec_last_commit() matches Some(c) ==> (before.spec_latches().mem_wb.payload matches Some(p) && c == commit_event(p, c.next_pc)))
    &&& r is Ok ==> after.spec_last_trace().cycle == after.spec_cycle()
    &&& r is Ok ==> before.spec_stats().counted(after.spec_stats(), after.spec_last_trace())
    &&& r is Ok ==> (after.spec_last_trace().flushed <==> after.spec_last_trace().flush_reason is Some)
    &&& r is Ok ==> (after.spec_last_trace().trap is Some ==> after.spec_last_trace().flush_reason == Some(FlushReason::Trap))
    &&& before.spec_state().halted ==> {
        &&& r == Ok::<CpuCycle, CpuError>(CpuCycle { retired_instructions: 0, stalled: true })
        &&& after.spec_state().registers@ == before.spec_state().registers@
        &&& after.spec_state().pc == before.spec_state().pc
        &&& after.spec_state().privilege == before.spec_state().privilege
        &&& after.spec_latches() == before.spec_latches()
        &&& after.spec_last_commit() is None
    }
    &&& after.spec_state().halted == before.spec_state().halted
    &&& r matches Ok(c) ==> after.spec_stats().retired_instructions == before.spec_stats().retired_instructions
        + c.retired_instructions
    &&& !before.spec_state().halted && r is Ok ==> ({
        let old_latches = before.spec_latches();
        let new_latches = after.spec_latches();
        let trace = after.spec_last_trace();
        let hart = after.spec_state();
        let execute_free = memory_stage_free(old_latches.ex_mem.payload) && !barrier_after_commit(
            before.spec_barrier_pending(),
            old_latches.mem_wb.payload,
        );
        &&& r->Ok_0.retired_instructions == (if old_latches.mem_wb.payload is Some { 1u64 } else { 0u64 })
        &&& hart.registers@ == registers_after_commit(before.spec_state().registers@, old_latches.mem_wb.payload)
        &&& old_latches.mem_wb.payload matches Some(p) ==> (after.spec_last_commit() matches Some(c)
            && c == commit_event(p, c.next_pc) && (!spec_trap_return(p.decoded) ==> c.next_pc == p.next_pc))
        &&& !trace.flushed ==> {
            &&& hart.privilege == before.spec_state().privilege || (old_latches.mem_wb.payload matches Some(p)
                && spec_trap_return(p.decoded))
            &&& hart.pc == match old_latches.mem_wb.payload {
                Some(p) => if spec_trap_return(p.decoded) { hart.pc } else { p.next_pc },
                None => before.spec_state().pc,
            }
            &&& match old_latches.ex_mem.payload {
                Some(p) => !(p.decoded.kind is Load || p.decoded.kind is Store) ==> new_latches.mem_wb.payload
                    == Some(passed_through(p)),
                None => new_latches.mem_wb.payload is None,
            }
            &&& execute_free ==> match old_latches.id_ex.payload {
                Some(p) => match execute_spec(
                    p.decoded,
                    forwarded(p.decoded.rs1, p.rs1_value, old_latches.ex_mem.payload, old_latches.mem_wb.payload),
                    forwarded(p.decoded.rs2, p.rs2_value, old_latches.ex_mem.payload, old_latches.mem_wb.payload),
                    hart.privilege,
                    hart.csrs@,
                ) {
                    ExecuteEvent::Advance(o) => new_latches.ex_mem.payload == Some(
                        crate::exec::payload_of(p.decoded, o),
                    ),
                    ExecuteEvent::Trap(_) => false,
                },
                None => new_latches.ex_mem.payload is None,
            }
            &&& execute_free ==> match old_latches.if_id.payload {
                Some(p) => spec_decode(p.raw, p.pc) matches Ok(d) && if decode_hazard(old_latches, d) {
                    trace.decode_stalled && new_latches.if_id.payload == Some(p)
                } else {
                    !trace.decode_stalled && new_latches.id_ex.payload == Some(
                        IdExPayload {
                            decoded: d,
                            rs1_value: hart.registers@[match d.rs1 {
                                Some(r) => r as int,
                                None => 0,
                            }],
                            rs2_value: hart.registers@[match d.rs2 {
                                Some(r) => r as int,
                                None => 0,
                            }],
                            predicted_pc: p.predicted_pc,
                            predicted_taken: p.predicted_taken,
                        },
                    )
                },
                None => true,
            }
            &&& execute_free && !trace.fetch_stalled && !trace.decode_stalled ==> (new_latches.if_id.payload
                matches Some(p) && p.pc == before.spec_front_end_pc() && after.spec_front_end_pc()
                == p.predicted_pc)
            &&& trace.fetch_stalled || trace.decode_stalled ==> after.spec_front_end_pc() == before.spec_front_end_pc()
        }
    })
}

impl SimComponent for PipelineCore {
    closed spec fn well_formed(&self) -> bool {
        &&& self.stats.cycles == self.cycle
        &&& self.stats.bounded()
        &&& latches_valid(self.latches)
    }

    fn reset(&mut self)
        ensures
            final(self).spec_cycle() == 0,
            final(self).spec_state().is_reset(old(self).spec_core_reset_vector()),
            final(self).spec_front_end_pc() == old(self).spec_core_reset_vector(),
            final(self).spec_latches() == PipelineLatches::empty(),
            final(self).spec_last_commit() is None,
            final(self).spec_stats() == PipelineStats::zero(),
    {
        self.cycle = 0;
        self.front_end_pc = self.reset_vector;
        let reset_vector = self.reset_vector;
        self.state.reset(reset_vector);
        self.page_walker.reset();
        self.translation_barrier = false;
        self.latches = PipelineLatches::default();
        self.last_commit = None;
        self.last_trace = PipelineTrace::default();
        self.last_result = ExecutionResult::default();
        self.stats = PipelineStats::default();
    }
}

impl Processor for PipelineCore {
    type Error = CpuError;

    closed spec fn spec_cycle(&self) -> u64 {
        self.cycle
    }

    /// The cycle follows `pipeline_cycle`.
    open spec fn spec_stepped(&self, after: &Self, r: Result<CpuCycle, CpuError>) -> bool {
        pipeline_cycle(*self, *after, r)
    }

    fn cycle(&self) -> (c: u64) {
        self.cycle
    }

    /// Advance every stage by one cycle, oldest first: write-back commits the
    /// MEM/WB instruction, a pending interrupt is taken precisely after it,
    /// then memory, execute (with forwarding, branch resolution and
    /// translation barriers), decode (with load-use and CSR interlocks) and
    /// fetch (with prediction) run on the latches of the previous cycle.
    /// The cycle follows `pipeline_cycle`; on a bus that keeps its log, the
    /// fetch this cycle owes is stated below.
    fn step_cycle<B: Bus>(&mut self, bus: &mut B) -> (r: Result<CpuCycle, CpuError>)
        ensures
            !old(self).spec_state().halted && r is Ok && old(bus).spec_keeps_log() ==> ({
                let hart = final(self).spec_state();
                let trace = final(self).spec_last_trace();
                let front = old(self).spec_front_end_pc();
                &&& !trace.flushed && memory_stage_free(old(self).spec_latches().ex_mem.payload) && !barrier_after_commit(
                    old(self).spec_barrier_pending(),
                    old(self).spec_latches().mem_wb.payload,
                ) && !trace.decode_stalled && old(self).spec_walker().spec_active() is None && !spec_translation_enabled(
                    hart.csrs@.supervisor.satp,
                    effective_privilege(hart.csrs@.machine.mstatus, hart.privilege, MemoryAccess::Instruction),
                ) ==> final(bus).spec_keeps_log() && logged(
                    old(bus).spec_log(),
                    final(bus).spec_log(),
                    aligned_accesses(front % 4 == 0, byte_reads(front as u64, 4)),
                    trace.fetched_pc is Some,
                )
            }),
    {
        self.cycle = self.cycle + 1;
        self.stats.cycles = self.stats.cycles + 1;
        self.state.csrs.increment_cycle();
        let interrupts = bus.pending_interrupts();
        self.state.csrs.sync_interrupts(interrupts);

        if self.state.halted {
            self.stats.fetch_stall_cycles = self.stats.fetch_stall_cycles + 1;
            self.last_commit = None;
            self.last_trace = PipelineTrace {
                cycle: self.cycle,
                fetched_pc: None,
                decode_pc: None,
                execute_pc: None,
                memory_pc: None,
                writeback_pc: None,
                commit: None,
                trap: None,
                flush_reason: None,
                retired_instructions: 0,
                predicted_taken: false,
                fetch_stalled: true,
                decode_stalled: false,
                flushed: false,
                note: "halted",
            };
            return Ok(CpuCycle { retired_instructions: 0, stalled: true });
        }

        let current = self.latches;
        let mut work = CycleWork {
            next: PipelineLatches::default(),
            next_front_end_pc: self.front_end_pc,
            fetch_stalled: false,
            decode_stalled: false,
            flushed: false,
            note: "progress",
            noted: false,
            fetched_pc: None,
            predicted_taken: false,
            trap: None,
            flush_reason: None,
            memory_wait: false,
            translation_barrier: self.translation_barrier,
        };

        // Write-back.
        let mut commit: Option<CommitEvent> = None;
        let mut retired_instructions: u64 = 0;
        if let Some(payload) = current.mem_wb.payload {
            commit = Some(wb_stage::write_back(&mut self.state, &mut self.page_walker, payload));
            retired_instructions = 1;
            if is_translation_barrier_payload(payload.decoded, payload.csr_write) {
                work.translation_barrier = false;
            }
        }

        // Interrupts are taken between the committed instruction and the younger ones.
        if !work.translation_barrier && !bus.is_busy() {
            if let Some(interrupt) = self.state.csrs.pending_interrupt(self.state.privilege) {
                let current_pc = self.state.pc;
                let taken = apply_trap(&mut self.state, Trap::Interrupt(interrupt), current_pc);
                work.trap_taken(taken, self.state.pc, "interrupt");
            }
        }

        self.memory_step(bus, current, &mut work)?;
        self.execute_step(current, &mut work);
        self.decode_step(current, &mut work);
        self.fetch_step(bus, &mut work)?;
        self.finish_cycle(current, work, commit, retired_instructions)
    }
}


/// The per-cycle decisions accumulated while the stages run.
struct CycleWork {
    next: PipelineLatches,
    next_front_end_pc: u32,
    fetch_stalled: bool,
    decode_stalled: bool,
    flushed: bool,
    note: &'static str,
    noted: bool,
    fetched_pc: Option<u32>,
    predicted_taken: bool,
    trap: Option<Trap>,
    flush_reason: Option<FlushReason>,
    memory_wait: bool,
    translation_barrier: bool,
}

impl CycleWork {
    /// A flush always has its reason, and a trap taken is the reason.
    spec fn flags_agree(self) -> bool {
        &&& self.flushed == (self.flush_reason is Some)
        &&& self.trap is Some ==> self.flush_reason == Some(FlushReason::Trap)
    }

    /// Record a trap taken this cycle: squash the younger stages and redirect fetch.
    fn trap_taken(&mut self, result: ExecutionResult, handler_pc: u32, note: &'static str)
        ensures
            final(self).next == old(self).next,
            final(self).fetch_stalled == old(self).fetch_stalled,
            final(self).decode_stalled == old(self).decode_stalled,
            final(self).memory_wait == old(self).memory_wait,
            final(self).translation_barrier == old(self).translation_barrier,
            final(self).predicted_taken == old(self).predicted_taken,
            final(self).fetched_pc == old(self).fetched_pc,
            final(self).flushed,
            final(self).flush_reason == Some(FlushReason::Trap),
            final(self).trap == result.trap,
            final(self).next_front_end_pc == handler_pc,
    {
        self.trap = result.trap;
        self.next_front_end_pc = handler_pc;
        self.flushed = true;
        self.flush_reason = Some(FlushReason::Trap);
        self.note = note;
        self.noted = true;
    }
}

/// The counters of `stats` that a cycle may still add to, once its cycle count has been taken.
spec fn room_for_one_more(stats: PipelineStats) -> bool {
    &&& stats.retired_instructions < stats.cycles
    &&& stats.fetch_stall_cycles < stats.cycles
    &&& stats.decode_stall_cycles < stats.cycles
    &&& stats.flush_cycles < stats.cycles
    &&& stats.predicted_taken_fetches < stats.cycles
    &&& stats.branch_flushes < stats.cycles
    &&& stats.trap_flushes < stats.cycles
    &&& stats.return_flushes < stats.cycles
    &&& stats.translation_barrier_flushes < stats.cycles
    &&& stats.trap_count < stats.cycles
}

/// Everything but the architectural state, the walker and the predictor is untouched.
spec fn bookkeeping_unchanged(a: PipelineCore, b: PipelineCore) -> bool {
    &&& a.cycle == b.cycle
    &&& a.stats == b.stats
    &&& a.latches == b.latches
    &&& a.last_commit == b.last_commit
    &&& a.last_trace == b.last_trace
    &&& a.reset_vector == b.reset_vector
    &&& a.state.halted == b.state.halted
}

impl PipelineCore {
    fn memory_step<B: Bus>(&mut self, bus: &mut B, current: PipelineLatches, work: &mut CycleWork) -> (r: Result<
        (),
        CpuError,
    >)
        requires
            latches_valid(current),
            latches_valid(old(work).next),
        ensures
            old(work).flags_agree() ==> final(work).flags_agree(),
            bookkeeping_unchanged(*old(self), *final(self)),
            latches_valid(final(work).next),
            final(work).predicted_taken == old(work).predicted_taken,
            final(work).fetched_pc == old(work).fetched_pc,
            final(self).state.registers@ == old(self).state.registers@,
            old(work).flushed ==> final(work).flushed,
            !final(work).flushed ==> final(self).state == old(self).state,
            final(work).translation_barrier == old(work).translation_barrier,
            !final(work).flushed ==> final(work).next_front_end_pc == old(work).next_front_end_pc,
            !final(work).memory_wait ==> final(work).decode_stalled == old(work).decode_stalled && final(work).next.ex_mem == old(work).next.ex_mem
                && final(work).next.id_ex == old(work).next.id_ex && final(work).next.if_id == old(work).next.if_id,
            final(work).memory_wait ==> old(work).memory_wait || (current.ex_mem.payload matches Some(p) && (
            p.decoded.kind is Load || p.decoded.kind is Store)),
            old(work).flushed || current.ex_mem.payload is None ==> r is Ok && *final(work) == *old(work) && *final(self)
                == *old(self),
            !old(work).flushed ==> match current.ex_mem.payload {
                Some(p) => {
                    &&& !(p.decoded.kind is Load || p.decoded.kind is Store) ==> r is Ok
                        && final(work).next.mem_wb.payload == Some(passed_through(p))
                    &&& r is Ok ==> {
                        ||| final(work).next.mem_wb.payload is Some
                        ||| (final(work).memory_wait && final(work).next.ex_mem.payload == Some(p)
                            && final(work).next.id_ex.payload == current.id_ex.payload
                            && final(work).next.if_id.payload == current.if_id.payload)
                        ||| (final(work).flushed && final(work).flush_reason == Some(FlushReason::Trap))
                    }
                },
                None => true,
            },
            memory_stage_free(current.ex_mem.payload) ==> final(self).page_walker == old(self).page_walker && *final(bus)
                == *old(bus) && (final(work).fetch_stalled ==> old(work).fetch_stalled) && final(work).memory_wait
                == old(work).memory_wait,
    {
        if work.flushed {
            return Ok(());
        }
        let payload = match current.ex_mem.payload {
            Some(p) => p,
            None => return Ok(()),
        };
        work.fetch_stalled = fetch_blocked_by_memory_access(
            self.structural_hazards.unified_memory,
            ex_stage::uses_memory(payload.decoded),
        );
        let event = match mem_stage::access(bus, &mut self.page_walker, &self.state.csrs, self.state.privilege, payload) {
            Ok(event) => event,
            Err(error) => return Err(CpuError::Bus(error)),
        };
        match event {
            MemoryEvent::Advance(done) => {
                work.next.mem_wb.payload = Some(done);
            },
            MemoryEvent::Stall(kept) => {
                work.memory_wait = true;
                work.fetch_stalled = true;
                work.decode_stalled = current.if_id.payload.is_some();
                work.next.ex_mem.payload = Some(kept);
                work.next.id_ex.payload = current.id_ex.payload;
                work.next.if_id.payload = current.if_id.payload;
                work.note = "memory wait";
                work.noted = true;
            },
            MemoryEvent::Trap(trap) => {
                let taken = apply_trap(&mut self.state, trap, payload.decoded.pc);
                let handler = self.state.pc;
                work.trap_taken(taken, handler, "memory trap");
            },
        }
        Ok(())
    }

    fn execute_step(&mut self, current: PipelineLatches, work: &mut CycleWork)
        requires
            latches_valid(current),
            latches_valid(old(work).next),
        ensures
            old(work).flags_agree() ==> final(work).flags_agree(),
            bookkeeping_unchanged(*old(self), *final(self)),
            latches_valid(final(work).next),
            final(work).predicted_taken == old(work).predicted_taken,
            final(work).fetched_pc == old(work).fetched_pc,
            old(work).flushed || old(work).memory_wait || old(work).translation_barrier || current.id_ex.payload is None
                ==> *final(work) == *old(work) && *final(self) == *old(self),
            final(self).state.registers@ == old(self).state.registers@,
            old(work).flushed ==> final(work).flushed,
            !final(work).flushed ==> final(self).state == old(self).state,
            final(work).memory_wait == old(work).memory_wait,
            final(work).next.mem_wb == old(work).next.mem_wb,
            final(work).next.if_id == old(work).next.if_id,
            final(work).next.id_ex == old(work).next.id_ex,
            final(work).fetch_stalled == old(work).fetch_stalled,
            final(work).decode_stalled == old(work).decode_stalled,
            !final(work).flushed ==> final(work).next_front_end_pc == old(work).next_front_end_pc
                && final(work).translation_barrier == old(work).translation_barrier,
            !(old(work).flushed || old(work).memory_wait || old(work).translation_barrier) ==> match current.id_ex.payload {
                Some(p) => match execute_spec(
                    p.decoded,
                    forwarded(p.decoded.rs1, p.rs1_value, current.ex_mem.payload, current.mem_wb.payload),
                    forwarded(p.decoded.rs2, p.rs2_value, current.ex_mem.payload, current.mem_wb.payload),
                    old(self).state.privilege,
                    old(self).state.csrs@,
                ) {
                    ExecuteEvent::Advance(o) => final(work).next.ex_mem.payload == Some(
                        ExMemPayload {
                            decoded: p.decoded,
                            writeback_value: o.writeback_value,
                            csr_write: o.csr_write,
                            translation_fence: o.translation_fence,
                            memory_address: o.memory_address,
                            store_value: o.store_value,
                            next_pc: o.next_pc,
                        },
                    ) && (final(work).flushed ==> final(work).next_front_end_pc == o.next_pc),
                    ExecuteEvent::Trap(_) => final(work).flushed && final(work).flush_reason == Some(FlushReason::Trap),
                },
                None => true,
            },
            final(self).page_walker == old(self).page_walker,
    {
        if work.flushed || work.memory_wait || work.translation_barrier {
            return ;
        }
        let payload = match current.id_ex.payload {
            Some(p) => p,
            None => return ,
        };
        let rs1_value = self.forwarded_operand(
            payload.decoded.rs1,
            payload.rs1_value,
            current.ex_mem.payload,
            current.mem_wb.payload,
        );
        let rs2_value = self.forwarded_operand(
            payload.decoded.rs2,
            payload.rs2_value,
            current.ex_mem.payload,
            current.mem_wb.payload,
        );
        match ex_stage::execute(payload.decoded, rs1_value, rs2_value, self.state.privilege, &self.state.csrs) {
            ExecuteEvent::Advance(outcome) => {
                if matches!(payload.decoded.kind, InstructionKind::Branch(_)) {
                    self.predictor.update(
                        payload.decoded.pc,
                        outcome.next_pc != payload.decoded.pc.wrapping_add(4),
                    );
                }
                let flush_status = detect_branch_flush(payload.predicted_pc, outcome.next_pc);
                let translation_serializing = is_translation_barrier_payload(payload.decoded, outcome.csr_write);
                if translation_serializing || flush_status.flush_required {
                    work.flushed = true;
                    work.next_front_end_pc = outcome.next_pc;
                    if translation_serializing {
                        work.translation_barrier = true;
                        work.flush_reason = Some(FlushReason::TranslationBarrier);
                        work.note = "translation barrier";
                    } else if is_trap_return(payload.decoded) {
                        work.flush_reason = Some(FlushReason::ReturnFromTrap);
                        work.note = "xret";
                    } else {
                        work.flush_reason = Some(FlushReason::BranchRedirect);
                        work.note = "branch flush";
                    }
                    work.noted = true;
                }
                work.next.ex_mem.payload = Some(
                    ExMemPayload {
                        decoded: payload.decoded,
                        writeback_value: outcome.writeback_value,
                        csr_write: outcome.csr_write,
                        translation_fence: outcome.translation_fence,
                        memory_address: outcome.memory_address,
                        store_value: outcome.store_value,
                        next_pc: outcome.next_pc,
                    },
                );
            },
            ExecuteEvent::Trap(trap) => {
                let taken = apply_trap(&mut self.state, trap, payload.decoded.pc);
                let handler = self.state.pc;
                work.trap_taken(taken, handler, "execute trap");
            },
        }
    }

    fn decode_step(&mut self, current: PipelineLatches, work: &mut CycleWork)
        requires
            latches_valid(current),
            latches_valid(old(work).next),
        ensures
            old(work).flags_agree() ==> final(work).flags_agree(),
            bookkeeping_unchanged(*old(self), *final(self)),
            latches_valid(final(work).next),
            final(work).predicted_taken == old(work).predicted_taken,
            final(work).fetched_pc == old(work).fetched_pc,
            old(work).flushed || old(work).memory_wait ==> *final(work) == *old(work) && *final(self) == *old(self),
            final(self).state.registers@ == old(self).state.registers@,
            old(work).flushed ==> final(work).flushed,
            !final(work).flushed ==> final(self).state == old(self).state,
            final(work).memory_wait == old(work).memory_wait,
            final(work).translation_barrier == old(work).translation_barrier,
            final(work).next.mem_wb == old(work).next.mem_wb,
            final(work).next.ex_mem == old(work).next.ex_mem,
            !final(work).flushed ==> final(work).next_front_end_pc == old(work).next_front_end_pc,
            !(old(work).flushed || old(work).memory_wait) && old(work).translation_barrier ==> {
                &&& final(work).fetch_stalled
                &&& final(work).next.if_id.payload == current.if_id.payload
                &&& final(work).next.id_ex.payload == current.id_ex.payload
                &&& *final(self) == *old(self)
            },
            !(old(work).flushed || old(work).memory_wait || old(work).translation_barrier) ==> match current.if_id.payload {
                None => *final(work) == *old(work) && *final(self) == *old(self),
                Some(p) => match spec_decode(p.raw, p.pc) {
                    Err(_) => final(work).flushed && final(work).flush_reason == Some(FlushReason::Trap),
                    Ok(d) => *final(self) == *old(self) && if decode_hazard(current, d) {
                        final(work).decode_stalled && final(work).next.if_id.payload == Some(p)
                            && final(work).next.id_ex.payload == old(work).next.id_ex.payload
                    } else {
                        final(work).decode_stalled == old(work).decode_stalled && final(work).next.id_ex.payload == Some(
                            IdExPayload {
                                decoded: d,
                                rs1_value: old(self).state.registers@[match d.rs1 {
                                    Some(r) => r as int,
                                    None => 0,
                                }],
                                rs2_value: old(self).state.registers@[match d.rs2 {
                                    Some(r) => r as int,
                                    None => 0,
                                }],
                                predicted_pc: p.predicted_pc,
                                predicted_taken: p.predicted_taken,
                            },
                        )
                    },
                },
            },
            final(self).page_walker == old(self).page_walker,
            !old(work).translation_barrier ==> final(work).fetch_stalled == old(work).fetch_stalled,
    {
        if work.flushed || work.memory_wait {
            return ;
        }
        if work.translation_barrier {
            work.fetch_stalled = true;
            work.decode_stalled = current.if_id.payload.is_some();
            work.next.if_id.payload = current.if_id.payload;
            work.next.id_ex.payload = current.id_ex.payload;
            work.note = "translation barrier";
            work.noted = true;
            return ;
        }
        let payload = match current.if_id.payload {
            Some(p) => p,
            None => return ,
        };
        match decode_stage(payload.raw, payload.pc) {
            Ok(decoded) => {
                let load_use_hazard = match current.id_ex.payload {
                    Some(producer) => if ex_stage::is_load(producer.decoded) {
                        detect_raw_hazard(producer.decoded.rd, decoded.rs1, decoded.rs2)
                    } else {
                        DataHazardStatus::default()
                    },
                    None => DataHazardStatus::default(),
                };
                let older_csr = match current.id_ex.payload {
                    Some(p) => is_csr_instruction(p.decoded),
                    None => false,
                } || match current.ex_mem.payload {
                    Some(p) => is_csr_instruction(p.decoded),
                    None => false,
                } || match current.mem_wb.payload {
                    Some(p) => is_csr_instruction(p.decoded),
                    None => false,
                };
                let csr_hazard = is_csr_instruction(decoded) && older_csr;
                if load_use_hazard.stall || csr_hazard {
                    work.decode_stalled = true;
                    work.next.if_id.payload = Some(payload);
                    work.note = if csr_hazard {
                        "csr stall"
                    } else {
                        "load-use stall"
                    };
                    work.noted = true;
                } else {
                    let rs1 = match decoded.rs1 {
                        Some(r) => r,
                        None => 0,
                    };
                    let rs2 = match decoded.rs2 {
                        Some(r) => r,
                        None => 0,
                    };
                    let rs1_value = self.state.registers.read(rs1);
                    let rs2_value = self.state.registers.read(rs2);
                    work.next.id_ex.payload = Some(
                        IdExPayload {
                            decoded,
                            rs1_value,
                            rs2_value,
                            predicted_pc: payload.predicted_pc,
                            predicted_taken: payload.predicted_taken,
                        },
                    );
                }
            },
            Err(_) => {
                let taken = apply_trap(
                    &mut self.state,
                    Trap::Exception(Exception::IllegalInstruction { instruction: payload.raw }),
                    payload.pc,
                );
                let handler = self.state.pc;
                work.trap_taken(taken, handler, "illegal instruction");
            },
        }
    }

    fn fetch_step<B: Bus>(&mut self, bus: &mut B, work: &mut CycleWork) -> (r: Result<(), CpuError>)
        requires
            latches_valid(old(work).next),
            !old(work).predicted_taken,
            old(work).fetched_pc is None,
        ensures
            old(work).flags_agree() ==> final(work).flags_agree(),
            bookkeeping_unchanged(*old(self), *final(self)),
            latches_valid(final(work).next),
            final(self).state.registers@ == old(self).state.registers@,
            old(work).flushed ==> final(work).flushed,
            !final(work).flushed ==> final(self).state == old(self).state,
            final(work).next.mem_wb == old(work).next.mem_wb,
            final(work).next.ex_mem == old(work).next.ex_mem,
            final(work).decode_stalled == old(work).decode_stalled,
            !old(work).flushed && old(work).decode_stalled ==> final(work).next.if_id == old(work).next.if_id,
            !old(work).flushed ==> final(work).next.id_ex == old(work).next.id_ex,
            old(work).fetch_stalled ==> final(work).fetch_stalled,
            final(work).fetch_stalled && !final(work).flushed ==> final(work).next_front_end_pc == old(
                work,
            ).next_front_end_pc,
            old(work).flushed ==> r is Ok && final(work).next == (PipelineLatches {
                if_id: crate::pipeline::latches::IfIdLatch { payload: None },
                id_ex: crate::pipeline::latches::IdExLatch { payload: None },
                ..old(work).next
            }) && *final(self) == *old(self),
            !old(work).flushed && (old(work).memory_wait || old(work).decode_stalled || old(work).fetch_stalled
                || old(work).translation_barrier) ==> r is Ok && final(work).next == old(work).next
                && final(work).next_front_end_pc == old(work).next_front_end_pc && *final(self) == *old(self),
            !(old(work).flushed || old(work).memory_wait || old(work).decode_stalled || old(work).fetch_stalled
                || old(work).translation_barrier) && r is Ok ==> {
                ||| (final(work).next.if_id.payload matches Some(p) && p.pc == old(work).next_front_end_pc
                    && final(work).next_front_end_pc == p.predicted_pc && final(work).fetched_pc == Some(p.pc))
                ||| (final(work).fetch_stalled && final(work).next == old(work).next)
                ||| (final(work).flushed && final(work).flush_reason == Some(FlushReason::Trap))
            },
            old(work).flushed || old(work).memory_wait || old(work).decode_stalled || old(work).fetch_stalled
                || old(work).translation_barrier ==> *final(bus) == *old(bus),
            !(old(work).flushed || old(work).memory_wait || old(work).decode_stalled || old(work).fetch_stalled
                || old(work).translation_barrier) && old(bus).spec_keeps_log() ==> (translation_without_walk(
                old(self).page_walker,
                old(self).state.csrs@,
                old(self).state.privilege,
                old(work).next_front_end_pc,
                MemoryAccess::Instruction,
            ) matches Some(TranslationResult::PhysicalAddress(pa)) ==> final(bus).spec_keeps_log() && logged(
                old(bus).spec_log(),
                final(bus).spec_log(),
                aligned_accesses(pa % 4 == 0, byte_reads(pa as u64, 4)),
                final(work).fetched_pc is Some,
            )),
    {
        if work.flushed {
            work.next.if_id.payload = None;
            work.next.id_ex.payload = None;
            return Ok(());
        }
        if work.memory_wait || work.decode_stalled || work.fetch_stalled || work.translation_barrier {
            if work.fetch_stalled && !work.noted {
                work.note = "structural hazard";
            }
            return Ok(());
        }
        let fetch_pc = work.next_front_end_pc;
        let event = match if_stage::fetch(
            bus,
            &mut self.page_walker,
            &self.state.csrs,
            self.state.privilege,
            fetch_pc,
            &self.predictor,
        ) {
            Ok(event) => event,
            Err(error) => return Err(CpuError::Bus(error)),
        };
        match event {
            FetchEvent::Advance(payload) => {
                work.fetched_pc = Some(payload.pc);
                work.predicted_taken = payload.predicted_taken;
                work.next.if_id.payload = Some(payload);
                work.next_front_end_pc = payload.predicted_pc;
                if payload.predicted_taken && !work.noted {
                    work.note = "predicted taken";
                    work.noted = true;
                }
            },
            FetchEvent::Stall => {
                work.fetch_stalled = true;
                if !work.noted {
                    work.note = "fetch wait";
                    work.noted = true;
                }
            },
            FetchEvent::Trap(trap) => {
                let taken = apply_trap(&mut self.state, trap, fetch_pc);
                let handler = self.state.pc;
                work.trap_taken(taken, handler, "fetch trap");
            },
        }
        Ok(())
    }

    /// Count the cycle's events, install the next latches and record the trace.
    #[verifier::rlimit(40)]
    fn finish_cycle(
        &mut self,
        current: PipelineLatches,
        work: CycleWork,
        commit: Option<CommitEvent>,
        retired_instructions: u64,
    ) -> (r: Result<CpuCycle, CpuError>)
        requires
            room_for_one_more(old(self).stats),
            old(self).stats.cycles == old(self).cycle,
            latches_valid(work.next),
            retired_instructions <= 1,
            retired_instructions == 1 <==> commit is Some,
        ensures
            (PipelineStats { cycles: (old(self).stats.cycles - 1) as u64, ..old(self).stats }).one_cycle_later(
                final(self).stats,
            ),
            final(self).stats.bounded(),
            (PipelineStats { cycles: (old(self).stats.cycles - 1) as u64, ..old(self).stats }).counted(
                final(self).stats,
                final(self).last_trace,
            ),
            final(self).stats.cycles == final(self).cycle,
            final(self).cycle == old(self).cycle,
            final(self).state == old(self).state,
            final(self).reset_vector == old(self).reset_vector,
            final(self).latches == work.next,
            final(self).last_commit == commit,
            final(self).last_trace.cycle == final(self).cycle,
            r matches Ok(c) && c.retired_instructions == retired_instructions,
            final(self).front_end_pc == work.next_front_end_pc,
            final(self).translation_barrier == work.translation_barrier,
            final(self).last_trace.flushed == work.flushed,
            final(self).last_trace.flush_reason == work.flush_reason,
            final(self).last_trace.trap == work.trap,
            final(self).last_trace.decode_stalled == work.decode_stalled,
            final(self).last_trace.fetch_stalled == work.fetch_stalled,
            final(self).last_trace.fetched_pc == work.fetched_pc,
            final(self).stats.retired_instructions == old(self).stats.retired_instructions + retired_instructions,
            final(self).page_walker == old(self).page_walker,
    {
        let memory_access = match current.ex_mem.payload {
            Some(p) => ex_stage::uses_memory(p.decoded),
            None => false,
        };
        let result = ExecutionResult { retired: retired_instructions, trap: work.trap, memory_access };

        self.stats.retired_instructions = self.stats.retired_instructions + result.retired;
        if work.fetch_stalled {
            self.stats.fetch_stall_cycles = self.stats.fetch_stall_cycles + 1;
        }
        if work.decode_stalled {
            self.stats.decode_stall_cycles = self.stats.decode_stall_cycles + 1;
        }
        if work.flushed {
            self.stats.flush_cycles = self.stats.flush_cycles + 1;
        }
        if work.predicted_taken {
            self.stats.predicted_taken_fetches = self.stats.predicted_taken_fetches + 1;
        }
        match work.flush_reason {
            Some(FlushReason::BranchRedirect) => {
                self.stats.branch_flushes = self.stats.branch_flushes + 1;
            },
            Some(FlushReason::Trap) => {
                self.stats.trap_flushes = self.stats.trap_flushes + 1;
            },
            Some(FlushReason::ReturnFromTrap) => {
                self.stats.return_flushes = self.stats.return_flushes + 1;
            },
            Some(FlushReason::TranslationBarrier) => {
                self.stats.translation_barrier_flushes = self.stats.translation_barrier_flushes + 1;
            },
            None => {},
        }
        if result.trap.is_some() {
            self.stats.trap_count = self.stats.trap_count + 1;
        }

        let writeback_pc = match current.mem_wb.payload {
            Some(p) => Some(p.decoded.pc),
            None => None,
        };
        let memory_pc = match current.ex_mem.payload {
            Some(p) => Some(p.decoded.pc),
            None => None,
        };
        let execute_pc = match current.id_ex.payload {
            Some(p) => Some(p.decoded.pc),
            None => None,
        };
        let decode_pc = match current.if_id.payload {
            Some(p) => Some(p.pc),
            None => None,
        };

        self.front_end_pc = work.next_front_end_pc;
        self.translation_barrier = work.translation_barrier;
        self.latches = work.next;
        self.last_commit = commit;
        self.last_result = result;
        self.last_trace = PipelineTrace {
            cycle: self.cycle,
            fetched_pc: work.fetched_pc,
            decode_pc,
            execute_pc,
            memory_pc,
            writeback_pc,
            commit,
            trap: result.trap,
            flush_reason: work.flush_reason,
            retired_instructions,
            predicted_taken: work.predicted_taken,
            fetch_stalled: work.fetch_stalled,
            decode_stalled: work.decode_stalled,
            flushed: work.flushed,
            note: work.note,
        };
        Ok(CpuCycle { retired_instructions: result.retired, stalled: work.fetch_stalled || work.decode_stalled })
    }
}

} // verus!
