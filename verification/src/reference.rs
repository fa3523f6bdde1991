//! An architectural reference model that completes one instruction per cycle.

use vstd::prelude::*;
use crate::bus::{Bus, BusError, ByteAccess, InterruptSet, aligned_accesses, byte_reads, lemma_log_grows_trans, lemma_logged_grows, log_grows, logged};
use crate::component::{CpuCycle, Processor, SimComponent};
use crate::cpu_model::{CpuError, CpuModel};
use crate::exception::{Exception, Trap};
use crate::exec::{ExecutionResult, apply_trap, execute_decoded, execution, trap_taken};
use crate::hart::HartState;
use crate::instruction::DecodedInstruction;
use crate::mmu::PageWalker;
use crate::pipeline::id_stage::decode_stage;
use crate::decode::spec_decode;
use crate::csr_file::{CsrModel, MachineCsrs};

verus! {

/// A simple architectural reference model that retires at most one instruction per cycle.
#[derive(Debug)]
pub struct ReferenceCore {
    reset_vector: u32,
    cycle: u64,
    state: HartState,
    page_walker: PageWalker,
    pending_decoded: Option<DecodedInstruction>,
    last_result: ExecutionResult,
}

/// The CSRs at the start of a cycle: `mcycle` advanced and the interrupt
/// lines the bus reports latched into `mip`.
pub open spec fn cycle_csrs(csrs: CsrModel, interrupts: InterruptSet) -> CsrModel {
    CsrModel {
        machine: MachineCsrs { mcycle: vstd::wrapping::u64_specs::wrapping_add(csrs.machine.mcycle, 1), ..csrs.machine },
        ..csrs
    }.synced(interrupts)
}

/// Whether `a` and `b` agree in everything the core shows: the hart, the
/// cycle count, the instruction being retried and the last result.
pub open spec fn same_core(a: ReferenceCore, b: ReferenceCore) -> bool {
    &&& a.spec_state() == b.spec_state()
    &&& a.spec_cycle() == b.spec_cycle()
    &&& a.spec_pending() == b.spec_pending()
    &&& a.spec_last_result() == b.spec_last_result()
    &&& a.spec_core_reset_vector() == b.spec_core_reset_vector()
}

/// Starting a cycle of `before` with the interrupt lines `interrupts` and a
/// bus that is busy or not gives `after` and report `r`: the cycle is
/// counted and the lines latched; a halted hart ends the cycle stalled;
/// otherwise, with nothing being retried and the bus idle, the
/// highest-priority enabled pending interrupt is taken and ends the cycle.
pub open spec fn started(
    before: ReferenceCore,
    after: ReferenceCore,
    interrupts: InterruptSet,
    bus_busy: bool,
    r: Option<CpuCycle>,
) -> bool {
    let csrs = cycle_csrs(before.spec_state().csrs@, interrupts);
    let privilege = before.spec_state().privilege;
    let pc = before.spec_state().pc;
    &&& after.spec_cycle() == before.spec_cycle() + 1
    &&& after.spec_pending() == before.spec_pending()
    &&& after.spec_core_reset_vector() == before.spec_core_reset_vector()
    &&& after.spec_state().registers@ == before.spec_state().registers@
    &&& after.spec_state().halted == before.spec_state().halted
    &&& after.spec_state().reset_vector == before.spec_state().reset_vector
    &&& if !before.spec_state().halted && before.spec_pending() is None && !bus_busy && csrs.pending_interrupt(
        privilege,
    ) is Some {
        let trap = Trap::Interrupt(csrs.pending_interrupt(privilege)->0);
        &&& r == Some(CpuCycle { retired_instructions: 0, stalled: true })
        &&& (after.spec_state().csrs@, after.spec_state().privilege, after.spec_state().pc) == csrs.trap_entered(
            trap,
            pc,
            privilege,
        )
        &&& after.spec_last_result() == (ExecutionResult { retired: 0, trap: Some(trap), memory_access: false })
    } else {
        &&& r == (if before.spec_state().halted {
            Some(CpuCycle { retired_instructions: 0, stalled: true })
        } else {
            None
        })
        &&& after.spec_state().csrs@ == csrs
        &&& after.spec_state().privilege == privilege
        &&& after.spec_state().pc == pc
        &&& after.spec_last_result() == before.spec_last_result()
    }
}

/// Finishing the fetch of the word at the pc of `before`, given the bus's
/// `answer`, gives `after` and `r`.
pub open spec fn fetched(
    before: ReferenceCore,
    after: ReferenceCore,
    answer: Result<u32, BusError>,
    r: Result<Option<DecodedInstruction>, CpuError>,
) -> bool {
    let pc = before.spec_state().pc;
    let kept = after.spec_state() == before.spec_state();
    &&& after.spec_cycle() == before.spec_cycle()
    &&& after.spec_pending() == before.spec_pending()
    &&& after.spec_core_reset_vector() == before.spec_core_reset_vector()
    &&& match answer {
        Ok(raw) => match spec_decode(raw, pc) {
            Ok(d) => r == Ok::<Option<DecodedInstruction>, CpuError>(Some(d)) && kept && after.spec_last_result()
                == before.spec_last_result(),
            Err(_) => {
                let t = Trap::Exception(Exception::IllegalInstruction { instruction: raw });
                &&& r == Ok::<Option<DecodedInstruction>, CpuError>(None)
                &&& trap_taken(&before.spec_state(), &after.spec_state(), t, pc)
                &&& after.spec_last_result() == (ExecutionResult { retired: 0, trap: Some(t), memory_access: false })
            },
        },
        Err(BusError::Busy { .. }) => r == Ok::<Option<DecodedInstruction>, CpuError>(None) && kept
            && after.spec_last_result() == (ExecutionResult { retired: 0, trap: None, memory_access: true }),
        Err(BusError::MisalignedAccess { .. }) => {
            let t = Trap::Exception(Exception::InstructionAddressMisaligned { addr: pc });
            &&& r == Ok::<Option<DecodedInstruction>, CpuError>(None)
            &&& trap_taken(&before.spec_state(), &after.spec_state(), t, pc)
            &&& after.spec_last_result() == (ExecutionResult { retired: 0, trap: Some(t), memory_access: false })
        },
        Err(e) => r == Err::<Option<DecodedInstruction>, CpuError>(CpuError::Bus(e)) && kept && after.spec_last_result()
            == before.spec_last_result(),
    }
}

/// Executing `decoded` on `before` with result `executed` ends the cycle as
/// `after` with report `r`: an instruction that neither retired nor trapped
/// is kept to be retried next cycle.
pub open spec fn executed_cycle(
    before: ReferenceCore,
    after: ReferenceCore,
    decoded: DecodedInstruction,
    executed: Result<ExecutionResult, CpuError>,
    r: Result<CpuCycle, CpuError>,
) -> bool {
    &&& execution(before.spec_state(), after.spec_state(), decoded, executed)
    &&& after.spec_cycle() == before.spec_cycle()
    &&& after.spec_core_reset_vector() == before.spec_core_reset_vector()
    &&& match executed {
        Ok(res) => {
            &&& r == Ok::<CpuCycle, CpuError>(CpuCycle { retired_instructions: res.retired, stalled: res.retired == 0 })
            &&& after.spec_last_result() == res
            &&& after.spec_pending() == (if res.retired == 0 && res.trap is None {
                Some(decoded)
            } else {
                None
            })
        },
        Err(e) => r == Err::<CpuCycle, CpuError>(e) && after.spec_pending() == before.spec_pending()
            && after.spec_last_result() == before.spec_last_result(),
    }
}

/// One cycle of `before` ending as `after` with report `r`, for the bus's
/// answers: started on `interrupts` and `bus_busy`; unless that ended it,
/// the instruction being retried is executed, or else the word at the pc is
/// fetched (the bus answering `answer`) and, if it decodes, executed.
pub open spec fn cycle_trace(
    before: ReferenceCore,
    after: ReferenceCore,
    r: Result<CpuCycle, CpuError>,
    interrupts: InterruptSet,
    bus_busy: bool,
    after_start: ReferenceCore,
    start: Option<CpuCycle>,
    answer: Result<u32, BusError>,
    after_fetch: ReferenceCore,
    fetch: Result<Option<DecodedInstruction>, CpuError>,
    executed: Result<ExecutionResult, CpuError>,
) -> bool {
    &&& started(before, after_start, interrupts, bus_busy, start)
    &&& match start {
        Some(c) => r == Ok::<CpuCycle, CpuError>(c) && same_core(after, after_start),
        None => match after_start.spec_pending() {
            Some(d) => executed_cycle(after_start, after, d, executed, r),
            None => {
                &&& fetched(after_start, after_fetch, answer, fetch)
                &&& match fetch {
                    Ok(Some(d)) => executed_cycle(after_fetch, after, d, executed, r),
                    Ok(None) => r == Ok::<CpuCycle, CpuError>(CpuCycle { retired_instructions: 0, stalled: true })
                        && same_core(after, after_fetch),
                    Err(e) => r == Err::<CpuCycle, CpuError>(e) && same_core(after, after_fetch),
                }
            },
        },
    }
}

/// What a cycle asks of a bus that keeps its access log, going from
/// `log_before` to `log_after`: when the cycle fetched (it did not end at
/// its start and nothing was being retried), first the word at the pc,
/// `fetch_log`, then whatever the instruction's memory access asks.
pub open spec fn cycle_bus_log(
    keeps_log: bool,
    log_before: Seq<ByteAccess>,
    log_after: Seq<ByteAccess>,
    start: Option<CpuCycle>,
    after_start: ReferenceCore,
    answer: Result<u32, BusError>,
    fetch_log: Seq<ByteAccess>,
) -> bool {
    keeps_log ==> {
        &&& log_grows(log_before + fetch_log, log_after)
        &&& if start is None && after_start.spec_pending() is None {
            let pc = after_start.spec_state().pc;
            logged(Seq::empty(), fetch_log, aligned_accesses(pc % 4 == 0, byte_reads(pc as u64, 4)), answer is Ok)
        } else {
            fetch_log == Seq::<ByteAccess>::empty()
        }
    }
}

impl ReferenceCore {
    /// The address the core restarts from on reset.
    pub closed spec fn spec_core_reset_vector(&self) -> u32 {
        self.reset_vector
    }

    /// The hart the core runs.
    pub closed spec fn spec_state(&self) -> HartState {
        self.state
    }

    /// The instruction being retried after a stalled memory access, if any.
    pub closed spec fn spec_pending(&self) -> Option<DecodedInstruction> {
        self.pending_decoded
    }

    /// The status of the last cycle.
    pub closed spec fn spec_last_result(&self) -> ExecutionResult {
        self.last_result
    }

    /// A core at cycle zero whose hart sits at `reset_vector` in machine mode.
    pub fn new(reset_vector: u32) -> (c: Self)
        ensures
            c.spec_cycle() == 0,
            c.spec_state().is_reset(reset_vector),
            c.spec_core_reset_vector() == reset_vector,
            c.spec_pending() is None,
            c.well_formed(),
            c.spec_last_result() == (ExecutionResult { retired: 0, trap: None, memory_access: false }),
    {
        ReferenceCore {
            reset_vector,
            cycle: 0,
            state: HartState::new(reset_vector),
            page_walker: PageWalker::new(),
            pending_decoded: None,
            last_result: ExecutionResult::default(),
        }
    }

    /// The trap taken in the last cycle, if any.
    pub fn last_trap(&self) -> (t: Option<Trap>)
        ensures
            t == self.spec_last_result().trap,
    {
        self.last_result.trap
    }

    /// Start a cycle: count it, latch the interrupt lines the bus reports
    /// into `mip`, and, when no instruction is being retried and the bus is
    /// idle, take the highest-priority enabled pending interrupt before any
    /// fetch. Returns the cycle's report when the cycle ends here: a halted
    /// hart, or an interrupt taken.
    pub fn start_cycle(&mut self, interrupts: InterruptSet, bus_busy: bool) -> (r: Option<CpuCycle>)
        requires
            old(self).spec_cycle() < u64::MAX,
        ensures
            started(*old(self), *final(self), interrupts, bus_busy, r),
    {
        self.cycle = self.cycle + 1;
        self.state.csrs.increment_cycle();
        self.state.csrs.sync_interrupts(interrupts);
        if self.state.halted {
            return Some(Self::stalled_cycle());
        }
        if self.pending_decoded.is_none() && !bus_busy {
            if let Some(interrupt) = self.state.csrs.pending_interrupt(self.state.privilege) {
                let current_pc = self.state.pc;
                self.last_result = apply_trap(&mut self.state, Trap::Interrupt(interrupt), current_pc);
                return Some(Self::stalled_cycle());
            }
        }
        None
    }

    /// Finish the fetch of the word at the hart's pc given what the bus
    /// answered: a busy bus stalls the cycle with the hart unchanged, a
    /// misaligned pc traps, any other bus failure is reported, a word that
    /// does not decode traps as an illegal instruction, and a word that
    /// decodes is handed on for execution (`Ok(None)`: the cycle is over).
    pub fn finish_fetch(&mut self, answer: Result<u32, BusError>) -> (r: Result<Option<DecodedInstruction>, CpuError>)
        ensures
            fetched(*old(self), *final(self), answer, r),
            r matches Ok(Some(d)) ==> d.register_fields_valid(),
    {
        let pc = self.state.pc;
        let raw = match answer {
            Ok(raw) => raw,
            Err(BusError::Busy { .. }) => {
                self.last_result = ExecutionResult { retired: 0, trap: None, memory_access: true };
                return Ok(None);
            },
            Err(BusError::MisalignedAccess { .. }) => {
                self.last_result = apply_trap(
                    &mut self.state,
                    Trap::Exception(Exception::InstructionAddressMisaligned { addr: pc }),
                    pc,
                );
                return Ok(None);
            },
            Err(error) => return Err(CpuError::Bus(error)),
        };
        match decode_stage(raw, pc) {
            Ok(decoded) => Ok(Some(decoded)),
            Err(_) => {
                self.last_result = apply_trap(
                    &mut self.state,
                    Trap::Exception(Exception::IllegalInstruction { instruction: raw }),
                    pc,
                );
                Ok(None)
            },
        }
    }

    fn stalled_cycle() -> (c: CpuCycle)
        ensures
            c == (CpuCycle { retired_instructions: 0, stalled: true }),
    {
        CpuCycle { retired_instructions: 0, stalled: true }
    }
}

impl CpuModel for ReferenceCore {
    closed spec fn spec_hart(&self) -> HartState {
        self.spec_state()
    }

    fn hart_state(&self) -> (s: &HartState)
        ensures
            *s == self.spec_state(),
    {
        &self.state
    }

    fn hart_state_mut(&mut self) -> (s: &mut HartState)
        ensures
            *s == old(self).spec_state(),
            final(self).spec_state() == *final(s),
            final(self).spec_cycle() == old(self).spec_cycle(),
            final(self).spec_pending() == old(self).spec_pending(),
            final(self).well_formed() == old(self).well_formed(),
    {
        &mut self.state
    }

    fn model_name(&self) -> (n: &'static str) {
        "reference"
    }
}

impl SimComponent for ReferenceCore {
    closed spec fn well_formed(&self) -> bool {
        &&& self.pending_decoded matches Some(d) ==> d.register_fields_valid()
    }

    fn reset(&mut self)
        ensures
            final(self).spec_cycle() == 0,
            final(self).spec_state().is_reset(old(self).spec_core_reset_vector()),
            final(self).spec_pending() is None,
    {
        self.cycle = 0;
        let reset_vector = self.reset_vector;
        self.state.reset(reset_vector);
        self.page_walker.reset();
        self.pending_decoded = None;
        self.last_result = ExecutionResult::default();
    }
}

impl Processor for ReferenceCore {
    type Error = CpuError;

    closed spec fn spec_cycle(&self) -> u64 {
        self.cycle
    }

    /// The cycle follows `cycle_trace` for some answers of the bus.
    open spec fn spec_stepped(&self, after: &Self, r: Result<CpuCycle, CpuError>) -> bool {
        exists|
            interrupts: InterruptSet,
            bus_busy: bool,
            after_start: ReferenceCore,
            start: Option<CpuCycle>,
            answer: Result<u32, BusError>,
            after_fetch: ReferenceCore,
            fetch: Result<Option<DecodedInstruction>, CpuError>,
            executed: Result<ExecutionResult, CpuError>,
        |
            #![trigger cycle_trace(*self, *after, r, interrupts, bus_busy, after_start, start, answer, after_fetch, fetch, executed)]
            cycle_trace(*self, *after, r, interrupts, bus_busy, after_start, start, answer, after_fetch, fetch, executed)
    }

    fn cycle(&self) -> (c: u64) {
        self.cycle
    }

    /// Take a pending interrupt, or fetch and decode the next instruction (or
    /// retry the one whose memory access stalled) and execute it to completion.
    /// The cycle is `started` on the interrupt lines and busy state the bus
    /// reports, then `fetched` on the bus's answer for the word at the pc,
    /// then the instruction's `execution`.
    fn step_cycle<B: Bus>(&mut self, bus: &mut B) -> (r: Result<CpuCycle, CpuError>)
        ensures
            r matches Ok(c) ==> c.retired_instructions <= 1 && c.stalled == (c.retired_instructions == 0),
            old(self).spec_state().halted ==> r == Ok::<CpuCycle, CpuError>(
                CpuCycle { retired_instructions: 0, stalled: true },
            ) && final(self).spec_state().registers@ == old(self).spec_state().registers@
                && final(self).spec_state().pc == old(self).spec_state().pc
                && final(self).spec_state().privilege == old(self).spec_state().privilege,
            final(self).spec_state().halted == old(self).spec_state().halted,
            exists|
                interrupts: InterruptSet,
                bus_busy: bool,
                after_start: ReferenceCore,
                start: Option<CpuCycle>,
                answer: Result<u32, BusError>,
                after_fetch: ReferenceCore,
                fetch: Result<Option<DecodedInstruction>, CpuError>,
                executed: Result<ExecutionResult, CpuError>,
                fetch_log: Seq<ByteAccess>,
            |
                #![trigger cycle_trace(*old(self), *final(self), r, interrupts, bus_busy, after_start, start, answer, after_fetch, fetch, executed), cycle_bus_log(old(bus).spec_keeps_log(), old(bus).spec_log(), final(bus).spec_log(), start, after_start, answer, fetch_log)]
                cycle_trace(
                    *old(self),
                    *final(self),
                    r,
                    interrupts,
                    bus_busy,
                    after_start,
                    start,
                    answer,
                    after_fetch,
                    fetch,
                    executed,
                ) && cycle_bus_log(
                    old(bus).spec_keeps_log(),
                    old(bus).spec_log(),
                    final(bus).spec_log(),
                    start,
                    after_start,
                    answer,
                    fetch_log,
                ) && (old(bus).spec_keeps_log() ==> final(bus).spec_keeps_log()),
    {
        let interrupts = bus.pending_interrupts();
        let bus_busy = bus.is_busy();
        let start = self.start_cycle(interrupts, bus_busy);
        let ghost after_start = *self;
        let ghost mut fetch_log: Seq<ByteAccess> = Seq::empty();
        proof {
            assert(old(bus).spec_log() + fetch_log =~= old(bus).spec_log());
            assert(log_grows(old(bus).spec_log() + fetch_log, bus.spec_log()));
        }
        if let Some(cycle) = start {
            proof {
                assert(cycle_trace(*old(self), *self, Ok(cycle), interrupts, bus_busy, after_start, start,
                    Ok(0), after_start, Ok(None), Ok(ExecutionResult { retired: 0, trap: None, memory_access: false })));
                assert(cycle_bus_log(old(bus).spec_keeps_log(), old(bus).spec_log(), bus.spec_log(), start, after_start,
                    Ok(0), fetch_log));
            }
            return Ok(cycle);
        }
        let ghost mut answer: Result<u32, BusError> = Ok(0);
        let ghost mut fetch: Result<Option<DecodedInstruction>, CpuError> = Ok(None);
        let decoded = match self.pending_decoded {
            Some(decoded) => decoded,
            None => {
                let pc = self.state.pc;
                let word = bus.fetch32(pc as u64);
                let finished = self.finish_fetch(word);
                proof {
                    answer = word;
                    fetch = finished;
                    if old(bus).spec_keeps_log() {
                        lemma_logged_grows(
                            old(bus).spec_log(),
                            bus.spec_log(),
                            aligned_accesses(pc % 4 == 0, byte_reads(pc as u64, 4)),
                            word is Ok,
                        );
                        fetch_log = bus.spec_log().subrange(old(bus).spec_log().len() as int, bus.spec_log().len() as int);
                        assert(log_grows(old(bus).spec_log() + fetch_log, bus.spec_log()));
                    }
                }
                match finished {
                    Ok(Some(decoded)) => decoded,
                    Ok(None) => {
                        let cycle = Self::stalled_cycle();
                        proof {
                            assert(cycle_trace(*old(self), *self, Ok(cycle), interrupts, bus_busy, after_start, start,
                                answer, *self, fetch, Ok(ExecutionResult { retired: 0, trap: None, memory_access: false })));
                            assert(cycle_bus_log(old(bus).spec_keeps_log(), old(bus).spec_log(), bus.spec_log(), start,
                                after_start, answer, fetch_log));
                        }
                        return Ok(cycle);
                    },
                    Err(error) => {
                        proof {
                            assert(cycle_trace(*old(self), *self, Err(error), interrupts, bus_busy, after_start,
                                start, answer, *self, fetch, Ok(ExecutionResult { retired: 0, trap: None, memory_access: false })));
                            assert(cycle_bus_log(old(bus).spec_keeps_log(), old(bus).spec_log(), bus.spec_log(), start,
                                after_start, answer, fetch_log));
                        }
                        return Err(error);
                    },
                }
            },
        };
        let ghost after_fetch = *self;
        let ghost log_mid = bus.spec_log();
        proof {
            self.state.registers.lemma_register_count();
        }
        let executed = execute_decoded(&mut self.state, &mut self.page_walker, bus, decoded);
        let result = match executed {
            Ok(result) => result,
            Err(error) => {
                proof {
                    assert(cycle_trace(*old(self), *self, Err(error), interrupts, bus_busy, after_start, start, answer,
                        after_fetch, fetch, executed));
                    if old(bus).spec_keeps_log() {
                        lemma_log_grows_trans(old(bus).spec_log() + fetch_log, log_mid, bus.spec_log());
                    }
                    assert(cycle_bus_log(old(bus).spec_keeps_log(), old(bus).spec_log(), bus.spec_log(), start,
                        after_start, answer, fetch_log));
                }
                return Err(error);
            },
        };
        self.last_result = result;
        self.pending_decoded = if result.retired == 0 && result.trap.is_none() {
            Some(decoded)
        } else {
            None
        };
        let cycle = CpuCycle { retired_instructions: result.retired, stalled: result.retired == 0 };
        proof {
            assert(cycle_trace(*old(self), *self, Ok(cycle), interrupts, bus_busy, after_start, start, answer,
                after_fetch, fetch, executed));
            if old(bus).spec_keeps_log() {
                lemma_log_grows_trans(old(bus).spec_log() + fetch_log, log_mid, bus.spec_log());
            }
            assert(cycle_bus_log(old(bus).spec_keeps_log(), old(bus).spec_log(), bus.spec_log(), start, after_start,
                answer, fetch_log));
        }
        Ok(cycle)
    }
}

} // verus!
