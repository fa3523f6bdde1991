//! Round-robin arbitration between the CPU and autonomous bus masters.

use vstd::prelude::*;
use crate::bus::{Address, Bus, BusError, BusMaster, BusMasterRequest, BusMasterResponse, InterruptSet};

verus! {

/// Grant and stall counters of an arbiter.
#[derive(Debug, Clone, Copy, PartialEq, Eq, Structural)]
pub struct ArbiterStats {
    pub master_grants: u64,
    pub cpu_stall_cycles: u64,
}

impl Default for ArbiterStats {
    fn default() -> (s: Self)
        ensures
            s == (ArbiterStats { master_grants: 0, cpu_stall_cycles: 0 }),
    {
        ArbiterStats { master_grants: 0, cpu_stall_cycles: 0 }
    }
}

/// A request granted to a master and not yet completed, with the progress
/// of a burst: the beats carried out and the words a read gathered.
#[derive(Debug)]
pub struct ActiveRequest {
    pub master_index: usize,
    pub request: BusMasterRequest,
    pub completed_beats: usize,
    pub read_words: Vec<u32>,
}

/// The address of beat `beat` of a burst at `base`, when it exists.
fn beat_address(base: Address, beat: usize) -> (a: Option<Address>)
    ensures
        base + 4 * beat <= u64::MAX ==> a == Some((base + 4 * beat) as Address),
        base + 4 * beat > u64::MAX ==> a is None,
{
    let offset = (beat as u64).checked_mul(4)?;
    base.checked_add(offset)
}

/// A round-robin scan from master `start` among `count`: the masters asked,
/// in order, each with whether it had a request. They are asked cyclically
/// from `start`, none before the last had a request, and the scan stops
/// early only at a master that had one.
pub open spec fn round_robin_scan(start: int, count: int, scan: Seq<(usize, bool)>) -> bool {
    &&& scan.len() <= count
    &&& forall|j: int| 0 <= j < scan.len() ==> (#[trigger] scan[j]).0 == (start + j) % count
    &&& forall|j: int| 0 <= j < scan.len() - 1 ==> !(#[trigger] scan[j]).1
    &&& scan.len() < count ==> scan.len() > 0 && scan.last().1
}

/// The master a round-robin scan grants is the first with a request in
/// cyclic order from the pointer: every master `m` nearer the pointer than
/// the granted one, cyclically, was asked and had no request, and when no
/// master is granted every master was asked and had none.
pub proof fn round_robin_grants_first_requesting(start: int, count: int, scan: Seq<(usize, bool)>, m: int)
    requires
        0 <= start < count,
        0 <= m < count,
        round_robin_scan(start, count, scan),
    ensures
        ({
            let distance = if m >= start { m - start } else { m - start + count };
            let granted = scan.len() > 0 && scan.last().1;
            &&& granted && distance < scan.len() - 1 ==> scan[distance] == (m as usize, false)
            &&& granted && distance == scan.len() - 1 ==> scan.last() == (m as usize, true)
            &&& !granted ==> scan.len() == count && scan[distance] == (m as usize, false)
        }),
{
    let distance = if m >= start { m - start } else { m - start + count };
    assert((start + distance) % count == m) by (nonlinear_arith)
        requires
            0 <= start < count,
            0 <= m < count,
            distance == (if m >= start { m - start } else { m - start + count }),
    {
        if m >= start {
            assert(start + distance == m);
        } else {
            assert(start + distance == m + count);
        }
    }
    if distance < scan.len() {
        assert(scan[distance].0 == (start + distance) % count);
    }
}

/// A bus wrapper that grants the lower bus to one master at a time, round
/// robin; a cycle granted to a master is refused to the CPU.
#[derive(Debug)]
pub struct ArbiterBus<B, M> {
    inner: B,
    masters: Vec<M>,
    next_master_index: usize,
    active_request: Option<ActiveRequest>,
    cpu_reserved_this_cycle: bool,
    stats: ArbiterStats,
}

impl<B: Bus, M: BusMaster> ArbiterBus<B, M> {
    /// The wrapped bus.
    pub closed spec fn spec_inner(&self) -> B {
        self.inner
    }

    /// The registered masters, in registration order.
    pub closed spec fn spec_masters(&self) -> Seq<M> {
        self.masters@
    }

    /// The number of registered masters.
    pub closed spec fn spec_master_count(&self) -> nat {
        self.masters@.len()
    }

    /// The master the next round-robin scan starts from.
    pub closed spec fn spec_next_master(&self) -> usize {
        self.next_master_index
    }

    /// The granted request still in progress, if any.
    pub closed spec fn spec_active(&self) -> Option<ActiveRequest> {
        self.active_request
    }

    /// Whether the current cycle belongs to a master.
    pub closed spec fn spec_reserved(&self) -> bool {
        self.cpu_reserved_this_cycle
    }

    /// The counters.
    pub closed spec fn spec_stats(&self) -> ArbiterStats {
        self.stats
    }

    /// The round-robin pointer names a master, and so does a granted request.
    pub closed spec fn well_formed(&self) -> bool {
        &&& (self.next_master_index < self.masters@.len() || self.next_master_index == 0)
        &&& (self.active_request matches Some(a) ==> a.master_index < self.masters@.len())
    }

    /// An arbiter with no masters around `inner`.
    pub fn new(inner: B) -> (a: Self)
        ensures
            a.spec_inner() == inner,
            a.spec_master_count() == 0,
            a.spec_next_master() == 0,
            a.spec_active() is None,
            !a.spec_reserved(),
            a.spec_stats() == (ArbiterStats { master_grants: 0, cpu_stall_cycles: 0 }),
            a.well_formed(),
    {
        ArbiterBus {
            inner,
            masters: Vec::new(),
            next_master_index: 0,
            active_request: None,
            cpu_reserved_this_cycle: false,
            stats: ArbiterStats::default(),
        }
    }

    /// Register a master after those already present.
    pub fn add_master(&mut self, master: M)
        ensures
            final(self).spec_master_count() == old(self).spec_master_count() + 1,
            final(self).spec_masters() == old(self).spec_masters().push(master),
            final(self).spec_next_master() == old(self).spec_next_master(),
            final(self).spec_active() == old(self).spec_active(),
            final(self).spec_inner() == old(self).spec_inner(),
            final(self).spec_stats() == old(self).spec_stats(),
            old(self).well_formed() ==> final(self).well_formed(),
    {
        self.masters.push(master);
    }

    /// The master registered at `index`.
    pub fn master(&self, index: usize) -> (m: &M)
        requires
            index < self.spec_master_count(),
        ensures
            *m == self.spec_masters()[index as int],
    {
        &self.masters[index]
    }

    /// The wrapped bus.
    pub fn inner(&self) -> (b: &B)
        ensures
            *b == self.spec_inner(),
    {
        &self.inner
    }

    /// The wrapped bus, for mutation.
    pub fn inner_mut(&mut self) -> (b: &mut B)
        ensures
            *b == old(self).spec_inner(),
            final(self).spec_inner() == *final(b),
            final(self).spec_masters() == old(self).spec_masters(),
            final(self).spec_active() == old(self).spec_active(),
            final(self).spec_reserved() == old(self).spec_reserved(),
            final(self).spec_next_master() == old(self).spec_next_master(),
            final(self).spec_stats() == old(self).spec_stats(),
    {
        &mut self.inner
    }

    /// The counters.
    pub fn stats(&self) -> (s: ArbiterStats)
        ensures
            s == self.spec_stats(),
    {
        self.stats
    }

    /// Carry the granted request one step on the wrapped bus: a single
    /// word, or the next beat of a burst. On completion or a hard failure
    /// report back to the master and release the grant; otherwise keep it,
    /// with its progress, for the next cycle.
    fn dispatch_request(&mut self)
        requires
            old(self).active_request matches Some(a) ==> a.master_index < old(self).masters@.len(),
        ensures
            final(self).masters@.len() == old(self).masters@.len(),
            final(self).next_master_index == old(self).next_master_index,
            final(self).cpu_reserved_this_cycle == old(self).cpu_reserved_this_cycle,
            final(self).stats == old(self).stats,
            final(self).active_request matches Some(a) ==> (old(self).active_request matches Some(o)
                && a.master_index == o.master_index && a.request == o.request),
            old(self).active_request is None ==> *final(self) == *old(self),
    {
        let mut active = match self.active_request.take() {
            Some(active) => active,
            None => {
                return ;
            },
        };
        let result: Option<Result<BusMasterResponse, BusError>> = match &active.request {
            BusMasterRequest::Load32 { addr } => match self.inner.load32(*addr) {
                Ok(value) => Some(Ok(BusMasterResponse::Load32(value))),
                Err(BusError::Busy { .. }) => None,
                Err(error) => Some(Err(error)),
            },
            BusMasterRequest::Store32 { addr, value } => match self.inner.store32(*addr, *value) {
                Ok(()) => Some(Ok(BusMasterResponse::StoreComplete)),
                Err(BusError::Busy { .. }) => None,
                Err(error) => Some(Err(error)),
            },
            BusMasterRequest::ReadWords { base_addr, beats } => {
                if active.completed_beats >= *beats {
                    let mut words: Vec<u32> = Vec::new();
                    std::mem::swap(&mut words, &mut active.read_words);
                    Some(Ok(BusMasterResponse::ReadWords(words)))
                } else {
                    match beat_address(*base_addr, active.completed_beats) {
                        None => Some(Err(BusError::UnmappedAddress { addr: *base_addr })),
                        Some(addr) => match self.inner.load32(addr) {
                            Ok(value) => {
                                active.read_words.push(value);
                                active.completed_beats = active.completed_beats + 1;
                                if active.completed_beats == *beats {
                                    let mut words: Vec<u32> = Vec::new();
                                    std::mem::swap(&mut words, &mut active.read_words);
                                    Some(Ok(BusMasterResponse::ReadWords(words)))
                                } else {
                                    None
                                }
                            },
                            Err(BusError::Busy { .. }) => None,
                            Err(error) => Some(Err(error)),
                        },
                    }
                }
            },
            BusMasterRequest::WriteWords { base_addr, words } => {
                if active.completed_beats >= words.len() {
                    Some(Ok(BusMasterResponse::WriteWordsComplete { beats: words.len() }))
                } else {
                    match beat_address(*base_addr, active.completed_beats) {
                        None => Some(Err(BusError::UnmappedAddress { addr: *base_addr })),
                        Some(addr) => match self.inner.store32(addr, words[active.completed_beats]) {
                            Ok(()) => {
                                active.completed_beats = active.completed_beats + 1;
                                if active.completed_beats == words.len() {
                                    Some(Ok(BusMasterResponse::WriteWordsComplete { beats: words.len() }))
                                } else {
                                    None
                                }
                            },
                            Err(BusError::Busy { .. }) => None,
                            Err(error) => Some(Err(error)),
                        },
                    }
                }
            },
        };
        match result {
            None => {
                self.active_request = Some(active);
            },
            Some(response) => {
                self.masters[active.master_index].on_response(response);
            },
        }
    }

    /// Ask the masters in round-robin order, starting after the last one
    /// granted, and grant the first that has a request.
    fn select_next_request(&mut self) -> (r: (Option<ActiveRequest>, Ghost<Seq<(usize, bool)>>))
        requires
            old(self).well_formed(),
        ensures
            old(self).masters@.len() > 0 ==> round_robin_scan(
                old(self).next_master_index as int,
                old(self).masters@.len() as int,
                r.1@,
            ),
            (r.0 is Some) == (r.1@.len() > 0 && r.1@.last().1),
            r.0 matches Some(a) ==> a.master_index == r.1@.last().0,
            final(self).masters@.len() == old(self).masters@.len(),
            final(self).active_request == old(self).active_request,
            final(self).cpu_reserved_this_cycle == old(self).cpu_reserved_this_cycle,
            final(self).stats.cpu_stall_cycles == old(self).stats.cpu_stall_cycles,
            r.0 matches Some(a) ==> {
                &&& a.master_index < old(self).masters@.len()
                &&& final(self).next_master_index == if a.master_index + 1 == old(self).masters@.len() {
                    0
                } else {
                    a.master_index + 1
                }
                &&& final(self).stats.master_grants == if old(self).stats.master_grants == u64::MAX {
                    u64::MAX
                } else {
                    (old(self).stats.master_grants + 1) as u64
                }
            },
            r.0 is None ==> final(self).next_master_index == old(self).next_master_index && final(self).stats
                == old(self).stats,
            old(self).masters@.len() == 0 ==> r.0 is None,
            r.0 matches Some(a) ==> (a.completed_beats == 0 && a.read_words@.len() == 0),
            old(self).well_formed() ==> final(self).well_formed(),
    {
        let count = self.masters.len();
        if count == 0 {
            return (None, Ghost(Seq::empty()));
        }
        let start = self.next_master_index;
        let mut offset: usize = 0;
        let ghost mut scan: Seq<(usize, bool)> = Seq::empty();
        while offset < count
            invariant
                scan.len() == offset,
                forall|j: int| 0 <= j < offset ==> (#[trigger] scan[j]) == (((start + j) % (count as int)) as usize, false),
                count == self.masters@.len(),
                count > 0,
                start < count,
                offset <= count,
                self.next_master_index == start,
                self.active_request == old(self).active_request,
                self.cpu_reserved_this_cycle == old(self).cpu_reserved_this_cycle,
                self.stats == old(self).stats,
                old(self).next_master_index == start,
                old(self).masters@.len() == count,
                self.active_request matches Some(a) ==> a.master_index < count,
            decreases count - offset,
        {
            let index = if offset < count - start {
                start + offset
            } else {
                offset - (count - start)
            };
            proof {
                assert(index as int == (start + offset) % (count as int)) by (nonlinear_arith)
                    requires
                        start < count,
                        offset < count,
                        index == (if offset < count - start { start + offset } else { offset - (count - start) }),
                {
                    if offset < count - start {
                        assert(start + offset < count);
                    } else {
                        assert(start + offset == index + count);
                    }
                }
            }
            if let Some(request) = self.masters[index].request() {
                proof {
                    scan = scan.push((index, true));
                }
                self.next_master_index = if index + 1 == count {
                    0
                } else {
                    index + 1
                };
                self.stats.master_grants = self.stats.master_grants.saturating_add(1);
                return (
                    Some(ActiveRequest { master_index: index, request, completed_beats: 0, read_words: Vec::new() }),
                    Ghost(scan),
                );
            }
            proof {
                scan = scan.push((index, false));
            }
            offset = offset + 1;
        }
        (None, Ghost(scan))
    }

    /// Refuse the CPU a cycle that belongs to a master, counting the stall.
    fn ensure_cpu_slot(&mut self) -> (r: Result<(), BusError>)
        ensures
            old(self).cpu_reserved_this_cycle ==> r == Err::<(), BusError>(BusError::Busy { remaining_cycles: 1 })
                && final(self).stats.cpu_stall_cycles == (if old(self).stats.cpu_stall_cycles == u64::MAX {
                u64::MAX
            } else {
                (old(self).stats.cpu_stall_cycles + 1) as u64
            }),
            !old(self).cpu_reserved_this_cycle ==> r is Ok && final(self).stats == old(self).stats,
            final(self).stats.master_grants == old(self).stats.master_grants,
            final(self).inner == old(self).inner,
            final(self).masters@ == old(self).masters@,
            final(self).next_master_index == old(self).next_master_index,
            final(self).active_request == old(self).active_request,
            final(self).cpu_reserved_this_cycle == old(self).cpu_reserved_this_cycle,
    {
        if self.cpu_reserved_this_cycle {
            self.stats.cpu_stall_cycles = self.stats.cpu_stall_cycles.saturating_add(1);
            return Err(BusError::Busy { remaining_cycles: 1 });
        }
        Ok(())
    }
}

impl<B: Bus, M: BusMaster> Bus for ArbiterBus<B, M> {
    /// Drop any grant, restart the round robin, clear the counters, and reset the wrapped bus.
    fn reset(&mut self)
        ensures
            final(self).spec_next_master() == 0,
            final(self).spec_active() is None,
            !final(self).spec_reserved(),
            final(self).spec_stats() == (ArbiterStats { master_grants: 0, cpu_stall_cycles: 0 }),
            final(self).spec_masters() == old(self).spec_masters(),
            final(self).well_formed(),
    {
        self.next_master_index = 0;
        self.active_request = None;
        self.cpu_reserved_this_cycle = false;
        self.stats = ArbiterStats::default();
        self.inner.reset();
    }

    fn fetch32(&mut self, addr: Address) -> (r: Result<u32, BusError>)
        ensures
            old(self).spec_reserved() ==> r == Err::<u32, BusError>(BusError::Busy { remaining_cycles: 1 })
                && final(self).spec_inner() == old(self).spec_inner(),
    {
        self.ensure_cpu_slot()?;
        self.inner.fetch32(addr)
    }

    fn load8(&mut self, addr: Address) -> (r: Result<u8, BusError>)
        ensures
            old(self).spec_reserved() ==> r == Err::<u8, BusError>(BusError::Busy { remaining_cycles: 1 })
                && final(self).spec_inner() == old(self).spec_inner(),
    {
        self.ensure_cpu_slot()?;
        self.inner.load8(addr)
    }

    fn store8(&mut self, addr: Address, value: u8) -> (r: Result<(), BusError>)
        ensures
            old(self).spec_reserved() ==> r == Err::<(), BusError>(BusError::Busy { remaining_cycles: 1 })
                && final(self).spec_inner() == old(self).spec_inner(),
    {
        self.ensure_cpu_slot()?;
        self.inner.store8(addr, value)
    }

    fn load16(&mut self, addr: Address) -> (r: Result<u16, BusError>)
        ensures
            old(self).spec_reserved() ==> r == Err::<u16, BusError>(BusError::Busy { remaining_cycles: 1 })
                && final(self).spec_inner() == old(self).spec_inner(),
    {
        self.ensure_cpu_slot()?;
        self.inner.load16(addr)
    }

    fn load32(&mut self, addr: Address) -> (r: Result<u32, BusError>)
        ensures
            old(self).spec_reserved() ==> r == Err::<u32, BusError>(BusError::Busy { remaining_cycles: 1 })
                && final(self).spec_inner() == old(self).spec_inner(),
    {
        self.ensure_cpu_slot()?;
        self.inner.load32(addr)
    }

    fn store16(&mut self, addr: Address, value: u16) -> (r: Result<(), BusError>)
        ensures
            old(self).spec_reserved() ==> r == Err::<(), BusError>(BusError::Busy { remaining_cycles: 1 })
                && final(self).spec_inner() == old(self).spec_inner(),
    {
        self.ensure_cpu_slot()?;
        self.inner.store16(addr, value)
    }

    fn store32(&mut self, addr: Address, value: u32) -> (r: Result<(), BusError>)
        ensures
            old(self).spec_reserved() ==> r == Err::<(), BusError>(BusError::Busy { remaining_cycles: 1 })
                && final(self).spec_inner() == old(self).spec_inner(),
    {
        self.ensure_cpu_slot()?;
        self.inner.store32(addr, value)
    }

    /// Tick the wrapped bus, then give the cycle to the granted master, or,
    /// when none holds a grant and the bus is idle, grant the next master
    /// with a request. A cycle given to a master is reserved against the CPU,
    /// and each new grant counts once in the statistics.
    fn tick(&mut self)
        ensures
            old(self).well_formed() ==> final(self).well_formed(),
            final(self).spec_reserved() ==> (old(self).spec_active() is Some || final(self).spec_stats().master_grants
                != old(self).spec_stats().master_grants || old(self).spec_stats().master_grants == u64::MAX),
            old(self).well_formed() && old(self).spec_active() is Some ==> final(self).spec_reserved(),
            old(self).spec_active() is Some ==> final(self).spec_stats().master_grants == old(self).spec_stats().master_grants,
            final(self).spec_stats().master_grants == old(self).spec_stats().master_grants
                || (final(self).spec_stats().master_grants == old(self).spec_stats().master_grants + 1
                && final(self).spec_reserved()),
    {
        self.inner.tick();
        self.cpu_reserved_this_cycle = false;
        let granted = match &self.active_request {
            Some(active) => Some(active.master_index),
            None => None,
        };
        if let Some(master_index) = granted {
            if master_index < self.masters.len() {
                self.cpu_reserved_this_cycle = true;
                self.dispatch_request();
            } else {
                self.active_request = None;
            }
            return ;
        }
        if self.inner.is_busy() {
            return ;
        }
        let count_ok = self.next_master_index < self.masters.len() || self.next_master_index == 0;
        if !count_ok {
            self.next_master_index = 0;
        }
        if let (Some(active), _) = self.select_next_request() {
            self.cpu_reserved_this_cycle = true;
            self.active_request = Some(active);
            self.dispatch_request();
        }
    }

    fn is_busy(&self) -> (b: bool)
        ensures
            self.spec_reserved() || self.spec_active() is Some ==> b,
    {
        self.cpu_reserved_this_cycle || self.active_request.is_some() || self.inner.is_busy()
    }

    fn pending_interrupts(&self) -> (s: InterruptSet) {
        self.inner.pending_interrupts()
    }
}

} // verus!
