//! An address-decoded bus: devices mapped at disjoint address ranges, with
//! explicit multi-cycle transactions and bursts and a blocking compatibility
//! path for the byte/half/word accessors of [`Bus`].

use vstd::prelude::*;
use crate::bus::{
    AccessKind, Address, AddressRange, Addressable, BurstBus, BurstPhase, BurstRequest, BurstResponse, Bus,
    BusError, InterruptSet, TransactionBus, TransactionPhase, TransactionRequest, TransactionResponse,
    ByteAccess, byte_reads, byte_writes, half_bytes, lemma_logged_whole, same_request, word_bytes,
};
use crate::bytes::{half_from_le_bytes, half_to_le_bytes, word_from_le_bytes, word_to_le_bytes};

verus! {

struct DeviceSlot<D> {
    range: AddressRange,
    name: &'static str,
    device: D,
}

struct ActiveTransaction {
    id: u64,
    device_index: usize,
    request: TransactionRequest,
    phase: TransactionPhase,
}

struct ActiveBurst {
    id: u64,
    device_index: usize,
    request: BurstRequest,
    beat_index: usize,
    read_words: Vec<u32>,
    phase: BurstPhase,
}

#[derive(Clone, Copy)]
struct CompatTransaction {
    id: u64,
    request: TransactionRequest,
}

/// Whether no two of the ranges share an address.
pub open spec fn pairwise_disjoint(ranges: Seq<AddressRange>) -> bool {
    forall|i: int, j: int| 0 <= i < ranges.len() && 0 <= j < ranges.len() && i != j ==> !(
    #[trigger] ranges[i]).spec_overlaps(#[trigger] ranges[j])
}

/// The index of the first range containing `addr`, if any.
pub open spec fn first_containing(ranges: Seq<AddressRange>, addr: Address) -> Option<int> {
    if exists|i: int| 0 <= i < ranges.len() && #[trigger] ranges[i].spec_contains(addr) {
        Some(choose|i: int| 0 <= i < ranges.len() && #[trigger] ranges[i].spec_contains(addr) && forall|j: int|
            0 <= j < i ==> !ranges[j].spec_contains(addr))
    } else {
        None
    }
}

/// The first range containing `addr` is the one at `i`.
pub proof fn lemma_first_containing_at(ranges: Seq<AddressRange>, addr: Address, i: int)
    requires
        0 <= i < ranges.len(),
        ranges[i].spec_contains(addr),
        forall|j: int| 0 <= j < i ==> !(#[trigger] ranges[j]).spec_contains(addr),
    ensures
        first_containing(ranges, addr) == Some(i),
{
    assert(exists|j: int| 0 <= j < ranges.len() && #[trigger] ranges[j].spec_contains(addr));
    assert(exists|k: int| 0 <= k < ranges.len() && #[trigger] ranges[k].spec_contains(addr) && forall|j: int|
        0 <= j < k ==> !ranges[j].spec_contains(addr)) by {
        assert(forall|j: int| 0 <= j < i ==> !ranges[j].spec_contains(addr));
    }
    let k = choose|k: int| 0 <= k < ranges.len() && #[trigger] ranges[k].spec_contains(addr) && forall|j: int|
        0 <= j < k ==> !ranges[j].spec_contains(addr);
    if k < i {
        assert(!ranges[k].spec_contains(addr));
    }
    if i < k {
        assert(!ranges[i].spec_contains(addr));
    }
}

/// Some range at or before `w`, which contains `addr`, is the first to contain it.
proof fn lemma_first_range_exists(ranges: Seq<AddressRange>, addr: Address, w: int)
    requires
        0 <= w < ranges.len(),
        ranges[w].spec_contains(addr),
    ensures
        exists|k: int| 0 <= k < ranges.len() && #[trigger] ranges[k].spec_contains(addr) && forall|j: int|
            0 <= j < k ==> !ranges[j].spec_contains(addr),
    decreases w,
{
    if exists|j: int| 0 <= j < w && #[trigger] ranges[j].spec_contains(addr) {
        let j = choose|j: int| 0 <= j < w && #[trigger] ranges[j].spec_contains(addr);
        lemma_first_range_exists(ranges, addr, j);
    } else {
        assert(forall|j: int| 0 <= j < w ==> !ranges[j].spec_contains(addr));
    }
}

/// When some range contains `addr`, `first_containing` names the first.
pub proof fn lemma_first_containing_some(ranges: Seq<AddressRange>, addr: Address)
    requires
        first_containing(ranges, addr) is Some,
    ensures
        ({
            let i = first_containing(ranges, addr)->0;
            &&& 0 <= i < ranges.len()
            &&& ranges[i].spec_contains(addr)
            &&& forall|j: int| 0 <= j < i ==> !(#[trigger] ranges[j]).spec_contains(addr)
        }),
{
    let w = choose|i: int| 0 <= i < ranges.len() && #[trigger] ranges[i].spec_contains(addr);
    lemma_first_range_exists(ranges, addr, w);
}

/// Mapping one more range after the others leaves the first range
/// containing an address that was already mapped unchanged.
pub proof fn lemma_first_containing_push(ranges: Seq<AddressRange>, range: AddressRange, addr: Address)
    requires
        first_containing(ranges, addr) is Some,
    ensures
        first_containing(ranges.push(range), addr) == first_containing(ranges, addr),
{
    lemma_first_containing_some(ranges, addr);
    let i = first_containing(ranges, addr)->0;
    let pushed = ranges.push(range);
    assert(pushed[i] == ranges[i]);
    assert forall|j: int| 0 <= j < i implies !(#[trigger] pushed[j]).spec_contains(addr) by {
        assert(pushed[j] == ranges[j]);
    }
    lemma_first_containing_at(pushed, addr, i);
}

/// `after` holds the devices of `before`, all but the one at `index`.
pub open spec fn devices_kept_except<D>(before: Seq<D>, after: Seq<D>, index: int) -> bool {
    &&& after.len() == before.len()
    &&& forall|j: int| 0 <= j < before.len() && j != index ==> #[trigger] after[j] == before[j]
}

/// The identifiers in `ids` are pairwise distinct.
pub open spec fn distinct_ids(ids: Seq<u64>) -> bool {
    forall|i: int, j: int| 0 <= i < ids.len() && 0 <= j < ids.len() && i != j ==> #[trigger] ids[i] != #[trigger] ids[j]
}

/// The outstanding transaction and burst identifiers are pairwise distinct
/// and all below `next`, so the identifier handed out next is fresh.
pub open spec fn ids_fresh(transactions: Seq<u64>, bursts: Seq<u64>, next: u64) -> bool {
    &&& distinct_ids(transactions)
    &&& distinct_ids(bursts)
    &&& forall|i: int, j: int| 0 <= i < transactions.len() && 0 <= j < bursts.len() ==> #[trigger] transactions[i]
        != #[trigger] bursts[j]
    &&& forall|i: int| 0 <= i < transactions.len() ==> #[trigger] transactions[i] < next
    &&& forall|i: int| 0 <= i < bursts.len() ==> #[trigger] bursts[i] < next
}

/// Removing an identifier by moving the last one into its place keeps the
/// identifiers fresh.
proof fn lemma_swap_remove_keeps_fresh(ids: Seq<u64>, others: Seq<u64>, next: u64, index: int, first: bool)
    requires
        0 <= index < ids.len(),
        first ==> ids_fresh(ids, others, next),
        !first ==> ids_fresh(others, ids, next),
    ensures
        first ==> ids_fresh(ids.update(index, ids.last()).drop_last(), others, next),
        !first ==> ids_fresh(others, ids.update(index, ids.last()).drop_last(), next),
{
    let kept = ids.update(index, ids.last()).drop_last();
    let n = ids.len() - 1;
    assert forall|i: int| 0 <= i < kept.len() implies #[trigger] kept[i] == ids[if i == index { n } else { i }] by {}
    assert forall|i: int, j: int| 0 <= i < kept.len() && 0 <= j < kept.len() && i != j implies #[trigger] kept[i]
        != #[trigger] kept[j] by {
        assert(kept[i] == ids[if i == index { n } else { i }]);
        assert(kept[j] == ids[if j == index { n } else { j }]);
    }
    assert forall|i: int| 0 <= i < kept.len() implies #[trigger] kept[i] < next by {
        assert(kept[i] == ids[if i == index { n } else { i }]);
    }
    assert forall|i: int, j: int| 0 <= i < kept.len() && 0 <= j < others.len() implies #[trigger] kept[i]
        != #[trigger] others[j] by {
        assert(kept[i] == ids[if i == index { n } else { i }]);
    }
}

/// Adding `next` to the identifiers keeps them fresh below `next + 1`.
proof fn lemma_push_keeps_fresh(ids: Seq<u64>, others: Seq<u64>, next: u64, first: bool)
    requires
        next < u64::MAX,
        first ==> ids_fresh(ids, others, next),
        !first ==> ids_fresh(others, ids, next),
    ensures
        first ==> ids_fresh(ids.push(next), others, (next + 1) as u64),
        !first ==> ids_fresh(others, ids.push(next), (next + 1) as u64),
{
    let pushed = ids.push(next);
    assert forall|i: int, j: int| 0 <= i < pushed.len() && 0 <= j < pushed.len() && i != j implies #[trigger] pushed[i]
        != #[trigger] pushed[j] by {
        if i < ids.len() && j < ids.len() {
            assert(pushed[i] == ids[i] && pushed[j] == ids[j]);
        } else if i < ids.len() {
            assert(pushed[i] == ids[i]);
        } else if j < ids.len() {
            assert(pushed[j] == ids[j]);
        }
    }
    assert forall|i: int, j: int| 0 <= i < pushed.len() && 0 <= j < others.len() implies #[trigger] pushed[i]
        != #[trigger] others[j] by {
        if i < ids.len() {
            assert(pushed[i] == ids[i]);
        }
    }
    assert forall|i: int| 0 <= i < pushed.len() implies #[trigger] pushed[i] < next + 1 by {
        if i < ids.len() {
            assert(pushed[i] == ids[i]);
        }
    }
}

/// The first range containing `addr` is the one `first_containing` names.
proof fn lemma_first_containing_is(ranges: Seq<AddressRange>, addr: Address, i: int)
    requires
        0 <= i < ranges.len(),
        ranges[i].spec_contains(addr),
        forall|j: int| 0 <= j < i ==> !(#[trigger] ranges[j]).spec_contains(addr),
    ensures
        first_containing(ranges, addr) == Some(i),
{
    let c = choose|c: int| 0 <= c < ranges.len() && #[trigger] ranges[c].spec_contains(addr) && forall|j: int|
        0 <= j < c ==> !ranges[j].spec_contains(addr);
    assert(0 <= c < ranges.len() && ranges[c].spec_contains(addr) && forall|j: int| 0 <= j < c ==> !ranges[j].spec_contains(addr));
    if c < i {
        assert(!ranges[c].spec_contains(addr));
    } else if c > i {
        assert(!ranges[i].spec_contains(addr));
    }
}

/// Beats 1 up to (not including) `upto` of a burst at `base` each fall first
/// in range `device`.
pub open spec fn beats_in_device(ranges: Seq<AddressRange>, base: Address, device: int, upto: int) -> bool {
    forall|b: int| 1 <= b < upto ==> #[trigger] first_containing(ranges, (base + 4 * b) as Address) == Some(device)
}

/// A burst of `beats` words at `base` is accepted: its base falls in a mapped
/// range and every later beat falls first in that same range.
pub open spec fn burst_accepted(ranges: Seq<AddressRange>, base: Address, beats: nat) -> bool {
    first_containing(ranges, base) matches Some(d) && beats_in_device(ranges, base, d, beats as int)
}

/// What mapping a device with range `range` into `ranges` answers: success
/// exactly when no mapped range overlaps it, else the overlap fault at its start.
pub open spec fn mapping_outcome(ranges: Seq<AddressRange>, range: AddressRange, r: Result<(), BusError>) -> bool {
    &&& r is Ok <==> forall|i: int| 0 <= i < ranges.len() ==> !(#[trigger] ranges[i]).spec_overlaps(range)
    &&& r is Err ==> r == Err::<(), BusError>(
        BusError::DeviceFault { addr: range.start, message: "device overlaps an existing mapping" },
    )
}

/// The transaction lifecycle: an accepted request starts its device latency
/// (or completes at once when there is none), an in-flight one counts down
/// and completes on its last cycle, and a completed one stays as it is.
pub open spec fn transaction_step(before: TransactionPhase, after: TransactionPhase) -> bool {
    match before {
        TransactionPhase::Accepted => match after {
            TransactionPhase::InFlight { remaining_cycles } => remaining_cycles > 0,
            TransactionPhase::Ready(_) | TransactionPhase::Failed(_) => true,
            TransactionPhase::Accepted => false,
        },
        TransactionPhase::InFlight { remaining_cycles } => if remaining_cycles > 1 {
            after == TransactionPhase::InFlight { remaining_cycles: (remaining_cycles - 1) as u32 }
        } else {
            after is Ready || after is Failed
        },
        _ => after == before,
    }
}

/// Whether `i` is the first position holding `id`.
pub open spec fn is_first_with_id(ids: Seq<u64>, id: u64, i: int) -> bool {
    &&& 0 <= i < ids.len()
    &&& ids[i] == id
    &&& forall|j: int| 0 <= j < i ==> ids[j] != id
}

/// Whether the request is one the memory map can carry out: a 32-bit fetch,
/// or a load or store of one, two or four bytes.
pub open spec fn supported_request(request: TransactionRequest) -> bool {
    match request.kind {
        AccessKind::Fetch => request.width == 4,
        AccessKind::Load | AccessKind::Store => request.width == 1 || request.width == 2 || request.width == 4,
    }
}

/// Whether `response` is the shape of completion `request` calls for: a read
/// of the requested width (unused bytes zero) for fetches and loads, a write
/// completion for stores.
pub open spec fn response_fits(request: TransactionRequest, response: TransactionResponse) -> bool {
    match request.kind {
        AccessKind::Store => response is WriteComplete,
        _ => match response {
            TransactionResponse::Read { data, width } => width == request.width && (width <= 2 ==> data[3]
                == 0 && data[2] == 0) && (width == 1 ==> data[1] == 0),
            TransactionResponse::WriteComplete => false,
        },
    }
}

/// The completion of the current beat of a burst: the next beat is accepted,
/// or the burst is ready after its last beat, or it failed.
pub open spec fn beat_completed(beat_index: usize, total_beats: usize, after: BurstPhase) -> bool {
    match after {
        BurstPhase::Accepted { beat_index: b, total_beats: t } => b == beat_index + 1 && t == total_beats && b
            < t,
        BurstPhase::Ready { completed_beats } => completed_beats == total_beats && beat_index + 1 == total_beats,
        BurstPhase::Failed(_) => true,
        BurstPhase::InFlight { .. } => false,
    }
}

/// The burst lifecycle, beat by beat: an accepted beat starts its device
/// latency or completes at once, an in-flight beat counts down and completes
/// on its last cycle, and a finished burst stays as it is.
pub open spec fn burst_step(before: BurstPhase, after: BurstPhase) -> bool {
    match before {
        BurstPhase::Accepted { beat_index, total_beats } => match after {
            BurstPhase::InFlight { beat_index: b, total_beats: t, remaining_cycles } => b == beat_index && t
                == total_beats && remaining_cycles > 0,
            _ => beat_completed(beat_index, total_beats, after),
        },
        BurstPhase::InFlight { beat_index, total_beats, remaining_cycles } => if remaining_cycles > 1 {
            after == BurstPhase::InFlight { beat_index, total_beats, remaining_cycles: (remaining_cycles - 1) as u32 }
        } else {
            beat_completed(beat_index, total_beats, after)
        },
        _ => after == before,
    }
}

/// Whether every beat of a burst of `beats` words from `base` lies in `range`.
pub open spec fn burst_within(range: AddressRange, base: Address, beats: nat) -> bool {
    forall|b: int| 0 <= b < beats ==> #[trigger] range.spec_contains((base + 4 * b) as Address)
}

/// The first position holding an identifier is unique.
proof fn lemma_first_with_id_unique(ids: Seq<u64>, id: u64, i: int)
    requires
        is_first_with_id(ids, id, i),
    ensures
        forall|j: int| is_first_with_id(ids, id, j) ==> j == i,
{
}

/// A simple bus that routes accesses to the first mapped device that contains the address.
pub struct MemoryMap<D> {
    devices: Vec<DeviceSlot<D>>,
    active_transactions: Vec<ActiveTransaction>,
    active_bursts: Vec<ActiveBurst>,
    compat_transaction: Option<CompatTransaction>,
    next_transaction_id: u64,
    access_log: Ghost<Seq<ByteAccess>>,
    ids_wrapped: Ghost<bool>,
}

impl<D: Addressable> MemoryMap<D> {
    /// The mapped address ranges, in mapping order.
    pub closed spec fn spec_ranges(&self) -> Seq<AddressRange> {
        Seq::new(self.devices@.len(), |i: int| self.devices@[i].range)
    }

    /// The outstanding explicit transactions: identifier, request and phase.
    pub closed spec fn spec_transactions(&self) -> Seq<(u64, TransactionRequest, TransactionPhase)> {
        Seq::new(
            self.active_transactions@.len(),
            |i: int|
                (
                    self.active_transactions@[i].id,
                    self.active_transactions@[i].request,
                    self.active_transactions@[i].phase,
                ),
        )
    }

    /// Whether the identifier counter has wrapped round since the last reset;
    /// until it does, every identifier handed out is fresh.
    pub closed spec fn spec_ids_wrapped(&self) -> bool {
        self.ids_wrapped@
    }

    /// The mapped devices, in the order they were mapped.
    pub closed spec fn spec_devices(&self) -> Seq<D> {
        Seq::new(self.devices@.len(), |i: int| self.devices@[i].device)
    }

    /// The outstanding bursts: identifier and phase.
    pub closed spec fn spec_bursts(&self) -> Seq<(u64, BurstPhase)> {
        Seq::new(self.active_bursts@.len(), |i: int| (self.active_bursts@[i].id, self.active_bursts@[i].phase))
    }

    /// The identifier the next submitted transaction or burst receives.
    pub closed spec fn spec_next_id(&self) -> u64 {
        self.next_transaction_id
    }

    /// The mapped ranges are pairwise disjoint and every outstanding request
    /// targets a mapped device.
    pub closed spec fn well_formed(&self) -> bool {
        &&& pairwise_disjoint(self.spec_ranges())
        &&& forall|k: int| 0 <= k < self.active_transactions@.len() ==> #[trigger] self.active_transactions@[k].device_index
            < self.devices@.len()
        &&& forall|k: int| 0 <= k < self.active_transactions@.len() ==> first_containing(
            self.spec_ranges(),
            (#[trigger] self.active_transactions@[k]).request.addr,
        ) == Some(self.active_transactions@[k].device_index as int)
        &&& forall|k: int| 0 <= k < self.active_bursts@.len() ==> #[trigger] self.active_bursts@[k].device_index
            < self.devices@.len()
        &&& !self.ids_wrapped@ ==> ids_fresh(self.spec_transaction_ids(), self.spec_burst_ids(), self.next_transaction_id)
        &&& forall|k: int| 0 <= k < self.active_transactions@.len() ==> (#[trigger] self.active_transactions@[k].phase
            matches TransactionPhase::Ready(response) ==> response_fits(self.active_transactions@[k].request, response))
    }

    /// An empty memory map.
    pub fn new() -> (m: Self)
        ensures
            !m.spec_ids_wrapped(),
            m.spec_ranges() == Seq::<AddressRange>::empty(),
            m.spec_devices() == Seq::<D>::empty(),
            m.spec_transactions().len() == 0,
            m.spec_bursts().len() == 0,
            m.spec_next_id() == 0,
            m.well_formed(),
    {
        let m = MemoryMap {
            devices: Vec::new(),
            active_transactions: Vec::new(),
            active_bursts: Vec::new(),
            compat_transaction: None,
            next_transaction_id: 0,
            access_log: Ghost(Seq::empty()),
            ids_wrapped: Ghost(false),
        };
        assert(m.spec_ranges() =~= Seq::<AddressRange>::empty());
        assert(m.spec_devices() =~= Seq::<D>::empty());
        m
    }

    fn overlapping_slot(&self, range: AddressRange) -> (r: Option<usize>)
        ensures
            r matches Some(i) ==> i < self.spec_ranges().len() && self.spec_ranges()[i as int].spec_overlaps(range),
            r is None ==> forall|i: int| 0 <= i < self.spec_ranges().len() ==> !(#[trigger] self.spec_ranges()[i]).spec_overlaps(range),
    {
        let mut i: usize = 0;
        while i < self.devices.len()
            invariant
                i <= self.devices@.len(),
                forall|k: int| 0 <= k < i ==> !(#[trigger] self.spec_ranges()[k]).spec_overlaps(range),
            decreases self.devices@.len() - i,
        {
            if self.devices[i].range.overlaps(range) {
                return Some(i);
            }
            i = i + 1;
        }
        None
    }

    /// Map a device into the physical address space at the range it reports,
    /// rejecting a range that overlaps one already mapped.
    pub fn map_device(&mut self, device: D) -> (r: Result<(), BusError>)
        ensures
            exists|range: AddressRange|
                #[trigger] mapping_outcome(old(self).spec_ranges(), range, r) && (r is Ok
                    ==> final(self).spec_ranges() == old(self).spec_ranges().push(range)) && (r is Err
                    ==> final(self).spec_ranges() == old(self).spec_ranges()),
            r is Ok ==> final(self).spec_devices() == old(self).spec_devices().push(device),
            r is Err ==> final(self).spec_devices() == old(self).spec_devices(),
            final(self).spec_transactions() == old(self).spec_transactions(),
            final(self).spec_bursts() == old(self).spec_bursts(),
            final(self).spec_next_id() == old(self).spec_next_id(),
            old(self).well_formed() ==> final(self).well_formed(),
            final(self).spec_log() == old(self).spec_log(),
    {
        let range = device.address_range();
        self.map_device_at(device, range)
    }

    /// Map `device` at `range`, the range it reports: success exactly when no
    /// mapped range overlaps it, the new range then coming last; otherwise
    /// the overlap fault at the range's start and nothing mapped.
    pub fn map_device_at(&mut self, device: D, range: AddressRange) -> (r: Result<(), BusError>)
        ensures
            mapping_outcome(old(self).spec_ranges(), range, r),
            r is Ok ==> final(self).spec_ranges() == old(self).spec_ranges().push(range) && final(self).spec_devices()
                == old(self).spec_devices().push(device),
            r is Err ==> final(self).spec_ranges() == old(self).spec_ranges() && final(self).spec_devices()
                == old(self).spec_devices(),
            final(self).spec_transactions() == old(self).spec_transactions(),
            final(self).spec_bursts() == old(self).spec_bursts(),
            final(self).spec_next_id() == old(self).spec_next_id(),
            old(self).well_formed() ==> final(self).well_formed(),
            final(self).spec_log() == old(self).spec_log(),
    {
        let name = device.name();
        if self.overlapping_slot(range).is_some() {
            return Err(BusError::DeviceFault { addr: range.start, message: "device overlaps an existing mapping" });
        }
        self.devices.push(DeviceSlot { range, name, device });
        assert(self.spec_ranges() =~= old(self).spec_ranges().push(range));
        assert(self.spec_devices() =~= old(self).spec_devices().push(device));
        proof {
            let rs = self.spec_ranges();
            let n = old(self).spec_ranges().len();
            assert(rs[n as int] == range);
            if old(self).well_formed() {
                assert forall|i: int, j: int|
                    0 <= i < rs.len() && 0 <= j < rs.len() && i != j implies !(#[trigger] rs[i]).spec_overlaps(
                    #[trigger] rs[j]) by {
                    if i < n && j < n {
                        assert(old(self).spec_ranges()[i] == rs[i] && old(self).spec_ranges()[j] == rs[j]);
                    } else if i == n {
                        assert(old(self).spec_ranges()[j] == rs[j]);
                        assert(!old(self).spec_ranges()[j].spec_overlaps(range));
                    } else {
                        assert(old(self).spec_ranges()[i] == rs[i]);
                        assert(!old(self).spec_ranges()[i].spec_overlaps(range));
                    }
                }
                assert forall|k: int| 0 <= k < self.active_transactions@.len() implies first_containing(
                    rs,
                    (#[trigger] self.active_transactions@[k]).request.addr,
                ) == Some(self.active_transactions@[k].device_index as int) by {
                    lemma_first_containing_push(old(self).spec_ranges(), range, self.active_transactions@[k].request.addr);
                }
            }
        }
        Ok(())
    }

    /// Drop every outstanding transaction and burst, restart identifiers at zero, and reset every device.
    pub fn reset(&mut self)
        ensures
            !final(self).spec_ids_wrapped(),
            final(self).spec_ranges() == old(self).spec_ranges(),
            final(self).spec_transactions().len() == 0,
            final(self).spec_bursts().len() == 0,
            final(self).spec_next_id() == 0,
            old(self).well_formed() ==> final(self).well_formed(),
            final(self).spec_log() == old(self).spec_log(),
    {
        self.active_transactions.clear();
        self.active_bursts.clear();
        self.compat_transaction = None;
        self.ids_wrapped = Ghost(false);
        self.next_transaction_id = 0;
        let mut i: usize = 0;
        while i < self.devices.len()
            invariant
                !self.ids_wrapped@,
                self.access_log == old(self).access_log,
                i <= self.devices@.len(),
                self.spec_ranges() == old(self).spec_ranges(),
                self.active_transactions@.len() == 0,
                self.active_bursts@.len() == 0,
                self.next_transaction_id == 0,
            decreases self.devices@.len() - i,
        {
            self.devices[i].device.reset();
            assert(self.spec_ranges() =~= old(self).spec_ranges());
            i = i + 1;
        }
    }

    /// The identifiers of the outstanding explicit transactions.
    pub closed spec fn spec_transaction_ids(&self) -> Seq<u64> {
        Seq::new(self.active_transactions@.len(), |i: int| self.active_transactions@[i].id)
    }

    /// The identifiers of the outstanding bursts.
    pub closed spec fn spec_burst_ids(&self) -> Seq<u64> {
        Seq::new(self.active_bursts@.len(), |i: int| self.active_bursts@[i].id)
    }

    /// Only the devices' internal state may differ.
    closed spec fn same_bookkeeping(&self, other: &Self) -> bool {
        &&& self.spec_ranges() == other.spec_ranges()
        &&& self.devices@.len() == other.devices@.len()
        &&& self.active_transactions@ == other.active_transactions@
        &&& self.active_bursts@ == other.active_bursts@
        &&& self.compat_transaction == other.compat_transaction
        &&& self.next_transaction_id == other.next_transaction_id
        &&& self.ids_wrapped == other.ids_wrapped
    }

    fn device_load8(&mut self, index: usize, addr: Address) -> (r: Result<u8, BusError>)
        requires
            index < old(self).devices@.len(),
        ensures
            final(self).same_bookkeeping(old(self)),
            devices_kept_except(old(self).spec_devices(), final(self).spec_devices(), index as int),
            final(self).spec_log() == old(self).spec_log(),
    {
        let r = self.devices[index].device.load8(addr);
        assert(self.spec_ranges() =~= old(self).spec_ranges());
        r
    }

    fn device_latency(&mut self, index: usize, addr: Address, kind: AccessKind, width: usize) -> (n: u32)
        requires
            index < old(self).devices@.len(),
        ensures
            final(self).same_bookkeeping(old(self)),
            devices_kept_except(old(self).spec_devices(), final(self).spec_devices(), index as int),
            final(self).spec_log() == old(self).spec_log(),
    {
        let n = self.devices[index].device.access_latency(addr, kind, width);
        assert(self.spec_ranges() =~= old(self).spec_ranges());
        n
    }

    fn device_store8(&mut self, index: usize, addr: Address, value: u8) -> (r: Result<(), BusError>)
        requires
            index < old(self).devices@.len(),
        ensures
            final(self).same_bookkeeping(old(self)),
            devices_kept_except(old(self).spec_devices(), final(self).spec_devices(), index as int),
            final(self).spec_log() == old(self).spec_log(),
    {
        let r = self.devices[index].device.store8(addr, value);
        assert(self.spec_ranges() =~= old(self).spec_ranges());
        r
    }

    /// Store a byte straight into the `index`-th mapped device, past the
    /// transaction queue, as the device's owner does through a side channel.
    pub fn store8_to_device(&mut self, index: usize, addr: Address, value: u8) -> (r: Result<(), BusError>)
        ensures
            final(self).spec_ranges() == old(self).spec_ranges(),
            final(self).spec_transactions() == old(self).spec_transactions(),
            final(self).spec_bursts() == old(self).spec_bursts(),
            final(self).spec_next_id() == old(self).spec_next_id(),
            old(self).well_formed() ==> final(self).well_formed(),
            index >= old(self).spec_ranges().len() ==> r == Err::<(), BusError>(
                BusError::DeviceFault { addr, message: "no device at this index" },
            ),
            final(self).spec_log() == old(self).spec_log(),
    {
        if index >= self.devices.len() {
            return Err(BusError::DeviceFault { addr, message: "no device at this index" });
        }
        let r = self.device_store8(index, addr, value);
        assert(self.spec_transactions() =~= old(self).spec_transactions());
        assert(self.spec_bursts() =~= old(self).spec_bursts());
        assert(self.spec_transaction_ids() =~= old(self).spec_transaction_ids());
        assert(self.spec_burst_ids() =~= old(self).spec_burst_ids());
        r
    }

    /// Carry out one request against device `index`, byte by byte, stopping at the first failure.
    fn execute_request(&mut self, index: usize, request: TransactionRequest) -> (r: Result<TransactionResponse, BusError>)
        requires
            index < old(self).devices@.len(),
        ensures
            final(self).same_bookkeeping(old(self)),
            !supported_request(request) ==> (r matches Err(BusError::DeviceFault { addr, .. }) && addr == request.addr),
            r matches Ok(response) ==> supported_request(request) && response_fits(request, response),
            devices_kept_except(old(self).spec_devices(), final(self).spec_devices(), index as int),
            final(self).spec_log() == old(self).spec_log(),
    {
        let addr = request.addr;
        let supported = match request.kind {
            AccessKind::Fetch => request.width == 4,
            AccessKind::Load | AccessKind::Store => request.width == 1 || request.width == 2 || request.width == 4,
        };
        if !supported || addr > u64::MAX - 4 {
            if !supported {
                return Err(BusError::DeviceFault { addr, message: "unsupported transaction" });
            }
            return Err(BusError::UnmappedAddress { addr });
        }
        match request.kind {
            AccessKind::Store => {
                let data = request.write_data;
                self.device_store8(index, addr, data[0])?;
                if request.width >= 2 {
                    self.device_store8(index, addr + 1, data[1])?;
                }
                if request.width == 4 {
                    self.device_store8(index, addr + 2, data[2])?;
                    self.device_store8(index, addr + 3, data[3])?;
                }
                Ok(TransactionResponse::WriteComplete)
            },
            _ => {
                let mut data: [u8; 4] = [0; 4];
                let b0 = self.device_load8(index, addr)?;
                data[0] = b0;
                if request.width >= 2 {
                    let b1 = self.device_load8(index, addr + 1)?;
                    data[1] = b1;
                }
                if request.width == 4 {
                    let b2 = self.device_load8(index, addr + 2)?;
                    data[2] = b2;
                    let b3 = self.device_load8(index, addr + 3)?;
                    data[3] = b3;
                }
                Ok(TransactionResponse::Read { data, width: request.width })
            },
        }
    }

    fn transaction_index(&self, id: u64) -> (r: Option<usize>)
        ensures
            r matches Some(i) ==> is_first_with_id(self.spec_transaction_ids(), id, i as int),
            r is None <==> !self.spec_transaction_ids().contains(id),
    {
        let mut i: usize = 0;
        while i < self.active_transactions.len()
            invariant
                i <= self.active_transactions@.len(),
                forall|k: int| 0 <= k < i ==> self.spec_transaction_ids()[k] != id,
            decreases self.active_transactions@.len() - i,
        {
            if self.active_transactions[i].id == id {
                proof {
                    assert(self.spec_transaction_ids()[i as int] == id);
                }
                return Some(i);
            }
            i = i + 1;
        }
        proof {
            if self.spec_transaction_ids().contains(id) {
                let k = choose|k: int| 0 <= k < self.spec_transaction_ids().len() && self.spec_transaction_ids()[k] == id;
                assert(self.spec_transaction_ids()[k] != id);
            }
        }
        None
    }

    fn next_phase(&mut self, index: usize) -> (p: TransactionPhase)
        requires
            index < old(self).active_transactions@.len(),
        ensures
            final(self).same_bookkeeping(old(self)),
            old(self).active_transactions@[index as int].device_index < old(self).devices@.len() ==> transaction_step(
                old(self).active_transactions@[index as int].phase,
                p,
            ),
            old(self).active_transactions@[index as int].device_index >= old(self).devices@.len() ==> p
                == old(self).active_transactions@[index as int].phase,
            p matches TransactionPhase::Ready(response) ==> (response_fits(
                old(self).active_transactions@[index as int].request,
                response,
            ) || p == old(self).active_transactions@[index as int].phase),
            devices_kept_except(
                old(self).spec_devices(),
                final(self).spec_devices(),
                old(self).active_transactions@[index as int].device_index as int,
            ),
            final(self).spec_log() == old(self).spec_log(),
    {
        let device_index = self.active_transactions[index].device_index;
        let request = self.active_transactions[index].request;
        let phase = self.active_transactions[index].phase;
        if device_index >= self.devices.len() {
            return phase;
        }
        match phase {
            TransactionPhase::Accepted => {
                let latency = self.device_latency(device_index, request.addr, request.kind, request.width);
                if latency == 0 {
                    match self.execute_request(device_index, request) {
                        Ok(response) => TransactionPhase::Ready(response),
                        Err(error) => TransactionPhase::Failed(error),
                    }
                } else {
                    TransactionPhase::InFlight { remaining_cycles: latency }
                }
            },
            TransactionPhase::InFlight { remaining_cycles } => {
                if remaining_cycles > 1 {
                    TransactionPhase::InFlight { remaining_cycles: remaining_cycles - 1 }
                } else {
                    match self.execute_request(device_index, request) {
                        Ok(response) => TransactionPhase::Ready(response),
                        Err(error) => TransactionPhase::Failed(error),
                    }
                }
            },
            other => other,
        }
    }

    fn advance_transaction_at(&mut self, index: usize)
        ensures
            old(self).well_formed() ==> final(self).well_formed(),
            final(self).spec_ranges() == old(self).spec_ranges(),
            final(self).spec_transaction_ids() == old(self).spec_transaction_ids(),
            final(self).active_transactions@.len() == old(self).active_transactions@.len(),
            forall|k: int| 0 <= k < final(self).active_transactions@.len() && k != index ==> #[trigger] final(self).active_transactions@[k]
                == old(self).active_transactions@[k],
            index < old(self).active_transactions@.len() ==> {
                &&& final(self).active_transactions@[index as int].id == old(self).active_transactions@[index as int].id
                &&& final(self).active_transactions@[index as int].request == old(self).active_transactions@[index as int].request
                &&& final(self).active_transactions@[index as int].device_index == old(self).active_transactions@[index as int].device_index
                &&& old(self).well_formed() ==> transaction_step(
                    old(self).active_transactions@[index as int].phase,
                    final(self).active_transactions@[index as int].phase,
                )
            },
            final(self).active_bursts@ == old(self).active_bursts@,
            final(self).compat_transaction == old(self).compat_transaction,
            final(self).next_transaction_id == old(self).next_transaction_id,
            index < old(self).active_transactions@.len() ==> devices_kept_except(
                old(self).spec_devices(),
                final(self).spec_devices(),
                old(self).active_transactions@[index as int].device_index as int,
            ),
            index >= old(self).active_transactions@.len() ==> final(self).spec_devices() == old(self).spec_devices(),
            final(self).spec_log() == old(self).spec_log(),
    {
        if index >= self.active_transactions.len() {
            return ;
        }
        let phase = self.next_phase(index);
        let mut active = self.active_transactions.remove(index);
        active.phase = phase;
        self.active_transactions.insert(index, active);
        proof {
            assert(self.spec_transaction_ids() =~= old(self).spec_transaction_ids());
            assert(self.spec_burst_ids() =~= old(self).spec_burst_ids());
            assert(self.spec_ranges() =~= old(self).spec_ranges());
        }
    }

    /// Submit a transaction and leave it in the `Accepted` phase; an address
    /// no device covers is refused.
    pub fn submit_transaction(&mut self, request: TransactionRequest) -> (r: Result<u64, BusError>)
        ensures
            old(self).well_formed() && !old(self).spec_ids_wrapped() ==> (r matches Ok(id) ==> !old(
                self,
            ).spec_transaction_ids().contains(id) && !old(self).spec_burst_ids().contains(id)),
            r is Err <==> (first_containing(old(self).spec_ranges(), request.addr) is None),
            r matches Err(e) ==> e == (BusError::UnmappedAddress { addr: request.addr }) && final(self).spec_transactions()
                == old(self).spec_transactions() && final(self).spec_next_id() == old(self).spec_next_id(),
            r matches Ok(id) ==> {
                &&& id == old(self).spec_next_id()
                &&& final(self).spec_next_id() == vstd::wrapping::u64_specs::wrapping_add(id, 1)
                &&& final(self).spec_transactions() == old(self).spec_transactions().push(
                    (id, request, TransactionPhase::Accepted),
                )
                &&& final(self).spec_transaction_ids() == old(self).spec_transaction_ids().push(id)
            },
            final(self).spec_ranges() == old(self).spec_ranges(),
            final(self).spec_bursts() == old(self).spec_bursts(),
            old(self).well_formed() ==> final(self).well_formed(),
            final(self).spec_devices() == old(self).spec_devices(),
            final(self).spec_log() == old(self).spec_log(),
    {
        let device_index = match self.find_device_index(request.addr) {
            Some(i) => i,
            None => {
                proof {
                    assert(!exists|i: int| 0 <= i < old(self).spec_ranges().len() && #[trigger] old(self).spec_ranges()[i].spec_contains(request.addr));
                }
                return Err(BusError::UnmappedAddress { addr: request.addr });
            },
        };
        let id = self.next_transaction_id;
        self.next_transaction_id = self.next_transaction_id.wrapping_add(1);
        if id == u64::MAX {
            self.ids_wrapped = Ghost(true);
        }
        self.active_transactions.push(
            ActiveTransaction { id, device_index, request, phase: TransactionPhase::Accepted },
        );
        proof {
            assert(self.spec_transaction_ids() =~= old(self).spec_transaction_ids().push(id));
            assert(self.spec_burst_ids() =~= old(self).spec_burst_ids());
            if old(self).well_formed() && !self.ids_wrapped@ {
                lemma_push_keeps_fresh(old(self).spec_transaction_ids(), old(self).spec_burst_ids(), id, true);
            }
            assert(old(self).spec_ranges()[device_index as int].spec_contains(request.addr));
            assert(self.spec_transactions() =~= old(self).spec_transactions().push((id, request, TransactionPhase::Accepted)));
        }
        Ok(id)
    }

    /// The current phase of a submitted transaction, if the identifier is outstanding.
    pub fn transaction_phase(&self, id: u64) -> (r: Option<TransactionPhase>)
        ensures
            r is None <==> !self.spec_transaction_ids().contains(id),
            r matches Some(p) ==> exists|i: int| is_first_with_id(self.spec_transaction_ids(), id, i)
                && self.spec_transactions()[i].2 == p,
    {
        match self.transaction_index(id) {
            Some(index) => {
                let p = self.active_transactions[index].phase;
                proof {
                    assert(is_first_with_id(self.spec_transaction_ids(), id, index as int));
                    assert(self.spec_transactions()[index as int].2 == p);
                }
                Some(p)
            },
            None => None,
        }
    }

    /// Advance a submitted transaction by one protocol step and report its new phase.
    pub fn advance_transaction(&mut self, id: u64) -> (r: Option<TransactionPhase>)
        ensures
            old(self).well_formed() ==> final(self).well_formed(),
            r is None <==> !old(self).spec_transaction_ids().contains(id),
            r is None ==> final(self).spec_transactions() == old(self).spec_transactions(),
            r matches Some(p) ==> exists|i: int| {
                &&& is_first_with_id(old(self).spec_transaction_ids(), id, i)
                &&& (old(self).well_formed() ==> transaction_step(old(self).spec_transactions()[i].2, p))
                &&& final(self).spec_transactions() == old(self).spec_transactions().update(
                    i,
                    (id, old(self).spec_transactions()[i].1, p),
                )
                &&& old(self).well_formed() ==> devices_kept_except(
                    old(self).spec_devices(),
                    final(self).spec_devices(),
                    first_containing(old(self).spec_ranges(), old(self).spec_transactions()[i].1.addr)->0,
                )
            },
            r is None ==> final(self).spec_devices() == old(self).spec_devices(),
            final(self).spec_ranges() == old(self).spec_ranges(),
            final(self).spec_bursts() == old(self).spec_bursts(),
            final(self).spec_next_id() == old(self).spec_next_id(),
            final(self).spec_log() == old(self).spec_log(),
    {
        let index = match self.transaction_index(id) {
            Some(i) => i,
            None => return None,
        };
        self.advance_transaction_at(index);
        let p = self.active_transactions[index].phase;
        proof {
            assert(is_first_with_id(self.spec_transaction_ids(), id, index as int));
            assert(self.spec_transactions() =~= old(self).spec_transactions().update(
                index as int,
                (id, old(self).spec_transactions()[index as int].1, p),
            ));
            assert(self.spec_bursts() =~= old(self).spec_bursts());
        }
        Some(p)
    }

    /// Consume a completed transaction's response or error, removing it; an
    /// unknown or still pending transaction yields `None` and is left alone.
    pub fn take_transaction_response(&mut self, id: u64) -> (r: Option<Result<TransactionResponse, BusError>>)
        ensures
            !old(self).spec_transaction_ids().contains(id) ==> r is None,
            r is None ==> final(self).spec_transactions() == old(self).spec_transactions(),
            r matches Some(result) ==> exists|i: int| {
                &&& is_first_with_id(old(self).spec_transaction_ids(), id, i)
                &&& match old(self).spec_transactions()[i].2 {
                    TransactionPhase::Ready(response) => result == Ok::<TransactionResponse, BusError>(response),
                    TransactionPhase::Failed(error) => result == Err::<TransactionResponse, BusError>(error),
                    _ => false,
                }
                &&& final(self).spec_transactions() == old(self).spec_transactions().update(
                    i,
                    old(self).spec_transactions().last(),
                ).drop_last()
            },
            old(self).spec_transaction_ids().contains(id) && r is None ==> exists|i: int|
                is_first_with_id(old(self).spec_transaction_ids(), id, i) && (old(self).spec_transactions()[i].2 is Accepted
                    || old(self).spec_transactions()[i].2 is InFlight),
            final(self).spec_ranges() == old(self).spec_ranges(),
            final(self).spec_bursts() == old(self).spec_bursts(),
            final(self).spec_next_id() == old(self).spec_next_id(),
            old(self).well_formed() ==> final(self).well_formed(),
            final(self).spec_devices() == old(self).spec_devices(),
            final(self).spec_log() == old(self).spec_log(),
    {
        let index = match self.transaction_index(id) {
            Some(i) => i,
            None => return None,
        };
        let phase = self.active_transactions[index].phase;
        let result = match phase {
            TransactionPhase::Ready(response) => Ok(response),
            TransactionPhase::Failed(error) => Err(error),
            _ => {
                proof {
                    assert(is_first_with_id(old(self).spec_transaction_ids(), id, index as int));
                }
                return None;
            },
        };
        let _removed = self.active_transactions.swap_remove(index);
        if let Some(compat) = self.compat_transaction {
            if compat.id == id {
                self.compat_transaction = None;
            }
        }
        proof {
            assert(is_first_with_id(old(self).spec_transaction_ids(), id, index as int));
            assert(self.spec_transactions() =~= old(self).spec_transactions().update(
                index as int,
                old(self).spec_transactions().last(),
            ).drop_last());
            assert(self.spec_bursts() =~= old(self).spec_bursts());
            assert(self.spec_transaction_ids() =~= old(self).spec_transaction_ids().update(
                index as int,
                old(self).spec_transaction_ids().last(),
            ).drop_last());
            assert(self.spec_burst_ids() =~= old(self).spec_burst_ids());
            if old(self).well_formed() && !self.ids_wrapped@ {
                lemma_swap_remove_keeps_fresh(old(self).spec_transaction_ids(), old(self).spec_burst_ids(),
                    self.next_transaction_id, index as int, true);
            }
            assert(self.spec_ranges() =~= old(self).spec_ranges());
        }
        Some(result)
    }

    /// Whether no blocking access through the `Bus` accessors is outstanding.
    pub closed spec fn spec_compat_idle(&self) -> bool {
        self.compat_transaction is None
    }

    /// The cycles left on the outstanding blocking access: its in-flight
    /// count, 1 while it waits in another phase, 0 when there is none.
    pub closed spec fn spec_compat_remaining(&self) -> u32 {
        match self.compat_transaction {
            Some(compat) => if self.spec_transaction_ids().contains(compat.id) {
                let i = choose|i: int| is_first_with_id(self.spec_transaction_ids(), compat.id, i);
                match self.active_transactions@[i].phase {
                    TransactionPhase::InFlight { remaining_cycles } => remaining_cycles,
                    _ => 1,
                }
            } else {
                0
            },
            None => 0,
        }
    }

    fn compat_remaining_cycles(&self) -> (n: u32)
        ensures
            n == self.spec_compat_remaining(),
    {
        match self.compat_transaction {
            Some(compat) => match self.transaction_index(compat.id) {
                Some(index) => match {
                    proof {
                        lemma_first_with_id_unique(self.spec_transaction_ids(), compat.id, index as int);
                    }
                    self.active_transactions[index].phase
                } {
                    TransactionPhase::InFlight { remaining_cycles } => remaining_cycles,
                    _ => 1,
                },
                None => 0,
            },
            None => 0,
        }
    }

    fn busy_error(&self) -> (e: BusError)
        ensures
            e == (BusError::Busy {
                remaining_cycles: if self.spec_compat_remaining() == 0 {
                    1
                } else {
                    self.spec_compat_remaining()
                },
            }),
    {
        let remaining = self.compat_remaining_cycles();
        BusError::Busy { remaining_cycles: if remaining == 0 { 1 } else { remaining } }
    }

    /// The blocking path behind the `Bus` accessors: one compatibility
    /// transaction at a time, submitted on first use, advanced out of its
    /// accepted phase, and answered once it has completed. Until then, and
    /// for any other request while it is outstanding, the bus is busy. A
    /// fresh request touches no device but the first whose range holds its
    /// address.
    #[verifier::spinoff_prover]
    #[verifier::rlimit(50)]
    fn perform_request(&mut self, request: TransactionRequest) -> (r: Result<TransactionResponse, BusError>)
        ensures
            old(self).well_formed() ==> final(self).well_formed(),
            final(self).spec_ranges() == old(self).spec_ranges(),
            first_containing(old(self).spec_ranges(), request.addr) is None && old(self).compat_transaction is None
                ==> r == Err::<TransactionResponse, BusError>(BusError::UnmappedAddress { addr: request.addr }),
            final(self).spec_log() == old(self).spec_log(),
            old(self).well_formed() && !old(self).spec_ids_wrapped() && old(self).compat_transaction is None ==> match first_containing(
                old(self).spec_ranges(),
                request.addr,
            ) {
                Some(i) => devices_kept_except(old(self).spec_devices(), final(self).spec_devices(), i),
                None => final(self).spec_devices() == old(self).spec_devices(),
            },
    {
        let ghost routed = old(self).well_formed() && !old(self).spec_ids_wrapped() && old(self).compat_transaction is None;
        let pending = match self.compat_transaction {
            Some(compat) => {
                if !same_request(&compat.request, &request) {
                    return Err(self.busy_error());
                }
                if self.transaction_index(compat.id).is_none() {
                    self.compat_transaction = None;
                    None
                } else {
                    Some(compat)
                }
            },
            None => None,
        };
        let compat = match pending {
            Some(compat) => compat,
            None => {
                let id = self.submit_transaction(request)?;
                let compat = CompatTransaction { id, request };
                self.compat_transaction = Some(compat);
                compat
            },
        };
        let ghost before_advance = *self;
        proof {
            if routed {
                assert(self.spec_devices() == old(self).spec_devices());
                assert(self.spec_transaction_ids() =~= old(self).spec_transaction_ids().push(compat.id));
                assert(is_first_with_id(self.spec_transaction_ids(), compat.id, old(self).spec_transaction_ids().len() as int));
                assert(self.spec_transactions()[old(self).spec_transaction_ids().len() as int].1 == request);
            }
        }
        if let Some(TransactionPhase::Accepted) = self.transaction_phase(compat.id) {
            let _phase = self.advance_transaction(compat.id);
            proof {
                if routed {
                    let n = old(self).spec_transaction_ids().len() as int;
                    let i = choose|i: int| {
                        &&& is_first_with_id(before_advance.spec_transaction_ids(), compat.id, i)
                        &&& before_advance.well_formed() ==> devices_kept_except(
                            before_advance.spec_devices(),
                            self.spec_devices(),
                            first_containing(before_advance.spec_ranges(), before_advance.spec_transactions()[i].1.addr)->0,
                        )
                    };
                    if i < n {
                        assert(before_advance.spec_transaction_ids()[i] == old(self).spec_transaction_ids()[i]);
                        assert(old(self).spec_transaction_ids().contains(compat.id));
                    }
                    if n < i {
                        assert(before_advance.spec_transaction_ids()[n] == compat.id);
                    }
                    assert(i == n);
                }
            }
        }
        match self.take_transaction_response(compat.id) {
            Some(result) => {
                self.compat_transaction = None;
                result
            },
            None => Err(self.busy_error()),
        }
    }

    fn burst_index(&self, id: u64) -> (r: Option<usize>)
        ensures
            r matches Some(i) ==> is_first_with_id(self.spec_burst_ids(), id, i as int),
            r is None <==> !self.spec_burst_ids().contains(id),
    {
        let mut i: usize = 0;
        while i < self.active_bursts.len()
            invariant
                i <= self.active_bursts@.len(),
                forall|k: int| 0 <= k < i ==> self.spec_burst_ids()[k] != id,
            decreases self.active_bursts@.len() - i,
        {
            if self.active_bursts[i].id == id {
                proof {
                    assert(self.spec_burst_ids()[i as int] == id);
                }
                return Some(i);
            }
            i = i + 1;
        }
        proof {
            if self.spec_burst_ids().contains(id) {
                let k = choose|k: int| 0 <= k < self.spec_burst_ids().len() && self.spec_burst_ids()[k] == id;
                assert(self.spec_burst_ids()[k] != id);
            }
        }
        None
    }

    /// Carry out the current beat of burst `index`: one word read or written.
    fn execute_beat(&mut self, index: usize) -> (r: Result<Option<u32>, BusError>)
        requires
            index < old(self).active_bursts@.len(),
        ensures
            final(self).same_bookkeeping(old(self)),
            ({
                let burst = old(self).active_bursts@[index as int];
                let addr = burst.request.spec_base_addr() + 4 * burst.beat_index;
                &&& burst.device_index >= old(self).devices@.len() ==> r == Err::<Option<u32>, BusError>(
                    BusError::DeviceFault { addr: 0, message: "burst targets an unmapped device" },
                )
                &&& burst.device_index < old(self).devices@.len() && addr > u64::MAX ==> r == Err::<
                    Option<u32>,
                    BusError,
                >(BusError::UnmappedAddress { addr: burst.request.spec_base_addr() })
                &&& burst.device_index < old(self).devices@.len() && addr <= u64::MAX && burst.beat_index
                    >= burst.request.spec_beats() && burst.request is WriteWords ==> r == Err::<Option<u32>, BusError>(
                    BusError::DeviceFault { addr: addr as Address, message: "burst beat out of range" },
                )
                &&& r matches Ok(Some(_)) ==> burst.request is ReadWords
                &&& r matches Ok(None) ==> burst.request is WriteWords
            }),
            final(self).spec_log() == old(self).spec_log(),
    {
        let device_index = self.active_bursts[index].device_index;
        if device_index >= self.devices.len() {
            return Err(BusError::DeviceFault { addr: 0, message: "burst targets an unmapped device" });
        }
        let beat_index = self.active_bursts[index].beat_index;
        let base = self.active_bursts[index].request.base_addr();
        let offset = match (beat_index as u64).checked_mul(4) {
            Some(o) => o,
            None => return Err(BusError::UnmappedAddress { addr: base }),
        };
        let addr = match base.checked_add(offset) {
            Some(a) => a,
            None => return Err(BusError::UnmappedAddress { addr: base }),
        };
        let write_word = match &self.active_bursts[index].request {
            BurstRequest::ReadWords { .. } => None,
            BurstRequest::WriteWords { words, .. } => {
                if beat_index < words.len() {
                    Some(words[beat_index])
                } else {
                    return Err(BusError::DeviceFault { addr, message: "burst beat out of range" });
                }
            },
        };
        match write_word {
            Some(word) => {
                self.execute_request(device_index, TransactionRequest::store(addr, 4, word_to_le_bytes(word)))?;
                Ok(None)
            },
            None => {
                match self.execute_request(device_index, TransactionRequest::load(addr, 4))? {
                    TransactionResponse::Read { data, .. } => Ok(Some(word_from_le_bytes(data))),
                    TransactionResponse::WriteComplete => Ok(None),
                }
            },
        }
    }

    fn advance_burst_at(&mut self, index: usize)
        ensures
            old(self).well_formed() ==> final(self).well_formed(),
            final(self).spec_ranges() == old(self).spec_ranges(),
            final(self).spec_burst_ids() == old(self).spec_burst_ids(),
            final(self).active_bursts@.len() == old(self).active_bursts@.len(),
            forall|k: int| 0 <= k < final(self).active_bursts@.len() && k != index ==> #[trigger] final(self).active_bursts@[k]
                == old(self).active_bursts@[k],
            index < old(self).active_bursts@.len() ==> burst_step(
                old(self).active_bursts@[index as int].phase,
                final(self).active_bursts@[index as int].phase,
            ),
            final(self).active_transactions@ == old(self).active_transactions@,
            final(self).compat_transaction == old(self).compat_transaction,
            final(self).next_transaction_id == old(self).next_transaction_id,
            final(self).spec_log() == old(self).spec_log(),
    {
        if index >= self.active_bursts.len() {
            return ;
        }
        let device_index = self.active_bursts[index].device_index;
        let phase = self.active_bursts[index].phase;
        let (beat_index, total_beats, start_beat) = match phase {
            BurstPhase::Accepted { beat_index, total_beats } => (beat_index, total_beats, true),
            BurstPhase::InFlight { beat_index, total_beats, remaining_cycles } => {
                if remaining_cycles > 1 {
                    let mut active = self.active_bursts.remove(index);
                    active.phase = BurstPhase::InFlight { beat_index, total_beats, remaining_cycles: remaining_cycles - 1 };
                    self.active_bursts.insert(index, active);
                    proof {
                        assert(self.spec_burst_ids() =~= old(self).spec_burst_ids());
                        assert(self.spec_transaction_ids() =~= old(self).spec_transaction_ids());
                    }
                    return ;
                }
                (beat_index, total_beats, false)
            },
            _ => return ,
        };
        if start_beat && device_index < self.devices.len() {
            let base = self.active_bursts[index].request.base_addr();
            let addr = match (beat_index as u64).checked_mul(4) {
                Some(offset) => match base.checked_add(offset) {
                    Some(a) => a,
                    None => base,
                },
                None => base,
            };
            let kind = self.active_bursts[index].request.beat_kind();
            let latency = self.device_latency(device_index, addr, kind, 4);
            if latency > 0 {
                let mut active = self.active_bursts.remove(index);
                active.phase = BurstPhase::InFlight { beat_index, total_beats, remaining_cycles: latency };
                self.active_bursts.insert(index, active);
                proof {
                    assert(self.spec_burst_ids() =~= old(self).spec_burst_ids());
                    assert(self.spec_transaction_ids() =~= old(self).spec_transaction_ids());
                }
                return ;
            }
        }
        let outcome = self.execute_beat(index);
        let mut active = self.active_bursts.remove(index);
        match outcome {
            Ok(read_word) => {
                if let Some(word) = read_word {
                    if beat_index < active.read_words.len() {
                        active.read_words.set(beat_index, word);
                    }
                }
                if beat_index < total_beats {
                    let next_beat_index = beat_index + 1;
                    active.beat_index = next_beat_index;
                    active.phase = if next_beat_index == total_beats {
                        BurstPhase::Ready { completed_beats: total_beats }
                    } else {
                        BurstPhase::Accepted { beat_index: next_beat_index, total_beats }
                    };
                } else {
                    active.phase = BurstPhase::Failed(
                        BusError::DeviceFault { addr: 0, message: "burst beat out of range" },
                    );
                }
            },
            Err(error) => {
                active.phase = BurstPhase::Failed(error);
            },
        }
        self.active_bursts.insert(index, active);
        proof {
            assert(self.spec_burst_ids() =~= old(self).spec_burst_ids());
            assert(self.spec_transaction_ids() =~= old(self).spec_transaction_ids());
        }
    }

    /// Submit a burst of contiguous words; the first beat must fall in a
    /// mapped device and every beat in that same device.
    #[verifier::spinoff_prover]
    #[verifier::rlimit(50)]
    pub fn submit_burst(&mut self, request: BurstRequest) -> (r: Result<u64, BusError>)
        requires
            request.spec_beats() > 0,
            request.spec_base_addr() + 4 * (request.spec_beats() - 1) <= u64::MAX,
        ensures
            old(self).well_formed() && !old(self).spec_ids_wrapped() ==> (r matches Ok(id) ==> !old(
                self,
            ).spec_transaction_ids().contains(id) && !old(self).spec_burst_ids().contains(id)),
            r matches Err(e) ==> final(self).spec_bursts() == old(self).spec_bursts() && final(self).spec_next_id()
                == old(self).spec_next_id() && ((e == (BusError::UnmappedAddress { addr: request.spec_base_addr() })
                && first_containing(old(self).spec_ranges(), request.spec_base_addr()) is None) || e is DeviceFault),
            r matches Ok(id) ==> {
                &&& id == old(self).spec_next_id()
                &&& final(self).spec_next_id() == vstd::wrapping::u64_specs::wrapping_add(id, 1)
                &&& final(self).spec_bursts() == old(self).spec_bursts().push(
                    (id, BurstPhase::Accepted { beat_index: 0, total_beats: request.spec_beats() as usize }),
                )
                &&& exists|d: int| 0 <= d < old(self).spec_ranges().len() && burst_within(
                    #[trigger] old(self).spec_ranges()[d],
                    request.spec_base_addr(),
                    request.spec_beats(),
                )
            },
            first_containing(old(self).spec_ranges(), request.spec_base_addr()) is None ==> r is Err,
            r is Ok <==> burst_accepted(old(self).spec_ranges(), request.spec_base_addr(), request.spec_beats()),
            r matches Err(e) ==> (first_containing(old(self).spec_ranges(), request.spec_base_addr()) matches Some(d)
                ==> exists|b: int|
                1 <= b < request.spec_beats() && beats_in_device(old(self).spec_ranges(), request.spec_base_addr(), d, b)
                    && #[trigger] first_containing(old(self).spec_ranges(), (request.spec_base_addr() + 4 * b) as Address)
                    != Some(d) && e == (BusError::DeviceFault {
                    addr: (request.spec_base_addr() + 4 * b) as Address,
                    message: "burst crosses device boundary",
                })),
            final(self).spec_ranges() == old(self).spec_ranges(),
            final(self).spec_transactions() == old(self).spec_transactions(),
            old(self).well_formed() ==> final(self).well_formed(),
            final(self).spec_log() == old(self).spec_log(),
    {
        let total_beats = request.beats();
        let first_addr = request.base_addr();
        let device_index = match self.find_device_index(first_addr) {
            Some(i) => {
                proof {
                    lemma_first_containing_is(old(self).spec_ranges(), first_addr, i as int);
                }
                i
            },
            None => {
                proof {
                    assert(!exists|i: int| 0 <= i < old(self).spec_ranges().len() && #[trigger] old(self).spec_ranges()[i].spec_contains(first_addr));
                }
                return Err(BusError::UnmappedAddress { addr: first_addr });
            },
        };
        let mut beat_index: usize = 1;
        while beat_index < total_beats
            invariant
                self.access_log == old(self).access_log,
                1 <= beat_index <= total_beats,
                total_beats == request.spec_beats(),
                first_addr == request.spec_base_addr(),
                request.spec_base_addr() + 4 * (request.spec_beats() - 1) <= u64::MAX,
                device_index < self.spec_ranges().len(),
                self.spec_ranges()[device_index as int].spec_contains(first_addr),
                forall|b: int| 0 <= b < beat_index ==> #[trigger] self.spec_ranges()[device_index as int].spec_contains(
                    (first_addr + 4 * b) as Address,
                ),
                self.spec_ranges() == old(self).spec_ranges(),
                first_containing(old(self).spec_ranges(), first_addr) == Some(device_index as int),
                beats_in_device(old(self).spec_ranges(), first_addr, device_index as int, beat_index as int),
            decreases total_beats - beat_index,
        {
            let addr = request.beat_addr(beat_index);
            match self.find_device_index(addr) {
                Some(i) => {
                    proof {
                        lemma_first_containing_is(old(self).spec_ranges(), addr, i as int);
                    }
                    if i != device_index {
                        assert(first_containing(old(self).spec_ranges(), (first_addr + 4 * beat_index) as Address)
                            != Some(device_index as int));
                        return Err(BusError::DeviceFault { addr, message: "burst crosses device boundary" });
                    }
                },
                None => {
                    assert(first_containing(old(self).spec_ranges(), (first_addr + 4 * beat_index) as Address)
                        != Some(device_index as int));
                    return Err(BusError::DeviceFault { addr, message: "burst crosses device boundary" });
                },
            }
            beat_index = beat_index + 1;
        }
        let id = self.next_transaction_id;
        self.next_transaction_id = self.next_transaction_id.wrapping_add(1);
        if id == u64::MAX {
            self.ids_wrapped = Ghost(true);
        }
        let mut read_words: Vec<u32> = Vec::new();
        let mut k: usize = 0;
        while k < total_beats
            invariant
                self.access_log == old(self).access_log,
                k <= total_beats,
                read_words@.len() == k,
            decreases total_beats - k,
        {
            read_words.push(0);
            k = k + 1;
        }
        self.active_bursts.push(
            ActiveBurst {
                id,
                device_index,
                request,
                beat_index: 0,
                read_words,
                phase: BurstPhase::Accepted { beat_index: 0, total_beats },
            },
        );
        proof {
            assert(self.spec_bursts() =~= old(self).spec_bursts().push(
                (id, BurstPhase::Accepted { beat_index: 0, total_beats: request.spec_beats() as usize }),
            ));
            assert(burst_within(old(self).spec_ranges()[device_index as int], first_addr, request.spec_beats()));
            assert(self.spec_burst_ids() =~= old(self).spec_burst_ids().push(id));
            assert(self.spec_transaction_ids() =~= old(self).spec_transaction_ids());
            if old(self).well_formed() && !self.ids_wrapped@ {
                lemma_push_keeps_fresh(old(self).spec_burst_ids(), old(self).spec_transaction_ids(), id, false);
            }
        }
        Ok(id)
    }

    /// The current phase of a submitted burst, if the identifier is outstanding.
    pub fn burst_phase(&self, id: u64) -> (r: Option<BurstPhase>)
        ensures
            r is None <==> !self.spec_burst_ids().contains(id),
            r matches Some(p) ==> exists|i: int| is_first_with_id(self.spec_burst_ids(), id, i) && self.spec_bursts()[i].1 == p,
    {
        match self.burst_index(id) {
            Some(index) => {
                let p = self.active_bursts[index].phase;
                proof {
                    assert(self.spec_bursts()[index as int].1 == p);
                }
                Some(p)
            },
            None => None,
        }
    }

    /// Advance a submitted burst by one beat-level step and report its new phase.
    pub fn advance_burst(&mut self, id: u64) -> (r: Option<BurstPhase>)
        ensures
            old(self).well_formed() ==> final(self).well_formed(),
            r is None <==> !old(self).spec_burst_ids().contains(id),
            r is None ==> final(self).spec_bursts() == old(self).spec_bursts(),
            r matches Some(p) ==> exists|i: int| {
                &&& is_first_with_id(old(self).spec_burst_ids(), id, i)
                &&& burst_step(old(self).spec_bursts()[i].1, p)
                &&& final(self).spec_bursts() == old(self).spec_bursts().update(i, (id, p))
            },
            final(self).spec_ranges() == old(self).spec_ranges(),
            final(self).spec_transactions() == old(self).spec_transactions(),
            final(self).spec_next_id() == old(self).spec_next_id(),
            final(self).spec_log() == old(self).spec_log(),
    {
        let index = match self.burst_index(id) {
            Some(i) => i,
            None => return None,
        };
        self.advance_burst_at(index);
        let p = self.active_bursts[index].phase;
        proof {
            assert(is_first_with_id(self.spec_burst_ids(), id, index as int));
            assert(self.spec_bursts() =~= old(self).spec_bursts().update(index as int, (id, p)));
            assert(self.spec_transactions() =~= old(self).spec_transactions());
        }
        Some(p)
    }

    /// Consume a finished burst's response or error, removing it; an unknown
    /// or still running burst yields `None` and is left alone.
    pub fn take_burst_response(&mut self, id: u64) -> (r: Option<Result<BurstResponse, BusError>>)
        ensures
            !old(self).spec_burst_ids().contains(id) ==> r is None,
            r is None ==> final(self).spec_bursts() == old(self).spec_bursts(),
            r matches Some(result) ==> exists|i: int| {
                &&& is_first_with_id(old(self).spec_burst_ids(), id, i)
                &&& match old(self).spec_bursts()[i].1 {
                    BurstPhase::Ready { completed_beats } => result matches Ok(response) && match response {
                        BurstResponse::WriteComplete { beats } => beats == completed_beats,
                        BurstResponse::ReadWords(_) => true,
                    },
                    BurstPhase::Failed(error) => result == Err::<BurstResponse, BusError>(error),
                    _ => false,
                }
                &&& final(self).spec_bursts() == old(self).spec_bursts().update(i, old(self).spec_bursts().last()).drop_last()
            },
            old(self).spec_burst_ids().contains(id) && r is None ==> exists|i: int|
                is_first_with_id(old(self).spec_burst_ids(), id, i) && (old(self).spec_bursts()[i].1 is Accepted
                    || old(self).spec_bursts()[i].1 is InFlight),
            final(self).spec_ranges() == old(self).spec_ranges(),
            final(self).spec_transactions() == old(self).spec_transactions(),
            final(self).spec_next_id() == old(self).spec_next_id(),
            old(self).well_formed() ==> final(self).well_formed(),
            final(self).spec_log() == old(self).spec_log(),
    {
        let index = match self.burst_index(id) {
            Some(i) => i,
            None => return None,
        };
        match self.active_bursts[index].phase {
            BurstPhase::Ready { completed_beats } => {
                let active = self.active_bursts.swap_remove(index);
                let response = match active.request {
                    BurstRequest::ReadWords { .. } => BurstResponse::ReadWords(active.read_words),
                    BurstRequest::WriteWords { .. } => BurstResponse::WriteComplete { beats: completed_beats },
                };
                proof {
                    assert(self.spec_burst_ids() =~= old(self).spec_burst_ids().update(
                        index as int,
                        old(self).spec_burst_ids().last(),
                    ).drop_last());
                    assert(self.spec_transaction_ids() =~= old(self).spec_transaction_ids());
                    if old(self).well_formed() && !self.ids_wrapped@ {
                        lemma_swap_remove_keeps_fresh(old(self).spec_burst_ids(), old(self).spec_transaction_ids(),
                            self.next_transaction_id, index as int, false);
                    }
                    assert(self.spec_bursts() =~= old(self).spec_bursts().update(
                        index as int,
                        old(self).spec_bursts().last(),
                    ).drop_last());
                    assert(self.spec_transactions() =~= old(self).spec_transactions());
                }
                Some(Ok(response))
            },
            BurstPhase::Failed(error) => {
                let _removed = self.active_bursts.swap_remove(index);
                proof {
                    assert(self.spec_burst_ids() =~= old(self).spec_burst_ids().update(
                        index as int,
                        old(self).spec_burst_ids().last(),
                    ).drop_last());
                    assert(self.spec_transaction_ids() =~= old(self).spec_transaction_ids());
                    if old(self).well_formed() && !self.ids_wrapped@ {
                        lemma_swap_remove_keeps_fresh(old(self).spec_burst_ids(), old(self).spec_transaction_ids(),
                            self.next_transaction_id, index as int, false);
                    }
                    assert(self.spec_bursts() =~= old(self).spec_bursts().update(
                        index as int,
                        old(self).spec_bursts().last(),
                    ).drop_last());
                    assert(self.spec_transactions() =~= old(self).spec_transactions());
                }
                Some(Err(error))
            },
            _ => None,
        }
    }

    fn find_device_index(&self, addr: Address) -> (r: Option<usize>)
        ensures
            r matches Some(i) ==> i < self.spec_ranges().len() && self.spec_ranges()[i as int].spec_contains(addr)
                && forall|j: int| 0 <= j < i ==> !(#[trigger] self.spec_ranges()[j]).spec_contains(addr),
            r is None ==> forall|i: int| 0 <= i < self.spec_ranges().len() ==> !(#[trigger] self.spec_ranges()[i]).spec_contains(addr),
    {
        let mut i: usize = 0;
        while i < self.devices.len()
            invariant
                i <= self.devices@.len(),
                forall|k: int| 0 <= k < i ==> !(#[trigger] self.spec_ranges()[k]).spec_contains(addr),
            decreases self.devices@.len() - i,
        {
            if self.devices[i].range.contains(addr) {
                return Some(i);
            }
            i = i + 1;
        }
        None
    }
}


impl<D: Addressable> Bus for MemoryMap<D> {
    /// The memory map records every byte access it is asked for.
    open spec fn spec_keeps_log(&self) -> bool {
        true
    }

    closed spec fn spec_log(&self) -> Seq<ByteAccess> {
        self.access_log@
    }

    fn reset(&mut self)
        ensures
            final(self).spec_ranges() == old(self).spec_ranges(),
            final(self).spec_transactions().len() == 0,
            final(self).spec_bursts().len() == 0,
            final(self).spec_next_id() == 0,
            old(self).well_formed() ==> final(self).well_formed(),
    {
        MemoryMap::reset(self);
    }

    fn fetch32(&mut self, addr: Address) -> (r: Result<u32, BusError>)
        ensures
            old(self).well_formed() && !old(self).spec_ids_wrapped() && old(self).spec_compat_idle() ==> match first_containing(
                old(self).spec_ranges(),
                addr,
            ) {
                Some(i) => devices_kept_except(old(self).spec_devices(), final(self).spec_devices(), i),
                None => final(self).spec_devices() == old(self).spec_devices(),
            },
            addr % 4 != 0 ==> r == Err::<u32, BusError>(BusError::MisalignedAccess { addr, width: 4 }),
    {
        proof {
            lemma_logged_whole(self.access_log@, byte_reads(addr, 4));
        }
        if addr % 4 != 0 {
            return Err(BusError::MisalignedAccess { addr, width: 4 });
        }
        self.access_log = Ghost(self.access_log@ + byte_reads(addr, 4));
        match self.perform_request(TransactionRequest::fetch32(addr))? {
            TransactionResponse::Read { data, width } => {
                if width == 4 {
                    Ok(word_from_le_bytes(data))
                } else {
                    Err(BusError::DeviceFault { addr, message: "unexpected response width" })
                }
            },
            TransactionResponse::WriteComplete => Err(BusError::DeviceFault { addr, message: "unexpected response" }),
        }
    }

    fn load8(&mut self, addr: Address) -> (r: Result<u8, BusError>)
        ensures
            old(self).well_formed() && !old(self).spec_ids_wrapped() && old(self).spec_compat_idle() ==> match first_containing(
                old(self).spec_ranges(),
                addr,
            ) {
                Some(i) => devices_kept_except(old(self).spec_devices(), final(self).spec_devices(), i),
                None => final(self).spec_devices() == old(self).spec_devices(),
            },
            final(self).spec_ranges() == old(self).spec_ranges(),
            old(self).well_formed() ==> final(self).well_formed(),
            first_containing(old(self).spec_ranges(), addr) is None && old(self).spec_compat_idle() ==> r
                == Err::<u8, BusError>(BusError::UnmappedAddress { addr }),
    {
        proof {
            assert(self.access_log@.push(ByteAccess::Read(addr)) =~= self.access_log@ + seq![ByteAccess::Read(addr)]);
        }
        self.access_log = Ghost(self.access_log@.push(ByteAccess::Read(addr)));
        match self.perform_request(TransactionRequest::load(addr, 1))? {
            TransactionResponse::Read { data, width } => {
                if width == 1 {
                    Ok(data[0])
                } else {
                    Err(BusError::DeviceFault { addr, message: "unexpected response width" })
                }
            },
            TransactionResponse::WriteComplete => Err(BusError::DeviceFault { addr, message: "unexpected response" }),
        }
    }

    fn store8(&mut self, addr: Address, value: u8) -> (r: Result<(), BusError>)
        ensures
            old(self).well_formed() && !old(self).spec_ids_wrapped() && old(self).spec_compat_idle() ==> match first_containing(
                old(self).spec_ranges(),
                addr,
            ) {
                Some(i) => devices_kept_except(old(self).spec_devices(), final(self).spec_devices(), i),
                None => final(self).spec_devices() == old(self).spec_devices(),
            },
            final(self).spec_ranges() == old(self).spec_ranges(),
            old(self).well_formed() ==> final(self).well_formed(),
            first_containing(old(self).spec_ranges(), addr) is None && old(self).spec_compat_idle() ==> r
                == Err::<(), BusError>(BusError::UnmappedAddress { addr }),
    {
        proof {
            assert(self.access_log@.push(ByteAccess::Write(addr, value)) =~= self.access_log@ + seq![ByteAccess::Write(addr, value)]);
        }
        self.access_log = Ghost(self.access_log@.push(ByteAccess::Write(addr, value)));
        self.perform_request(TransactionRequest::store(addr, 1, [value, 0, 0, 0]))?;
        Ok(())
    }

    fn load16(&mut self, addr: Address) -> (r: Result<u16, BusError>)
        ensures
            old(self).well_formed() && !old(self).spec_ids_wrapped() && old(self).spec_compat_idle() ==> match first_containing(
                old(self).spec_ranges(),
                addr,
            ) {
                Some(i) => devices_kept_except(old(self).spec_devices(), final(self).spec_devices(), i),
                None => final(self).spec_devices() == old(self).spec_devices(),
            },
            addr % 2 != 0 ==> r == Err::<u16, BusError>(BusError::MisalignedAccess { addr, width: 2 }),
    {
        proof {
            lemma_logged_whole(self.access_log@, byte_reads(addr, 2));
        }
        if addr % 2 != 0 {
            return Err(BusError::MisalignedAccess { addr, width: 2 });
        }
        self.access_log = Ghost(self.access_log@ + byte_reads(addr, 2));
        match self.perform_request(TransactionRequest::load(addr, 2))? {
            TransactionResponse::Read { data, width } => {
                if width == 2 {
                    Ok(half_from_le_bytes(data[0], data[1]))
                } else {
                    Err(BusError::DeviceFault { addr, message: "unexpected response width" })
                }
            },
            TransactionResponse::WriteComplete => Err(BusError::DeviceFault { addr, message: "unexpected response" }),
        }
    }

    fn load32(&mut self, addr: Address) -> (r: Result<u32, BusError>)
        ensures
            old(self).well_formed() && !old(self).spec_ids_wrapped() && old(self).spec_compat_idle() ==> match first_containing(
                old(self).spec_ranges(),
                addr,
            ) {
                Some(i) => devices_kept_except(old(self).spec_devices(), final(self).spec_devices(), i),
                None => final(self).spec_devices() == old(self).spec_devices(),
            },
            addr % 4 != 0 ==> r == Err::<u32, BusError>(BusError::MisalignedAccess { addr, width: 4 }),
    {
        proof {
            lemma_logged_whole(self.access_log@, byte_reads(addr, 4));
        }
        if addr % 4 != 0 {
            return Err(BusError::MisalignedAccess { addr, width: 4 });
        }
        self.access_log = Ghost(self.access_log@ + byte_reads(addr, 4));
        match self.perform_request(TransactionRequest::load(addr, 4))? {
            TransactionResponse::Read { data, width } => {
                if width == 4 {
                    Ok(word_from_le_bytes(data))
                } else {
                    Err(BusError::DeviceFault { addr, message: "unexpected response width" })
                }
            },
            TransactionResponse::WriteComplete => Err(BusError::DeviceFault { addr, message: "unexpected response" }),
        }
    }

    fn store16(&mut self, addr: Address, value: u16) -> (r: Result<(), BusError>)
        ensures
            old(self).well_formed() && !old(self).spec_ids_wrapped() && old(self).spec_compat_idle() ==> match first_containing(
                old(self).spec_ranges(),
                addr,
            ) {
                Some(i) => devices_kept_except(old(self).spec_devices(), final(self).spec_devices(), i),
                None => final(self).spec_devices() == old(self).spec_devices(),
            },
            addr % 2 != 0 ==> r == Err::<(), BusError>(BusError::MisalignedAccess { addr, width: 2 }),
    {
        proof {
            lemma_logged_whole(self.access_log@, byte_writes(addr, half_bytes(value)));
        }
        if addr % 2 != 0 {
            return Err(BusError::MisalignedAccess { addr, width: 2 });
        }
        self.access_log = Ghost(self.access_log@ + byte_writes(addr, half_bytes(value)));
        let half = half_to_le_bytes(value);
        self.perform_request(TransactionRequest::store(addr, 2, [half[0], half[1], 0, 0]))?;
        Ok(())
    }

    fn store32(&mut self, addr: Address, value: u32) -> (r: Result<(), BusError>)
        ensures
            old(self).well_formed() && !old(self).spec_ids_wrapped() && old(self).spec_compat_idle() ==> match first_containing(
                old(self).spec_ranges(),
                addr,
            ) {
                Some(i) => devices_kept_except(old(self).spec_devices(), final(self).spec_devices(), i),
                None => final(self).spec_devices() == old(self).spec_devices(),
            },
            addr % 4 != 0 ==> r == Err::<(), BusError>(BusError::MisalignedAccess { addr, width: 4 }),
    {
        proof {
            lemma_logged_whole(self.access_log@, byte_writes(addr, word_bytes(value)));
        }
        if addr % 4 != 0 {
            return Err(BusError::MisalignedAccess { addr, width: 4 });
        }
        self.access_log = Ghost(self.access_log@ + byte_writes(addr, word_bytes(value)));
        self.perform_request(TransactionRequest::store(addr, 4, word_to_le_bytes(value)))?;
        Ok(())
    }

    /// Advance every outstanding transaction and burst by one step, then tick every device.
    fn tick(&mut self)
        ensures
            final(self).spec_ranges() == old(self).spec_ranges(),
            final(self).spec_transaction_ids() == old(self).spec_transaction_ids(),
            final(self).spec_burst_ids() == old(self).spec_burst_ids(),
            final(self).spec_next_id() == old(self).spec_next_id(),
            old(self).well_formed() ==> final(self).well_formed(),
            old(self).well_formed() ==> forall|k: int| 0 <= k < old(self).spec_transactions().len() ==> {
                &&& (#[trigger] final(self).spec_transactions()[k]).1 == old(self).spec_transactions()[k].1
                &&& transaction_step(old(self).spec_transactions()[k].2, final(self).spec_transactions()[k].2)
            },
            forall|k: int| 0 <= k < old(self).spec_bursts().len() ==> burst_step(
                old(self).spec_bursts()[k].1,
                (#[trigger] final(self).spec_bursts()[k]).1,
            ),
    {
        let mut index: usize = 0;
        while index < self.active_transactions.len()
            invariant
                self.access_log == old(self).access_log,
                index <= self.active_transactions@.len(),
                self.active_transactions@.len() == old(self).active_transactions@.len(),
                self.spec_ranges() == old(self).spec_ranges(),
                self.spec_transaction_ids() == old(self).spec_transaction_ids(),
                self.active_bursts@ == old(self).active_bursts@,
                self.next_transaction_id == old(self).next_transaction_id,
                self.compat_transaction == old(self).compat_transaction,
                old(self).well_formed() ==> self.well_formed(),
                forall|k: int| index <= k < self.active_transactions@.len() ==> #[trigger] self.active_transactions@[k]
                    == old(self).active_transactions@[k],
                forall|k: int| 0 <= k < index ==> (#[trigger] self.active_transactions@[k]).request
                    == old(self).active_transactions@[k].request,
                old(self).well_formed() ==> forall|k: int| 0 <= k < index ==> transaction_step(
                    old(self).active_transactions@[k].phase,
                    (#[trigger] self.active_transactions@[k]).phase,
                ),
            decreases self.active_transactions@.len() - index,
        {
            self.advance_transaction_at(index);
            index = index + 1;
        }
        let ghost mid = self.active_transactions@;
        let mut index: usize = 0;
        while index < self.active_bursts.len()
            invariant
                self.access_log == old(self).access_log,
                index <= self.active_bursts@.len(),
                self.active_bursts@.len() == old(self).active_bursts@.len(),
                self.spec_ranges() == old(self).spec_ranges(),
                self.spec_burst_ids() == old(self).spec_burst_ids(),
                self.active_transactions@ == mid,
                self.next_transaction_id == old(self).next_transaction_id,
                old(self).well_formed() ==> self.well_formed(),
                forall|k: int| index <= k < self.active_bursts@.len() ==> #[trigger] self.active_bursts@[k]
                    == old(self).active_bursts@[k],
                forall|k: int| 0 <= k < index ==> burst_step(
                    old(self).active_bursts@[k].phase,
                    (#[trigger] self.active_bursts@[k]).phase,
                ),
            decreases self.active_bursts@.len() - index,
        {
            self.advance_burst_at(index);
            index = index + 1;
        }
        let ghost before_devices = *self;
        let mut index: usize = 0;
        while index < self.devices.len()
            invariant
                self.access_log == old(self).access_log,
                index <= self.devices@.len(),
                self.same_bookkeeping(&before_devices),
                before_devices.well_formed() ==> self.well_formed(),
            decreases self.devices@.len() - index,
        {
            self.devices[index].device.tick();
            assert(self.spec_ranges() =~= before_devices.spec_ranges());
            index = index + 1;
        }
        assert(self.spec_transaction_ids() =~= old(self).spec_transaction_ids()) by {
            assert(self.spec_transaction_ids() =~= mid.map_values(|t: ActiveTransaction| t.id));
        }
    }

    /// The machine time of the first mapped device that keeps one.
    fn machine_time(&self) -> (t: Option<u64>)
        ensures
            self.spec_ranges().len() == 0 ==> t is None,
    {
        let mut index: usize = 0;
        while index < self.devices.len()
            decreases self.devices@.len() - index,
        {
            let time = self.devices[index].device.machine_time();
            if time.is_some() {
                return time;
            }
            index = index + 1;
        }
        None
    }

    /// Busy while any explicit transaction or burst is outstanding.
    fn is_busy(&self) -> (b: bool)
        ensures
            b == (self.spec_transactions().len() > 0 || self.spec_bursts().len() > 0),
    {
        !self.active_transactions.is_empty() || !self.active_bursts.is_empty()
    }

    /// The union of the lines every mapped device asserts.
    fn pending_interrupts(&self) -> (s: InterruptSet)
        ensures
            self.spec_ranges().len() == 0 ==> s == InterruptSet::nothing(),
    {
        let mut interrupts = InterruptSet::empty();
        let mut index: usize = 0;
        while index < self.devices.len()
            invariant
                self.devices@.len() == 0 ==> interrupts == InterruptSet::nothing(),
            decreases self.devices@.len() - index,
        {
            interrupts = interrupts.union(self.devices[index].device.pending_interrupts());
            index = index + 1;
        }
        interrupts
    }
}

impl<D: Addressable> TransactionBus for MemoryMap<D> {
    fn submit_transaction(&mut self, request: TransactionRequest) -> (r: Result<u64, BusError>)
        ensures
            r is Err <==> (first_containing(old(self).spec_ranges(), request.addr) is None),
            r matches Err(e) ==> e == (BusError::UnmappedAddress { addr: request.addr }) && final(self).spec_transactions()
                == old(self).spec_transactions() && final(self).spec_next_id() == old(self).spec_next_id(),
            r matches Ok(id) ==> {
                &&& id == old(self).spec_next_id()
                &&& final(self).spec_next_id() == vstd::wrapping::u64_specs::wrapping_add(id, 1)
                &&& final(self).spec_transactions() == old(self).spec_transactions().push(
                    (id, request, TransactionPhase::Accepted),
                )
            },
            final(self).spec_ranges() == old(self).spec_ranges(),
            final(self).spec_bursts() == old(self).spec_bursts(),
            old(self).well_formed() ==> final(self).well_formed(),
    {
        MemoryMap::submit_transaction(self, request)
    }

    fn transaction_phase(&self, id: u64) -> (r: Option<TransactionPhase>)
        ensures
            r is None <==> !self.spec_transaction_ids().contains(id),
            r matches Some(p) ==> exists|i: int| is_first_with_id(self.spec_transaction_ids(), id, i)
                && self.spec_transactions()[i].2 == p,
    {
        MemoryMap::transaction_phase(self, id)
    }

    fn advance_transaction(&mut self, id: u64) -> (r: Option<TransactionPhase>)
        ensures
            old(self).well_formed() ==> final(self).well_formed(),
            r is None <==> !old(self).spec_transaction_ids().contains(id),
            r is None ==> final(self).spec_transactions() == old(self).spec_transactions(),
            r matches Some(p) ==> exists|i: int| {
                &&& is_first_with_id(old(self).spec_transaction_ids(), id, i)
                &&& (old(self).well_formed() ==> transaction_step(old(self).spec_transactions()[i].2, p))
                &&& final(self).spec_transactions() == old(self).spec_transactions().update(
                    i,
                    (id, old(self).spec_transactions()[i].1, p),
                )
            },
            final(self).spec_ranges() == old(self).spec_ranges(),
            final(self).spec_bursts() == old(self).spec_bursts(),
            final(self).spec_next_id() == old(self).spec_next_id(),
    {
        MemoryMap::advance_transaction(self, id)
    }

    fn take_transaction_response(&mut self, id: u64) -> (r: Option<Result<TransactionResponse, BusError>>)
        ensures
            !old(self).spec_transaction_ids().contains(id) ==> r is None,
            r is None ==> final(self).spec_transactions() == old(self).spec_transactions(),
            r matches Some(result) ==> exists|i: int| {
                &&& is_first_with_id(old(self).spec_transaction_ids(), id, i)
                &&& match old(self).spec_transactions()[i].2 {
                    TransactionPhase::Ready(response) => result == Ok::<TransactionResponse, BusError>(response),
                    TransactionPhase::Failed(error) => result == Err::<TransactionResponse, BusError>(error),
                    _ => false,
                }
                &&& final(self).spec_transactions() == old(self).spec_transactions().update(
                    i,
                    old(self).spec_transactions().last(),
                ).drop_last()
            },
            old(self).spec_transaction_ids().contains(id) && r is None ==> exists|i: int|
                is_first_with_id(old(self).spec_transaction_ids(), id, i) && (old(self).spec_transactions()[i].2 is Accepted
                    || old(self).spec_transactions()[i].2 is InFlight),
            final(self).spec_ranges() == old(self).spec_ranges(),
            final(self).spec_bursts() == old(self).spec_bursts(),
            final(self).spec_next_id() == old(self).spec_next_id(),
            old(self).well_formed() ==> final(self).well_formed(),
    {
        MemoryMap::take_transaction_response(self, id)
    }
}

impl<D: Addressable> BurstBus for MemoryMap<D> {
    fn submit_burst(&mut self, request: BurstRequest) -> (r: Result<u64, BusError>)
        ensures
            r matches Err(e) ==> final(self).spec_bursts() == old(self).spec_bursts() && final(self).spec_next_id()
                == old(self).spec_next_id() && ((e == (BusError::UnmappedAddress { addr: request.spec_base_addr() })
                && first_containing(old(self).spec_ranges(), request.spec_base_addr()) is None) || e is DeviceFault),
            r matches Ok(id) ==> {
                &&& id == old(self).spec_next_id()
                &&& final(self).spec_next_id() == vstd::wrapping::u64_specs::wrapping_add(id, 1)
                &&& final(self).spec_bursts() == old(self).spec_bursts().push(
                    (id, BurstPhase::Accepted { beat_index: 0, total_beats: request.spec_beats() as usize }),
                )
                &&& exists|d: int| 0 <= d < old(self).spec_ranges().len() && burst_within(
                    #[trigger] old(self).spec_ranges()[d],
                    request.spec_base_addr(),
                    request.spec_beats(),
                )
            },
            first_containing(old(self).spec_ranges(), request.spec_base_addr()) is None ==> r is Err,
            r is Ok <==> burst_accepted(old(self).spec_ranges(), request.spec_base_addr(), request.spec_beats()),
            r matches Err(e) ==> (first_containing(old(self).spec_ranges(), request.spec_base_addr()) matches Some(d)
                ==> exists|b: int|
                1 <= b < request.spec_beats() && beats_in_device(old(self).spec_ranges(), request.spec_base_addr(), d, b)
                    && #[trigger] first_containing(old(self).spec_ranges(), (request.spec_base_addr() + 4 * b) as Address)
                    != Some(d) && e == (BusError::DeviceFault {
                    addr: (request.spec_base_addr() + 4 * b) as Address,
                    message: "burst crosses device boundary",
                })),
            final(self).spec_ranges() == old(self).spec_ranges(),
            final(self).spec_transactions() == old(self).spec_transactions(),
            old(self).well_formed() ==> final(self).well_formed(),
    {
        MemoryMap::submit_burst(self, request)
    }

    fn burst_phase(&self, id: u64) -> (r: Option<BurstPhase>)
        ensures
            r is None <==> !self.spec_burst_ids().contains(id),
            r matches Some(p) ==> exists|i: int| is_first_with_id(self.spec_burst_ids(), id, i) && self.spec_bursts()[i].1 == p,
    {
        MemoryMap::burst_phase(self, id)
    }

    fn advance_burst(&mut self, id: u64) -> (r: Option<BurstPhase>)
        ensures
            old(self).well_formed() ==> final(self).well_formed(),
            r is None <==> !old(self).spec_burst_ids().contains(id),
            r is None ==> final(self).spec_bursts() == old(self).spec_bursts(),
            r matches Some(p) ==> exists|i: int| {
                &&& is_first_with_id(old(self).spec_burst_ids(), id, i)
                &&& burst_step(old(self).spec_bursts()[i].1, p)
                &&& final(self).spec_bursts() == old(self).spec_bursts().update(i, (id, p))
            },
            final(self).spec_ranges() == old(self).spec_ranges(),
            final(self).spec_transactions() == old(self).spec_transactions(),
            final(self).spec_next_id() == old(self).spec_next_id(),
    {
        MemoryMap::advance_burst(self, id)
    }

    fn take_burst_response(&mut self, id: u64) -> (r: Option<Result<BurstResponse, BusError>>)
        ensures
            !old(self).spec_burst_ids().contains(id) ==> r is None,
            r is None ==> final(self).spec_bursts() == old(self).spec_bursts(),
            r matches Some(result) ==> exists|i: int| {
                &&& is_first_with_id(old(self).spec_burst_ids(), id, i)
                &&& match old(self).spec_bursts()[i].1 {
                    BurstPhase::Ready { completed_beats } => result matches Ok(response) && match response {
                        BurstResponse::WriteComplete { beats } => beats == completed_beats,
                        BurstResponse::ReadWords(_) => true,
                    },
                    BurstPhase::Failed(error) => result == Err::<BurstResponse, BusError>(error),
                    _ => false,
                }
                &&& final(self).spec_bursts() == old(self).spec_bursts().update(i, old(self).spec_bursts().last()).drop_last()
            },
            old(self).spec_burst_ids().contains(id) && r is None ==> exists|i: int|
                is_first_with_id(old(self).spec_burst_ids(), id, i) && (old(self).spec_bursts()[i].1 is Accepted
                    || old(self).spec_bursts()[i].1 is InFlight),
            final(self).spec_ranges() == old(self).spec_ranges(),
            final(self).spec_transactions() == old(self).spec_transactions(),
            final(self).spec_next_id() == old(self).spec_next_id(),
            old(self).well_formed() ==> final(self).well_formed(),
    {
        MemoryMap::take_burst_response(self, id)
    }
}

} // verus!
