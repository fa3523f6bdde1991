//! Bus vocabulary: addresses, interrupt lines, transactions, bursts, and the
//! traits implemented by devices, bus masters and bus fabrics.

use vstd::prelude::*;
use crate::bytes::{half_byte, half_from_le_bytes, half_to_le_bytes, le_word, word_byte, word_from_le_bytes, word_to_le_bytes};

verus! {

/// Physical address used across the computer model.
pub type Address = u64;

/// Direction of a bus access used by timing models.
#[derive(Debug, Clone, Copy, PartialEq, Eq, Structural)]
pub enum AccessKind {
    Fetch,
    Load,
    Store,
}

/// Interrupt lines exposed by memory-mapped devices to the CPU.
#[derive(Debug, Clone, Copy, PartialEq, Eq, Structural)]
pub enum InterruptLine {
    MachineSoftware,
    MachineTimer,
    MachineExternal,
    SupervisorSoftware,
    SupervisorTimer,
    SupervisorExternal,
}

/// The bit that records a line inside an [`InterruptSet`].
pub open spec fn line_bit(line: InterruptLine) -> u8 {
    match line {
        InterruptLine::MachineSoftware => 1,
        InterruptLine::MachineTimer => 2,
        InterruptLine::MachineExternal => 4,
        InterruptLine::SupervisorSoftware => 8,
        InterruptLine::SupervisorTimer => 16,
        InterruptLine::SupervisorExternal => 32,
    }
}

fn line_mask(line: InterruptLine) -> (m: u8)
    ensures
        m == line_bit(line),
{
    match line {
        InterruptLine::MachineSoftware => 1,
        InterruptLine::MachineTimer => 2,
        InterruptLine::MachineExternal => 4,
        InterruptLine::SupervisorSoftware => 8,
        InterruptLine::SupervisorTimer => 16,
        InterruptLine::SupervisorExternal => 32,
    }
}

/// Aggregate interrupt state visible on the bus.
#[derive(Debug, Clone, Copy, Default, PartialEq, Eq, Structural)]
pub struct InterruptSet {
    bits: u8,
}

/// The lines in priority order: machine external, software, timer, then the
/// supervisor lines in the same order.
pub open spec fn highest_line(set: InterruptSet) -> Option<InterruptLine> {
    if set.has(InterruptLine::MachineExternal) {
        Some(InterruptLine::MachineExternal)
    } else if set.has(InterruptLine::MachineSoftware) {
        Some(InterruptLine::MachineSoftware)
    } else if set.has(InterruptLine::MachineTimer) {
        Some(InterruptLine::MachineTimer)
    } else if set.has(InterruptLine::SupervisorExternal) {
        Some(InterruptLine::SupervisorExternal)
    } else if set.has(InterruptLine::SupervisorSoftware) {
        Some(InterruptLine::SupervisorSoftware)
    } else if set.has(InterruptLine::SupervisorTimer) {
        Some(InterruptLine::SupervisorTimer)
    } else {
        None
    }
}

impl InterruptSet {
    /// Whether the line is asserted in the set.
    pub closed spec fn has(self, line: InterruptLine) -> bool {
        self.bits & line_bit(line) != 0
    }

    /// The set holding exactly the given line.
    pub closed spec fn of_line(line: InterruptLine) -> InterruptSet {
        InterruptSet { bits: line_bit(line) }
    }

    /// The set with no line asserted.
    pub closed spec fn nothing() -> InterruptSet {
        InterruptSet { bits: 0 }
    }

    /// The set with no line asserted.
    pub fn empty() -> (s: Self)
        ensures
            s == InterruptSet::nothing(),
            forall|l: InterruptLine| !s.has(l),
    {
        let s = InterruptSet { bits: 0 };
        assert forall|l: InterruptLine| !s.has(l) by {
            assert(0u8 & 1 == 0 && 0u8 & 2 == 0 && 0u8 & 4 == 0 && 0u8 & 8 == 0 && 0u8 & 16 == 0
                && 0u8 & 32 == 0) by (bit_vector);
        }
        s
    }

    /// The set holding exactly one line.
    pub fn from_line(line: InterruptLine) -> (s: Self)
        ensures
            s == InterruptSet::of_line(line),
            forall|l: InterruptLine| s.has(l) <==> l == line,
    {
        let s = InterruptSet { bits: line_mask(line) };
        assert forall|l: InterruptLine| s.has(l) <==> l == line by {
            let a = line_bit(l);
            let b = line_bit(line);
            assert(1u8 & 1 != 0 && 2u8 & 2 != 0 && 4u8 & 4 != 0 && 8u8 & 8 != 0 && 16u8 & 16 != 0 && 32u8 & 32 != 0) by (bit_vector);
            assert(forall|x: u8, y: u8| (x == 1 || x == 2 || x == 4 || x == 8 || x == 16 || x == 32)
                && (y == 1 || y == 2 || y == 4 || y == 8 || y == 16 || y == 32) && x != y ==> #[trigger] (x & y) == 0) by (bit_vector);
        }
        s
    }

    /// Whether the line is asserted.
    pub fn contains(self, line: InterruptLine) -> (b: bool)
        ensures
            b == self.has(line),
    {
        (self.bits & line_mask(line)) != 0
    }

    /// The set of the lines asserted in either set.
    pub closed spec fn spec_union(self, other: Self) -> InterruptSet {
        InterruptSet { bits: self.bits | other.bits }
    }

    /// Union is commutative, associative and idempotent, and the empty set is
    /// its identity: as values, not only line by line.
    pub proof fn lemma_union_laws(a: InterruptSet, b: InterruptSet, c: InterruptSet)
        ensures
            a.spec_union(b) == b.spec_union(a),
            a.spec_union(b).spec_union(c) == a.spec_union(b.spec_union(c)),
            a.spec_union(a) == a,
            a.spec_union(InterruptSet::nothing()) == a,
    {
        let (x, y, z) = (a.bits, b.bits, c.bits);
        assert(x | y == y | x && (x | y) | z == x | (y | z) && x | x == x && x | 0 == x) by (bit_vector);
    }

    /// The lines asserted in either set.
    pub fn union(self, other: Self) -> (s: Self)
        ensures
            s == self.spec_union(other),
            forall|l: InterruptLine| s.has(l) <==> (self.has(l) || other.has(l)),
    {
        let s = InterruptSet { bits: self.bits | other.bits };
        assert forall|l: InterruptLine| s.has(l) <==> (self.has(l) || other.has(l)) by {
            let m = line_bit(l);
            let x = self.bits;
            let y = other.bits;
            assert((x | y) & m != 0 <==> (x & m != 0 || y & m != 0)) by (bit_vector)
                requires m == 1 || m == 2 || m == 4 || m == 8 || m == 16 || m == 32;
        }
        s
    }

    /// The highest-priority asserted line.
    pub fn highest_priority(self) -> (r: Option<InterruptLine>)
        ensures
            r == highest_line(self),
    {
        if self.contains(InterruptLine::MachineExternal) {
            Some(InterruptLine::MachineExternal)
        } else if self.contains(InterruptLine::MachineSoftware) {
            Some(InterruptLine::MachineSoftware)
        } else if self.contains(InterruptLine::MachineTimer) {
            Some(InterruptLine::MachineTimer)
        } else if self.contains(InterruptLine::SupervisorExternal) {
            Some(InterruptLine::SupervisorExternal)
        } else if self.contains(InterruptLine::SupervisorSoftware) {
            Some(InterruptLine::SupervisorSoftware)
        } else if self.contains(InterruptLine::SupervisorTimer) {
            Some(InterruptLine::SupervisorTimer)
        } else {
            None
        }
    }
}

/// The highest-priority line of a set is one of its lines, and a set with no
/// line has none.
pub proof fn highest_priority_is_member(set: InterruptSet)
    ensures
        highest_line(set) matches Some(l) ==> set.has(l),
        highest_line(set) is None ==> forall|l: InterruptLine| !set.has(l),
{
}

impl From<InterruptLine> for InterruptSet {
    fn from(value: InterruptLine) -> (s: InterruptSet) {
        InterruptSet { bits: line_mask(value) }
    }
}

impl vstd::std_specs::convert::FromSpecImpl<InterruptLine> for InterruptSet {
    open spec fn obeys_from_spec() -> bool {
        true
    }

    open spec fn from_spec(value: InterruptLine) -> InterruptSet {
        InterruptSet::of_line(value)
    }
}

/// A half-open physical address range `[start, start + size)`.
#[derive(Debug, Clone, Copy, PartialEq, Eq, Structural)]
pub struct AddressRange {
    pub start: Address,
    pub size: u64,
}

impl AddressRange {
    /// Whether the address falls inside the range.
    pub open spec fn spec_contains(self, addr: Address) -> bool {
        self.start <= addr < self.start + self.size
    }

    /// Whether two ranges share an address.
    pub open spec fn spec_overlaps(self, other: Self) -> bool {
        self.start < other.start + other.size && other.start < self.start + self.size
    }

    /// A range of `size` bytes starting at `start`.
    pub fn new(start: Address, size: u64) -> (r: Self)
        ensures
            r == (AddressRange { start, size }),
    {
        AddressRange { start, size }
    }

    /// One past the last address of the range.
    pub fn end(self) -> (e: Address)
        requires
            self.start + self.size <= u64::MAX,
        ensures
            e == self.start + self.size,
    {
        self.start + self.size
    }

    /// Whether the address falls inside the range.
    pub fn contains(self, addr: Address) -> (b: bool)
        ensures
            b == self.spec_contains(addr),
    {
        addr >= self.start && addr - self.start < self.size
    }

    /// Whether two ranges share an address.
    pub fn overlaps(self, other: Self) -> (b: bool)
        ensures
            b == self.spec_overlaps(other),
    {
        (self.start as u128) < (other.start as u128) + (other.size as u128)
            && (other.start as u128) < (self.start as u128) + (self.size as u128)
    }
}

/// Overlap is symmetric, and an address in both ranges witnesses overlap.
pub proof fn overlap_laws(a: AddressRange, b: AddressRange, addr: Address)
    ensures
        a.spec_overlaps(b) == b.spec_overlaps(a),
        a.spec_contains(addr) && b.spec_contains(addr) ==> a.spec_overlaps(b),
{
}

/// Bus-level failures exposed by devices and memory maps.
#[derive(Debug, Clone, Copy, PartialEq, Eq)]
pub enum BusError {
    Busy { remaining_cycles: u32 },
    UnmappedAddress { addr: Address },
    MisalignedAccess { addr: Address, width: usize },
    ReadOnlyAddress { addr: Address },
    DeviceFault { addr: Address, message: &'static str },
}

/// A transaction request accepted by the timing-aware bus fabric.
#[derive(Debug, Clone, Copy, PartialEq, Eq)]
pub struct TransactionRequest {
    pub addr: Address,
    pub kind: AccessKind,
    pub width: usize,
    pub write_data: [u8; 4],
}

/// Field-wise equality of two requests.
pub fn same_request(a: &TransactionRequest, b: &TransactionRequest) -> (r: bool)
    ensures
        r == (a.addr == b.addr && a.kind == b.kind && a.width == b.width && a.write_data@
            == b.write_data@),
{
    let same = a.addr == b.addr && a.kind == b.kind && a.width == b.width && a.write_data[0]
        == b.write_data[0] && a.write_data[1] == b.write_data[1] && a.write_data[2]
        == b.write_data[2] && a.write_data[3] == b.write_data[3];
    proof {
        if a.write_data[0] == b.write_data[0] && a.write_data[1] == b.write_data[1]
            && a.write_data[2] == b.write_data[2] && a.write_data[3] == b.write_data[3] {
            assert(a.write_data@ =~= b.write_data@);
        }
    }
    same
}

impl TransactionRequest {
    /// A 32-bit instruction fetch.
    pub fn fetch32(addr: Address) -> (r: Self)
        ensures
            r.addr == addr && r.kind == AccessKind::Fetch && r.width == 4 && r.write_data@ == seq![0u8, 0u8, 0u8, 0u8],
    {
        let r = TransactionRequest { addr, kind: AccessKind::Fetch, width: 4, write_data: [0; 4] };
        assert(r.write_data@ =~= seq![0u8, 0u8, 0u8, 0u8]);
        r
    }

    /// A data load of `width` bytes.
    pub fn load(addr: Address, width: usize) -> (r: Self)
        ensures
            r.addr == addr && r.kind == AccessKind::Load && r.width == width && r.write_data@ == seq![0u8, 0u8, 0u8, 0u8],
    {
        let r = TransactionRequest { addr, kind: AccessKind::Load, width, write_data: [0; 4] };
        assert(r.write_data@ =~= seq![0u8, 0u8, 0u8, 0u8]);
        r
    }

    /// A data store of `width` bytes taken from the front of `write_data`.
    pub fn store(addr: Address, width: usize, write_data: [u8; 4]) -> (r: Self)
        ensures
            r == (TransactionRequest { addr, kind: AccessKind::Store, width, write_data }),
    {
        TransactionRequest { addr, kind: AccessKind::Store, width, write_data }
    }
}

/// Response payload produced by a completed transaction.
#[derive(Debug, Clone, Copy, PartialEq, Eq)]
pub enum TransactionResponse {
    Read { data: [u8; 4], width: usize },
    WriteComplete,
}

impl TransactionResponse {
    /// The little-endian word of a completed 32-bit read.
    pub fn read_u32(self) -> (r: Option<u32>)
        ensures
            r == (match self {
                TransactionResponse::Read { data, width } => if width == 4 {
                    Some(le_word(data[0], data[1], data[2], data[3]))
                } else {
                    None
                },
                _ => None,
            }),
    {
        match self {
            TransactionResponse::Read { data, width } => {
                if width == 4 {
                    Some(word_from_le_bytes(data))
                } else {
                    None
                }
            },
            _ => None,
        }
    }
}

/// Observable lifecycle state for an outstanding bus transaction.
#[derive(Debug, Clone, Copy, PartialEq, Eq)]
pub enum TransactionPhase {
    Accepted,
    InFlight { remaining_cycles: u32 },
    Ready(TransactionResponse),
    Failed(BusError),
}

/// A beat-oriented burst request over contiguous 32-bit words.
#[derive(Debug, Clone, PartialEq, Eq)]
pub enum BurstRequest {
    ReadWords { base_addr: Address, beats: usize, kind: AccessKind },
    WriteWords { base_addr: Address, words: Vec<u32> },
}

impl BurstRequest {
    /// The number of beats in the burst.
    pub open spec fn spec_beats(&self) -> nat {
        match self {
            BurstRequest::ReadWords { beats, .. } => *beats as nat,
            BurstRequest::WriteWords { words, .. } => words@.len(),
        }
    }

    /// The address of the first beat.
    pub open spec fn spec_base_addr(&self) -> Address {
        match self {
            BurstRequest::ReadWords { base_addr, .. } => *base_addr,
            BurstRequest::WriteWords { base_addr, .. } => *base_addr,
        }
    }

    /// A read burst of `beats` consecutive words.
    pub fn read_words(base_addr: Address, beats: usize, kind: AccessKind) -> (r: Self)
        ensures
            r == (BurstRequest::ReadWords { base_addr, beats, kind }),
    {
        BurstRequest::ReadWords { base_addr, beats, kind }
    }

    /// A write burst of the given words.
    pub fn write_words(base_addr: Address, words: Vec<u32>) -> (r: Self)
        ensures
            r == (BurstRequest::WriteWords { base_addr, words }),
    {
        BurstRequest::WriteWords { base_addr, words }
    }

    /// The number of beats in the burst.
    pub fn beats(&self) -> (n: usize)
        ensures
            n == self.spec_beats(),
    {
        match self {
            BurstRequest::ReadWords { beats, .. } => *beats,
            BurstRequest::WriteWords { words, .. } => words.len(),
        }
    }

    /// The address of the first beat.
    pub fn base_addr(&self) -> (a: Address)
        ensures
            a == self.spec_base_addr(),
    {
        match self {
            BurstRequest::ReadWords { base_addr, .. } => *base_addr,
            BurstRequest::WriteWords { base_addr, .. } => *base_addr,
        }
    }

    /// The address of beat `beat_index`: four bytes per beat past the base.
    pub fn beat_addr(&self, beat_index: usize) -> (a: Address)
        requires
            self.spec_base_addr() + 4 * beat_index <= u64::MAX,
        ensures
            a == self.spec_base_addr() + 4 * beat_index,
    {
        self.base_addr() + (beat_index as u64) * 4
    }

    /// The access kind of every beat: the read kind, or a store.
    pub fn beat_kind(&self) -> (k: AccessKind)
        ensures
            k == (match self {
                BurstRequest::ReadWords { kind, .. } => *kind,
                BurstRequest::WriteWords { .. } => AccessKind::Store,
            }),
    {
        match self {
            BurstRequest::ReadWords { kind, .. } => *kind,
            BurstRequest::WriteWords { .. } => AccessKind::Store,
        }
    }
}

/// Response payload produced by a completed burst request.
#[derive(Debug, Clone, PartialEq, Eq)]
pub enum BurstResponse {
    ReadWords(Vec<u32>),
    WriteComplete { beats: usize },
}

/// Observable lifecycle state for an outstanding burst.
#[derive(Debug, Clone, Copy, PartialEq, Eq)]
pub enum BurstPhase {
    Accepted { beat_index: usize, total_beats: usize },
    InFlight { beat_index: usize, total_beats: usize, remaining_cycles: u32 },
    Ready { completed_beats: usize },
    Failed(BusError),
}

/// A bus transaction issued by a non-CPU bus master: a single word, or a
/// burst of consecutive words.
#[derive(Debug, Clone, PartialEq, Eq)]
pub enum BusMasterRequest {
    Load32 { addr: Address },
    Store32 { addr: Address, value: u32 },
    ReadWords { base_addr: Address, beats: usize },
    WriteWords { base_addr: Address, words: Vec<u32> },
}

/// Completion value returned to a non-CPU bus master.
#[derive(Debug, Clone, PartialEq, Eq)]
pub enum BusMasterResponse {
    Load32(u32),
    StoreComplete,
    ReadWords(Vec<u32>),
    WriteWordsComplete { beats: usize },
}

/// A peripheral-side initiator that can compete with the CPU for bus access.
pub trait BusMaster {
    fn name(&self) -> &'static str;

    fn request(&mut self) -> Option<BusMasterRequest>;

    fn on_response(&mut self, response: Result<BusMasterResponse, BusError>);
}

/// A memory-mapped device that responds to byte loads and stores.
pub trait Addressable: Sized {
    fn name(&self) -> &'static str;

    fn address_range(&self) -> AddressRange;

    /// By default a device has no state to reset.
    fn reset(&mut self)
        default_ensures
            *final(self) == *old(self),
    {
    }

    /// By default a device has nothing to advance.
    fn tick(&mut self)
        default_ensures
            *final(self) == *old(self),
    {
    }

    /// By default a device keeps no machine time.
    fn machine_time(&self) -> (t: Option<u64>)
        default_ensures
            t is None,
    {
        None
    }

    /// By default every access completes at once.
    fn access_latency(&mut self, addr: Address, kind: AccessKind, width: usize) -> (n: u32)
        default_ensures
            n == 0,
            *final(self) == *old(self),
    {
        0
    }

    /// By default a device asserts no line.
    fn pending_interrupts(&self) -> (s: InterruptSet)
        default_ensures
            s == InterruptSet::nothing(),
    {
        InterruptSet::empty()
    }

    fn pending_interrupt(&self) -> Option<InterruptLine> {
        self.pending_interrupts().highest_priority()
    }

    fn load8(&mut self, addr: Address) -> Result<u8, BusError>;

    fn store8(&mut self, addr: Address, value: u8) -> Result<(), BusError>;
}

/// One byte access asked of a bus.
#[derive(Debug, Clone, Copy, PartialEq, Eq, Structural)]
pub enum ByteAccess {
    Read(Address),
    Write(Address, u8),
}

/// The reads of the `count` bytes from `addr`, lowest address first.
pub open spec fn byte_reads(addr: Address, count: nat) -> Seq<ByteAccess> {
    Seq::new(count, |k: int| ByteAccess::Read((addr + k) as Address))
}

/// The writes of `bytes` to consecutive addresses from `addr`.
pub open spec fn byte_writes(addr: Address, bytes: Seq<u8>) -> Seq<ByteAccess> {
    Seq::new(bytes.len(), |k: int| ByteAccess::Write((addr + k) as Address, bytes[k]))
}

/// The little-endian bytes of a word.
pub open spec fn word_bytes(w: u32) -> Seq<u8> {
    seq![word_byte(w, 0), word_byte(w, 1), word_byte(w, 2), word_byte(w, 3)]
}

/// The little-endian bytes of a half-word.
pub open spec fn half_bytes(h: u16) -> Seq<u8> {
    seq![half_byte(h, 0), half_byte(h, 1)]
}

/// The accesses `accesses` a call may ask for when it is `aligned`; none otherwise.
pub open spec fn aligned_accesses(aligned: bool, accesses: Seq<ByteAccess>) -> Seq<ByteAccess> {
    if aligned { accesses } else { Seq::empty() }
}

/// The log `after` is `before` followed by the first accesses of
/// `accesses`, in order, stopping at the first refused one: at least one
/// when there is any, all of them when the call succeeded.
pub open spec fn logged(before: Seq<ByteAccess>, after: Seq<ByteAccess>, accesses: Seq<ByteAccess>, complete: bool) -> bool {
    let n = after.len() - before.len();
    &&& 0 <= n <= accesses.len()
    &&& after == before + accesses.take(n)
    &&& (accesses.len() > 0 ==> n >= 1)
    &&& (complete ==> n == accesses.len())
}

/// A log that holds the first `k` accesses after `start` holds the first
/// `k + 1` once the next access is added.
pub proof fn lemma_log_extends(start: Seq<ByteAccess>, accesses: Seq<ByteAccess>, k: int, log: Seq<ByteAccess>)
    requires
        0 <= k < accesses.len(),
        log == start + accesses.take(k),
    ensures
        log.push(accesses[k]) == start + accesses.take(k + 1),
{
    assert(log.push(accesses[k]) =~= start + accesses.take(k + 1));
}

/// An empty log extension is the empty prefix.
pub proof fn lemma_log_empty(start: Seq<ByteAccess>, accesses: Seq<ByteAccess>)
    ensures
        start == start + accesses.take(0),
{
    assert(start =~= start + accesses.take(0));
}

/// A log extended as `logged` keeps what it held and, when any access was
/// asked for, next holds the first of them.
pub proof fn lemma_logged_prefix(before: Seq<ByteAccess>, after: Seq<ByteAccess>, accesses: Seq<ByteAccess>, complete: bool)
    requires
        logged(before, after, accesses, complete),
    ensures
        after.len() >= before.len(),
        after.subrange(0, before.len() as int) == before,
        accesses.len() > 0 ==> after[before.len() as int] == accesses[0],
{
    let n = after.len() - before.len();
    assert(after.subrange(0, before.len() as int) =~= before);
}

/// A log extended by all of `accesses` (or by none, when none are asked for)
/// is `logged` whatever the call's outcome.
pub proof fn lemma_logged_whole(before: Seq<ByteAccess>, accesses: Seq<ByteAccess>)
    ensures
        logged(before, before + accesses, accesses, true),
        logged(before, before + accesses, accesses, false),
        logged(before, before, Seq::<ByteAccess>::empty(), true),
        logged(before, before, Seq::<ByteAccess>::empty(), false),
{
    assert(accesses.take(accesses.len() as int) =~= accesses);
    assert(before + Seq::<ByteAccess>::empty().take(0) =~= before);
}

/// The log `after` holds all of `before` first, then possibly more.
pub open spec fn log_grows(before: Seq<ByteAccess>, after: Seq<ByteAccess>) -> bool {
    after.len() >= before.len() && after.subrange(0, before.len() as int) =~= before
}

/// A `logged` extension grows the log by exactly the accesses it names.
pub proof fn lemma_logged_grows(before: Seq<ByteAccess>, after: Seq<ByteAccess>, accesses: Seq<ByteAccess>, complete: bool)
    requires
        logged(before, after, accesses, complete),
    ensures
        log_grows(before, after),
        after == before + after.subrange(before.len() as int, after.len() as int),
        logged(Seq::empty(), after.subrange(before.len() as int, after.len() as int), accesses, complete),
{
    let n = after.len() - before.len();
    let tail = after.subrange(before.len() as int, after.len() as int);
    assert(after.subrange(0, before.len() as int) =~= before);
    assert(after =~= before + tail);
    assert(tail =~= accesses.take(n));
    assert(Seq::<ByteAccess>::empty() + accesses.take(n) =~= tail);
}

/// Growth of a log is transitive.
pub proof fn lemma_log_grows_trans(a: Seq<ByteAccess>, b: Seq<ByteAccess>, c: Seq<ByteAccess>)
    requires
        log_grows(a, b),
        log_grows(b, c),
    ensures
        log_grows(a, c),
{
    assert(c.subrange(0, a.len() as int) =~= b.subrange(0, a.len() as int));
}

/// A byte-addressable bus with default helpers for wider accesses built from
/// byte accesses, checking natural alignment first.
pub trait Bus {
    /// Whether this bus keeps `spec_log`, the record of the byte accesses it
    /// was asked for. None does unless it says so.
    open spec fn spec_keeps_log(&self) -> bool {
        false
    }

    /// The byte accesses this bus was asked for, oldest first.
    open spec fn spec_log(&self) -> Seq<ByteAccess> {
        Seq::empty()
    }

    fn load8(&mut self, addr: Address) -> (r: Result<u8, BusError>)
        ensures
            old(self).spec_keeps_log() ==> final(self).spec_keeps_log() && final(self).spec_log() == old(self).spec_log().push(
                ByteAccess::Read(addr),
            ),
    ;

    fn store8(&mut self, addr: Address, value: u8) -> (r: Result<(), BusError>)
        ensures
            old(self).spec_keeps_log() ==> final(self).spec_keeps_log() && final(self).spec_log() == old(self).spec_log().push(
                ByteAccess::Write(addr, value),
            ),
    ;

    fn reset(&mut self)
        ensures
            old(self).spec_keeps_log() ==> final(self).spec_keeps_log() && final(self).spec_log() == old(self).spec_log(),
    {
    }

    fn tick(&mut self)
        ensures
            old(self).spec_keeps_log() ==> final(self).spec_keeps_log() && final(self).spec_log() == old(self).spec_log(),
    {
    }

    fn is_busy(&self) -> bool {
        false
    }

    fn machine_time(&self) -> Option<u64> {
        None
    }

    /// By default a bus carries no interrupt line.
    fn pending_interrupts(&self) -> (s: InterruptSet)
        default_ensures
            s == InterruptSet::nothing(),
    {
        InterruptSet::empty()
    }

    fn pending_interrupt(&self) -> Option<InterruptLine> {
        self.pending_interrupts().highest_priority()
    }

    fn fetch32(&mut self, addr: Address) -> (r: Result<u32, BusError>)
        ensures
            old(self).spec_keeps_log() ==> final(self).spec_keeps_log() && logged(
                old(self).spec_log(),
                final(self).spec_log(),
                aligned_accesses(addr % 4 == 0, byte_reads(addr, 4)),
                r is Ok,
            ),
    {
        self.load32(addr)
    }

    /// By default two byte loads, little-endian, after an alignment check.
    fn load16(&mut self, addr: Address) -> (r: Result<u16, BusError>)
        ensures
            old(self).spec_keeps_log() ==> final(self).spec_keeps_log() && logged(
                old(self).spec_log(),
                final(self).spec_log(),
                aligned_accesses(addr % 2 == 0, byte_reads(addr, 2)),
                r is Ok,
            ),
        default_ensures
            addr % 2 != 0 ==> r == Err::<u16, BusError>(BusError::MisalignedAccess { addr, width: 2 }),
    {
        proof {
            lemma_log_empty(self.spec_log(), byte_reads(addr, 2));
        }
        if addr % 2 != 0 {
            return Err(BusError::MisalignedAccess { addr, width: 2 });
        }
        let ghost start = self.spec_log();
        let ghost reads = byte_reads(addr, 2);
        proof {
            lemma_log_extends(start, reads, 0, self.spec_log());
        }
        let b0 = self.load8(addr)?;
        proof {
            if old(self).spec_keeps_log() {
                lemma_log_extends(start, reads, 1, self.spec_log());
            }
        }
        let b1 = self.load8(addr + 1)?;
        Ok(half_from_le_bytes(b0, b1))
    }

    /// By default four byte loads, little-endian, after an alignment check.
    fn load32(&mut self, addr: Address) -> (r: Result<u32, BusError>)
        ensures
            old(self).spec_keeps_log() ==> final(self).spec_keeps_log() && logged(
                old(self).spec_log(),
                final(self).spec_log(),
                aligned_accesses(addr % 4 == 0, byte_reads(addr, 4)),
                r is Ok,
            ),
        default_ensures
            addr % 4 != 0 ==> r == Err::<u32, BusError>(BusError::MisalignedAccess { addr, width: 4 }),
    {
        proof {
            lemma_log_empty(self.spec_log(), byte_reads(addr, 4));
        }
        if addr % 4 != 0 {
            return Err(BusError::MisalignedAccess { addr, width: 4 });
        }
        let ghost start = self.spec_log();
        let ghost reads = byte_reads(addr, 4);
        proof {
            lemma_log_extends(start, reads, 0, self.spec_log());
        }
        let b0 = self.load8(addr)?;
        proof {
            if old(self).spec_keeps_log() {
                lemma_log_extends(start, reads, 1, self.spec_log());
            }
        }
        let b1 = self.load8(addr + 1)?;
        proof {
            if old(self).spec_keeps_log() {
                lemma_log_extends(start, reads, 2, self.spec_log());
            }
        }
        let b2 = self.load8(addr + 2)?;
        proof {
            if old(self).spec_keeps_log() {
                lemma_log_extends(start, reads, 3, self.spec_log());
            }
        }
        let b3 = self.load8(addr + 3)?;
        Ok(word_from_le_bytes([b0, b1, b2, b3]))
    }

    /// By default two byte stores, little-endian, after an alignment check.
    fn store16(&mut self, addr: Address, value: u16) -> (r: Result<(), BusError>)
        ensures
            old(self).spec_keeps_log() ==> final(self).spec_keeps_log() && logged(
                old(self).spec_log(),
                final(self).spec_log(),
                aligned_accesses(addr % 2 == 0, byte_writes(addr, half_bytes(value))),
                r is Ok,
            ),
        default_ensures
            addr % 2 != 0 ==> r == Err::<(), BusError>(BusError::MisalignedAccess { addr, width: 2 }),
    {
        proof {
            lemma_log_empty(self.spec_log(), byte_writes(addr, half_bytes(value)));
        }
        if addr % 2 != 0 {
            return Err(BusError::MisalignedAccess { addr, width: 2 });
        }
        let bytes = half_to_le_bytes(value);
        let ghost start = self.spec_log();
        let ghost writes = byte_writes(addr, half_bytes(value));
        proof {
            lemma_log_extends(start, writes, 0, self.spec_log());
        }
        self.store8(addr, bytes[0])?;
        proof {
            if old(self).spec_keeps_log() {
                lemma_log_extends(start, writes, 1, self.spec_log());
            }
        }
        self.store8(addr + 1, bytes[1])?;
        Ok(())
    }

    /// By default four byte stores, little-endian, after an alignment check.
    fn store32(&mut self, addr: Address, value: u32) -> (r: Result<(), BusError>)
        ensures
            old(self).spec_keeps_log() ==> final(self).spec_keeps_log() && logged(
                old(self).spec_log(),
                final(self).spec_log(),
                aligned_accesses(addr % 4 == 0, byte_writes(addr, word_bytes(value))),
                r is Ok,
            ),
        default_ensures
            addr % 4 != 0 ==> r == Err::<(), BusError>(BusError::MisalignedAccess { addr, width: 4 }),
    {
        proof {
            lemma_log_empty(self.spec_log(), byte_writes(addr, word_bytes(value)));
        }
        if addr % 4 != 0 {
            return Err(BusError::MisalignedAccess { addr, width: 4 });
        }
        let bytes = word_to_le_bytes(value);
        let ghost start = self.spec_log();
        let ghost writes = byte_writes(addr, word_bytes(value));
        proof {
            lemma_log_extends(start, writes, 0, self.spec_log());
        }
        self.store8(addr, bytes[0])?;
        proof {
            if old(self).spec_keeps_log() {
                lemma_log_extends(start, writes, 1, self.spec_log());
            }
        }
        self.store8(addr + 1, bytes[1])?;
        proof {
            if old(self).spec_keeps_log() {
                lemma_log_extends(start, writes, 2, self.spec_log());
            }
        }
        self.store8(addr + 2, bytes[2])?;
        proof {
            if old(self).spec_keeps_log() {
                lemma_log_extends(start, writes, 3, self.spec_log());
            }
        }
        self.store8(addr + 3, bytes[3])?;
        Ok(())
    }
}

/// A bus that exposes an explicit transaction lifecycle.
pub trait TransactionBus: Bus {
    fn submit_transaction(&mut self, request: TransactionRequest) -> Result<u64, BusError>;

    fn transaction_phase(&self, id: u64) -> Option<TransactionPhase>;

    fn advance_transaction(&mut self, id: u64) -> Option<TransactionPhase>;

    fn take_transaction_response(&mut self, id: u64) -> Option<Result<TransactionResponse, BusError>>;
}

/// A burst-capable bus that exposes an explicit burst lifecycle.
pub trait BurstBus: Bus {
    /// A burst has at least one beat, and its last beat's address fits in 64 bits.
    fn submit_burst(&mut self, request: BurstRequest) -> Result<u64, BusError>
        requires
            request.spec_beats() > 0,
            request.spec_base_addr() + 4 * (request.spec_beats() - 1) <= u64::MAX,
    ;

    fn burst_phase(&self, id: u64) -> Option<BurstPhase>;

    fn advance_burst(&mut self, id: u64) -> Option<BurstPhase>;

    fn take_burst_response(&mut self, id: u64) -> Option<Result<BurstResponse, BusError>>;
}

} // verus!
