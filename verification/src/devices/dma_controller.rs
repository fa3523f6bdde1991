//! A memory-to-memory DMA engine with bounded read-ahead bursts.
//!
//! Software programs a source, a destination and a length in words, then
//! starts the transfer through the control register. As a bus master the
//! engine reads the source in bursts of up to eight words, keeping at most
//! four read bursts issued or buffered, and writes each burst's words to the
//! destination in order. Completion and failures set status bits and may
//! raise the machine external interrupt.

use vstd::prelude::*;
use std::collections::VecDeque;
use crate::bus::{
    Address, AddressRange, Addressable, BusError, BusMaster, BusMasterRequest, BusMasterResponse, InterruptLine,
    InterruptSet,
};
use crate::bytes::{byte_of_word, replace_byte, word_byte, word_with_byte};

verus! {

/// The words of a completed read burst, waiting to be written at `destination`.
#[derive(Debug, Clone, PartialEq, Eq)]
pub struct PendingWriteBurst {
    pub destination: Address,
    pub words: Vec<u32>,
}

/// A burst handed to the bus and not answered yet.
#[derive(Debug, Clone, Copy, PartialEq, Eq, Structural)]
pub enum IssuedDmaRequest {
    ReadBurst { destination: Address, beats: usize },
    WriteBurst { beats: usize },
}

/// How many of the issued bursts are reads.
pub open spec fn read_bursts(issued: Seq<IssuedDmaRequest>) -> nat
    decreases issued.len(),
{
    if issued.len() == 0 {
        0
    } else {
        read_bursts(issued.drop_last()) + if issued.last() is ReadBurst {
            1nat
        } else {
            0nat
        }
    }
}

/// The beats of one issued burst.
pub open spec fn beats_of(request: IssuedDmaRequest) -> nat {
    match request {
        IssuedDmaRequest::ReadBurst { beats, .. } => beats as nat,
        IssuedDmaRequest::WriteBurst { beats } => beats as nat,
    }
}

/// The words the issued bursts move.
pub open spec fn issued_words(issued: Seq<IssuedDmaRequest>) -> nat
    decreases issued.len(),
{
    if issued.len() == 0 {
        0
    } else {
        issued_words(issued.drop_last()) + beats_of(issued.last())
    }
}

/// The words read and waiting to be written.
pub open spec fn ready_words(ready: Seq<PendingWriteBurst>) -> nat
    decreases ready.len(),
{
    if ready.len() == 0 {
        0
    } else {
        ready_words(ready.drop_last()) + ready.last().words@.len()
    }
}

proof fn lemma_read_bursts_front(issued: Seq<IssuedDmaRequest>)
    requires
        issued.len() > 0,
    ensures
        read_bursts(issued) == read_bursts(issued.drop_first()) + if issued[0] is ReadBurst {
            1nat
        } else {
            0nat
        },
    decreases issued.len(),
{
    reveal_with_fuel(read_bursts, 2);
    if issued.len() == 1 {
        assert(issued.drop_first().len() == 0);
        assert(issued.drop_last().len() == 0);
        assert(issued.last() == issued[0]);
    } else {
        lemma_read_bursts_front(issued.drop_last());
        assert(issued.drop_last().drop_first() =~= issued.drop_first().drop_last());
        assert(issued.drop_first().last() == issued.last());
        assert(issued.drop_last()[0] == issued[0]);
    }
}

proof fn lemma_issued_words_front(issued: Seq<IssuedDmaRequest>)
    requires
        issued.len() > 0,
    ensures
        issued_words(issued) == issued_words(issued.drop_first()) + beats_of(issued[0]),
    decreases issued.len(),
{
    reveal_with_fuel(issued_words, 2);
    if issued.len() == 1 {
        assert(issued.drop_first().len() == 0);
        assert(issued.drop_last().len() == 0);
        assert(issued.last() == issued[0]);
    } else {
        lemma_issued_words_front(issued.drop_last());
        assert(issued.drop_last().drop_first() =~= issued.drop_first().drop_last());
        assert(issued.drop_first().last() == issued.last());
        assert(issued.drop_last()[0] == issued[0]);
    }
}

proof fn lemma_ready_words_front(ready: Seq<PendingWriteBurst>)
    requires
        ready.len() > 0,
    ensures
        ready_words(ready) == ready_words(ready.drop_first()) + ready[0].words@.len(),
    decreases ready.len(),
{
    reveal_with_fuel(ready_words, 2);
    if ready.len() == 1 {
        assert(ready.drop_first().len() == 0);
        assert(ready.drop_last().len() == 0);
        assert(ready.last() == ready[0]);
    } else {
        lemma_ready_words_front(ready.drop_last());
        assert(ready.drop_last().drop_first() =~= ready.drop_first().drop_last());
        assert(ready.drop_first().last() == ready.last());
        assert(ready.drop_last()[0] == ready[0]);
    }
}

proof fn lemma_push_back(issued: Seq<IssuedDmaRequest>, request: IssuedDmaRequest)
    ensures
        read_bursts(issued.push(request)) == read_bursts(issued) + if request is ReadBurst {
            1nat
        } else {
            0nat
        },
        issued_words(issued.push(request)) == issued_words(issued) + beats_of(request),
{
    assert(issued.push(request).drop_last() =~= issued);
}

proof fn lemma_ready_push_back(ready: Seq<PendingWriteBurst>, burst: PendingWriteBurst)
    ensures
        ready_words(ready.push(burst)) == ready_words(ready) + burst.words@.len(),
{
    assert(ready.push(burst).drop_last() =~= ready);
}

/// A transfer in progress and the length it was started with.
pub struct TransferView {
    pub total_words: u32,
    pub next_source: Address,
    pub next_destination: Address,
    pub remaining_words: u32,
    pub ready: Seq<PendingWriteBurst>,
    pub issued: Seq<IssuedDmaRequest>,
}

/// What a transfer asks of the bus next.
pub enum DmaStep {
    /// Write the oldest buffered burst.
    WriteFront,
    /// Read the next burst of the source.
    ReadNext,
    /// Nothing to ask.
    Idle,
}

impl TransferView {
    /// Read bursts issued or buffered.
    pub open spec fn buffered(self) -> nat {
        self.ready.len() + read_bursts(self.issued)
    }

    /// Every word of the transfer is either written (`transferred`), still
    /// to read, buffered, or in an issued burst; at most four read bursts
    /// are ahead; the cursors stay below 5 * 2^32.
    pub open spec fn wf(self, transferred: u32) -> bool {
        &&& transferred + self.remaining_words + ready_words(self.ready) + issued_words(self.issued) == self.total_words
        &&& self.buffered() <= DmaController::MAX_OUTSTANDING_REQUESTS
        &&& self.next_source + 4 * self.remaining_words <= 0x5_0000_0000
        &&& self.next_destination + 4 * self.remaining_words <= 0x5_0000_0000
    }

    /// Writes go first once nothing is left to read or read-ahead is full;
    /// otherwise the next read; otherwise any buffered write.
    pub open spec fn next_step(self) -> DmaStep {
        if self.ready.len() > 0 && (self.remaining_words == 0 || self.buffered()
            >= DmaController::MAX_OUTSTANDING_REQUESTS) {
            DmaStep::WriteFront
        } else if self.remaining_words > 0 && self.buffered() < DmaController::MAX_OUTSTANDING_REQUESTS {
            DmaStep::ReadNext
        } else if self.ready.len() > 0 {
            DmaStep::WriteFront
        } else {
            DmaStep::Idle
        }
    }

    /// The size of the next read burst.
    pub open spec fn next_beats(self) -> u32 {
        if self.remaining_words < DmaController::MAX_BURST_WORDS {
            self.remaining_words
        } else {
            DmaController::MAX_BURST_WORDS as u32
        }
    }

    /// The transfer after issuing the oldest buffered burst as a write.
    pub open spec fn after_write_issued(self) -> TransferView {
        TransferView {
            ready: self.ready.drop_first(),
            issued: self.issued.push(IssuedDmaRequest::WriteBurst { beats: self.ready[0].words@.len() as usize }),
            ..self
        }
    }

    /// The transfer after issuing the next read burst.
    pub open spec fn after_read_issued(self) -> TransferView {
        let beats = self.next_beats();
        TransferView {
            next_source: (self.next_source + 4 * beats) as Address,
            next_destination: (self.next_destination + 4 * beats) as Address,
            remaining_words: (self.remaining_words - beats) as u32,
            issued: self.issued.push(IssuedDmaRequest::ReadBurst { destination: self.next_destination, beats: beats as usize }),
            ..self
        }
    }

    /// Nothing left to read, buffer or await.
    pub open spec fn complete(self) -> bool {
        self.remaining_words == 0 && self.ready.len() == 0 && self.issued.len() == 0
    }
}

/// The registers of a DMA engine and its transfer in progress.
pub struct DmaView {
    pub range: AddressRange,
    pub source: u32,
    pub destination: u32,
    pub length_words: u32,
    pub transferred_words: u32,
    pub irq_enabled: bool,
    pub done: bool,
    pub error: bool,
    pub active: Option<TransferView>,
}

impl DmaView {
    /// Twenty bytes of registers, and a transfer in progress accounts for
    /// every word it was started with and has neither flag set.
    pub open spec fn wf(self) -> bool {
        &&& self.range.size == 20
        &&& (self.active matches Some(t) ==> t.wf(self.transferred_words) && !self.done && !self.error)
    }

    /// The control register: busy, done, interrupt enable and error bits.
    pub open spec fn control_word(self) -> u32 {
        ((if self.active is Some { DmaController::STATUS_BUSY } else { 0 }) + (if self.done {
            DmaController::STATUS_DONE
        } else {
            0
        }) + (if self.irq_enabled { DmaController::CONTROL_IRQ_ENABLE } else { 0 }) + (if self.error {
            DmaController::STATUS_ERROR
        } else {
            0
        })) as u32
    }

    /// The register word at a word-aligned `offset`.
    pub open spec fn register_word(self, offset: Address) -> Result<u32, BusError> {
        if offset == DmaController::SOURCE_OFFSET {
            Ok(self.source)
        } else if offset == DmaController::DESTINATION_OFFSET {
            Ok(self.destination)
        } else if offset == DmaController::LENGTH_OFFSET {
            Ok(self.length_words)
        } else if offset == DmaController::CONTROL_OFFSET {
            Ok(self.control_word())
        } else if offset == DmaController::TRANSFERRED_OFFSET {
            Ok(self.transferred_words)
        } else {
            Err(BusError::UnmappedAddress { addr: (self.range.start + offset) as Address })
        }
    }

    /// Starting a transfer: ignored while one runs; otherwise both flags and
    /// the count clear, and a zero length is an error.
    pub open spec fn started(self) -> DmaView {
        if self.active is Some {
            self
        } else if self.length_words == 0 {
            DmaView { done: false, error: true, transferred_words: 0, ..self }
        } else {
            DmaView {
                done: false,
                error: false,
                transferred_words: 0,
                active: Some(
                    TransferView {
                        total_words: self.length_words,
                        next_source: self.source as Address,
                        next_destination: self.destination as Address,
                        remaining_words: self.length_words,
                        ready: Seq::empty(),
                        issued: Seq::empty(),
                    },
                ),
                ..self
            }
        }
    }

    /// Writing the low control byte: bit 3 sets the interrupt enable, bits 2
    /// and 4 clear the done and error flags, bit 0 starts a transfer.
    pub open spec fn after_control(self, value: u8) -> DmaView {
        let acknowledged = DmaView {
            irq_enabled: value & DmaController::CONTROL_IRQ_ENABLE as u8 != 0,
            done: if value & DmaController::STATUS_DONE as u8 != 0 {
                false
            } else {
                self.done
            },
            error: if value & DmaController::STATUS_ERROR as u8 != 0 {
                false
            } else {
                self.error
            },
            ..self
        };
        if value & DmaController::CONTROL_START as u8 != 0 {
            acknowledged.started()
        } else {
            acknowledged
        }
    }

    /// The machine external line, while enabled and a transfer has finished or failed.
    pub open spec fn interrupts(self) -> InterruptSet {
        if self.irq_enabled && (self.done || self.error) {
            InterruptSet::of_line(InterruptLine::MachineExternal)
        } else {
            InterruptSet::nothing()
        }
    }
}

/// A transfer in progress.
#[derive(Debug, Clone)]
pub struct ActiveTransfer {
    total_words: u32,
    next_source: Address,
    next_destination: Address,
    remaining_words: u32,
    ready_writes: VecDeque<PendingWriteBurst>,
    issued_requests: VecDeque<IssuedDmaRequest>,
}

impl View for ActiveTransfer {
    type V = TransferView;

    closed spec fn view(&self) -> TransferView {
        TransferView {
            total_words: self.total_words,
            next_source: self.next_source,
            next_destination: self.next_destination,
            remaining_words: self.remaining_words,
            ready: self.ready_writes@,
            issued: self.issued_requests@,
        }
    }
}

impl ActiveTransfer {
    /// Read bursts issued or buffered, saturating.
    fn buffered_read_bursts(&self) -> (n: usize)
        ensures
            n == if self@.buffered() > usize::MAX {
                usize::MAX as nat
            } else {
                self@.buffered()
            },
    {
        let mut count: usize = 0;
        let mut i: usize = 0;
        while i < self.issued_requests.len()
            invariant
                i <= self.issued_requests@.len(),
                count == read_bursts(self.issued_requests@.subrange(0, i as int)),
            decreases self.issued_requests@.len() - i,
        {
            proof {
                let s = self.issued_requests@;
                assert(s.subrange(0, i + 1).drop_last() =~= s.subrange(0, i as int));
            }
            if matches!(self.issued_requests[i], IssuedDmaRequest::ReadBurst { .. }) {
                proof {
                    lemma_read_bursts_bound(self.issued_requests@.subrange(0, i + 1));
                }
                count = count + 1;
            }
            i = i + 1;
        }
        assert(self.issued_requests@.subrange(0, i as int) =~= self.issued_requests@);
        self.ready_writes.len().saturating_add(count)
    }

    fn is_complete(&self) -> (b: bool)
        ensures
            b == self@.complete(),
    {
        self.remaining_words == 0 && self.ready_writes.len() == 0 && self.issued_requests.len() == 0
    }
}

proof fn lemma_read_bursts_bound(issued: Seq<IssuedDmaRequest>)
    ensures
        read_bursts(issued) <= issued.len(),
    decreases issued.len(),
{
    if issued.len() > 0 {
        lemma_read_bursts_bound(issued.drop_last());
    }
}

/// A simple memory-to-memory DMA engine with bounded read-ahead bursts.
#[derive(Debug, Clone)]
pub struct DmaController {
    range: AddressRange,
    source: u32,
    destination: u32,
    length_words: u32,
    transferred_words: u32,
    irq_enabled: bool,
    done: bool,
    error: bool,
    active: Option<ActiveTransfer>,
}

impl View for DmaController {
    type V = DmaView;

    closed spec fn view(&self) -> DmaView {
        DmaView {
            range: self.range,
            source: self.source,
            destination: self.destination,
            length_words: self.length_words,
            transferred_words: self.transferred_words,
            irq_enabled: self.irq_enabled,
            done: self.done,
            error: self.error,
            active: match self.active {
                Some(t) => Some(t@),
                None => None,
            },
        }
    }
}

impl DmaController {
    pub const MAX_BURST_WORDS: u32 = 8;
    pub const MAX_OUTSTANDING_REQUESTS: usize = 4;

    pub const SOURCE_OFFSET: Address = 0;
    pub const DESTINATION_OFFSET: Address = 4;
    pub const LENGTH_OFFSET: Address = 8;
    pub const CONTROL_OFFSET: Address = 12;
    pub const TRANSFERRED_OFFSET: Address = 16;

    pub const CONTROL_START: u32 = 0x01;
    pub const STATUS_BUSY: u32 = 0x02;
    pub const STATUS_DONE: u32 = 0x04;
    pub const CONTROL_IRQ_ENABLE: u32 = 0x08;
    pub const STATUS_ERROR: u32 = 0x10;

    /// An idle engine with its registers at `base`.
    pub fn new(base: Address) -> (d: Self)
        ensures
            d@.wf(),
            d@ == (DmaView {
                range: AddressRange { start: base, size: 20 },
                source: 0,
                destination: 0,
                length_words: 0,
                transferred_words: 0,
                irq_enabled: false,
                done: false,
                error: false,
                active: None,
            }),
    {
        DmaController {
            range: AddressRange::new(base, 20),
            source: 0,
            destination: 0,
            length_words: 0,
            transferred_words: 0,
            irq_enabled: false,
            done: false,
            error: false,
            active: None,
        }
    }

    pub fn is_busy(&self) -> (b: bool)
        ensures
            b == self@.active is Some,
    {
        self.active.is_some()
    }

    pub fn is_done(&self) -> (b: bool)
        ensures
            b == self@.done,
    {
        self.done
    }

    pub fn has_error(&self) -> (b: bool)
        ensures
            b == self@.error,
    {
        self.error
    }

    fn offset(&self, addr: Address) -> (r: Result<Address, BusError>)
        ensures
            self@.range.spec_contains(addr) ==> r == Ok::<Address, BusError>((addr - self@.range.start) as Address),
            !self@.range.spec_contains(addr) ==> r == Err::<Address, BusError>(BusError::UnmappedAddress { addr }),
    {
        if !self.range.contains(addr) {
            return Err(BusError::UnmappedAddress { addr });
        }
        Ok(addr - self.range.start)
    }

    fn control_word(&self) -> (w: u32)
        ensures
            w == self@.control_word(),
    {
        let mut value: u32 = 0;
        if self.is_busy() {
            value = value + DmaController::STATUS_BUSY;
        }
        if self.done {
            value = value + DmaController::STATUS_DONE;
        }
        if self.irq_enabled {
            value = value + DmaController::CONTROL_IRQ_ENABLE;
        }
        if self.error {
            value = value + DmaController::STATUS_ERROR;
        }
        value
    }

    fn read_register_word(&self, offset: Address) -> (r: Result<u32, BusError>)
        requires
            self@.range.start + offset <= u64::MAX,
        ensures
            r == self@.register_word(offset),
    {
        if offset == DmaController::SOURCE_OFFSET {
            Ok(self.source)
        } else if offset == DmaController::DESTINATION_OFFSET {
            Ok(self.destination)
        } else if offset == DmaController::LENGTH_OFFSET {
            Ok(self.length_words)
        } else if offset == DmaController::CONTROL_OFFSET {
            Ok(self.control_word())
        } else if offset == DmaController::TRANSFERRED_OFFSET {
            Ok(self.transferred_words)
        } else {
            Err(BusError::UnmappedAddress { addr: self.range.start + offset })
        }
    }

    fn start_transfer(&mut self)
        ensures
            final(self)@ == old(self)@.started(),
            old(self)@.wf() ==> final(self)@.wf(),
    {
        if self.is_busy() {
            return;
        }
        self.done = false;
        self.error = false;
        self.transferred_words = 0;
        if self.length_words == 0 {
            self.error = true;
            return;
        }
        self.active = Some(
            ActiveTransfer {
                total_words: self.length_words,
                next_source: self.source as u64,
                next_destination: self.destination as u64,
                remaining_words: self.length_words,
                ready_writes: VecDeque::new(),
                issued_requests: VecDeque::new(),
            },
        );
        proof {
            let t = self@.active->0;
            assert(t.ready =~= Seq::<PendingWriteBurst>::empty());
            assert(t.issued =~= Seq::<IssuedDmaRequest>::empty());
        }
    }

    fn burst_words(remaining_words: u32) -> (n: u32)
        ensures
            n == (if remaining_words < DmaController::MAX_BURST_WORDS {
                remaining_words
            } else {
                DmaController::MAX_BURST_WORDS
            }),
    {
        if remaining_words < DmaController::MAX_BURST_WORDS {
            remaining_words
        } else {
            DmaController::MAX_BURST_WORDS
        }
    }

    fn apply_control_byte(&mut self, value: u8)
        ensures
            final(self)@ == old(self)@.after_control(value),
            old(self)@.wf() ==> final(self)@.wf(),
    {
        self.irq_enabled = value & (DmaController::CONTROL_IRQ_ENABLE as u8) != 0;
        if value & (DmaController::STATUS_DONE as u8) != 0 {
            self.done = false;
        }
        if value & (DmaController::STATUS_ERROR as u8) != 0 {
            self.error = false;
        }
        if value & (DmaController::CONTROL_START as u8) != 0 {
            self.start_transfer();
        }
    }
}

impl Addressable for DmaController {
    fn name(&self) -> &'static str {
        "dma-controller"
    }

    fn address_range(&self) -> (r: AddressRange)
        ensures
            r == self@.range,
    {
        self.range
    }

    /// Clear the registers and drop any transfer in progress.
    fn reset(&mut self)
        ensures
            final(self)@ == (DmaView {
                source: 0,
                destination: 0,
                length_words: 0,
                transferred_words: 0,
                irq_enabled: false,
                done: false,
                error: false,
                active: None,
                ..old(self)@
            }),
    {
        self.source = 0;
        self.destination = 0;
        self.length_words = 0;
        self.transferred_words = 0;
        self.irq_enabled = false;
        self.done = false;
        self.error = false;
        self.active = None;
    }

    fn pending_interrupts(&self) -> (s: InterruptSet)
        ensures
            s == self@.interrupts(),
    {
        if self.irq_enabled && (self.done || self.error) {
            InterruptSet::from_line(InterruptLine::MachineExternal)
        } else {
            InterruptSet::empty()
        }
    }

    /// Byte `offset % 4` of the register word at `offset - offset % 4`.
    fn load8(&mut self, addr: Address) -> (r: Result<u8, BusError>)
        ensures
            final(self)@ == old(self)@,
            !old(self)@.range.spec_contains(addr) ==> r == Err::<u8, BusError>(BusError::UnmappedAddress { addr }),
            old(self)@.range.spec_contains(addr) ==> {
                let offset = addr - old(self)@.range.start;
                r == match old(self)@.register_word((offset - offset % 4) as Address) {
                    Ok(word) => Ok::<u8, BusError>(word_byte(word, offset % 4)),
                    Err(error) => Err(error),
                }
            },
    {
        let offset = self.offset(addr)?;
        let byte_index = offset % 4;
        let word = self.read_register_word(offset - byte_index)?;
        Ok(byte_of_word(word, byte_index))
    }

    /// Source, destination and length take any byte; only the low control
    /// byte acts; the transferred count is read-only.
    fn store8(&mut self, addr: Address, value: u8) -> (r: Result<(), BusError>)
        ensures
            old(self)@.wf() ==> final(self)@.wf(),
            !old(self)@.range.spec_contains(addr) ==> r == Err::<(), BusError>(BusError::UnmappedAddress { addr })
                && final(self)@ == old(self)@,
            old(self)@.range.spec_contains(addr) ==> {
                let offset = addr - old(self)@.range.start;
                let word_offset = offset - offset % 4;
                let byte = offset % 4;
                &&& word_offset == DmaController::SOURCE_OFFSET ==> r is Ok && final(self)@ == (DmaView {
                    source: word_with_byte(old(self)@.source, byte, value),
                    ..old(self)@
                })
                &&& word_offset == DmaController::DESTINATION_OFFSET ==> r is Ok && final(self)@ == (DmaView {
                    destination: word_with_byte(old(self)@.destination, byte, value),
                    ..old(self)@
                })
                &&& word_offset == DmaController::LENGTH_OFFSET ==> r is Ok && final(self)@ == (DmaView {
                    length_words: word_with_byte(old(self)@.length_words, byte, value),
                    ..old(self)@
                })
                &&& word_offset == DmaController::CONTROL_OFFSET ==> r is Ok && final(self)@ == if byte == 0 {
                    old(self)@.after_control(value)
                } else {
                    old(self)@
                }
                &&& word_offset == DmaController::TRANSFERRED_OFFSET ==> r == Err::<(), BusError>(
                    BusError::ReadOnlyAddress { addr },
                ) && final(self)@ == old(self)@
                &&& word_offset > DmaController::TRANSFERRED_OFFSET ==> r == Err::<(), BusError>(
                    BusError::UnmappedAddress { addr },
                ) && final(self)@ == old(self)@
            },
    {
        let offset = self.offset(addr)?;
        let byte_index = offset % 4;
        let word_offset = offset - byte_index;
        if word_offset == DmaController::SOURCE_OFFSET {
            self.source = replace_byte(self.source, byte_index, value);
        } else if word_offset == DmaController::DESTINATION_OFFSET {
            self.destination = replace_byte(self.destination, byte_index, value);
        } else if word_offset == DmaController::LENGTH_OFFSET {
            self.length_words = replace_byte(self.length_words, byte_index, value);
        } else if word_offset == DmaController::CONTROL_OFFSET {
            if byte_index == 0 {
                self.apply_control_byte(value);
            }
        } else if word_offset == DmaController::TRANSFERRED_OFFSET {
            return Err(BusError::ReadOnlyAddress { addr });
        } else {
            return Err(BusError::UnmappedAddress { addr });
        }
        Ok(())
    }
}

impl DmaView {
    /// The engine after it answers a request for the bus.
    pub open spec fn after_request(self) -> DmaView {
        match self.active {
            None => self,
            Some(t) => match t.next_step() {
                DmaStep::WriteFront => DmaView { active: Some(t.after_write_issued()), ..self },
                DmaStep::ReadNext => DmaView { active: Some(t.after_read_issued()), ..self },
                DmaStep::Idle => self,
            },
        }
    }

    /// The engine with the transfer `t` continued, or finished once complete.
    pub open spec fn continued(self, t: TransferView) -> DmaView {
        if t.complete() {
            DmaView { done: true, active: None, ..self }
        } else {
            DmaView { active: Some(t), ..self }
        }
    }

    /// The engine with its transfer aborted on an error.
    pub open spec fn aborted(self) -> DmaView {
        DmaView { error: true, active: None, ..self }
    }
}

/// The issued request `issued` accepts `response`: a read burst takes
/// exactly its beats of words, a write burst its beat count.
pub open spec fn response_matches(issued: IssuedDmaRequest, response: Result<BusMasterResponse, BusError>) -> bool {
    match issued {
        IssuedDmaRequest::ReadBurst { beats, .. } => response matches Ok(BusMasterResponse::ReadWords(words))
            && words@.len() == beats,
        IssuedDmaRequest::WriteBurst { beats } => response matches Ok(
            BusMasterResponse::WriteWordsComplete { beats: completed },
        ) && completed == beats,
    }
}

impl BusMaster for DmaController {
    fn name(&self) -> &'static str {
        "dma-controller"
    }

    /// Writes go first once nothing is left to read or read-ahead is full;
    /// otherwise the next read burst of up to eight words; otherwise any
    /// buffered write.
    fn request(&mut self) -> (r: Option<BusMasterRequest>)
        ensures
            old(self)@.wf() ==> {
                &&& final(self)@ == old(self)@.after_request()
                &&& final(self)@.wf()
                &&& match old(self)@.active {
                    None => r is None,
                    Some(t) => match t.next_step() {
                        DmaStep::WriteFront => r matches Some(BusMasterRequest::WriteWords { base_addr, words })
                            && base_addr == t.ready[0].destination && words@ == t.ready[0].words@,
                        DmaStep::ReadNext => r == Some(
                            BusMasterRequest::ReadWords { base_addr: t.next_source, beats: t.next_beats() as usize },
                        ),
                        DmaStep::Idle => r is None,
                    },
                }
            },
    {
        let mut active = match self.active.take() {
            None => {
                return None;
            },
            Some(active) => active,
        };
        let ghost t = active@;
        proof {
            if t.ready.len() > 0 {
                lemma_ready_words_front(t.ready);
                lemma_push_back(t.issued, IssuedDmaRequest::WriteBurst { beats: t.ready[0].words@.len() as usize });
            }
            lemma_push_back(
                t.issued,
                IssuedDmaRequest::ReadBurst { destination: t.next_destination, beats: t.next_beats() as usize },
            );
        }
        let buffered = active.buffered_read_bursts();
        let has_write = active.ready_writes.len() > 0;
        let result = if has_write && (active.remaining_words == 0 || buffered >= DmaController::MAX_OUTSTANDING_REQUESTS) {
            issue_write(&mut active)
        } else if active.remaining_words > 0 && buffered < DmaController::MAX_OUTSTANDING_REQUESTS {
            Some(issue_read(&mut active))
        } else if has_write {
            issue_write(&mut active)
        } else {
            None
        };
        self.active = Some(active);
        result
    }

    /// Match the response with the oldest issued burst: a read's words
    /// become a buffered write, a write's beats count as transferred; a
    /// mismatch or a bus error aborts the transfer with the error flag, and
    /// the last expected response finishes it with the done flag.
    fn on_response(&mut self, response: Result<BusMasterResponse, BusError>)
        ensures
            old(self)@.wf() ==> final(self)@.wf(),
            old(self)@.wf() && final(self)@.done ==> old(self)@.done || (old(self)@.active matches Some(t)
                && final(self)@.transferred_words == t.total_words),
            old(self)@.wf() ==> match old(self)@.active {
                None => final(self)@ == old(self)@,
                Some(t) => if t.issued.len() == 0 || !response_matches(t.issued[0], response) {
                    final(self)@ == old(self)@.aborted()
                } else {
                    match t.issued[0] {
                        IssuedDmaRequest::ReadBurst { destination, .. } => response matches Ok(
                            BusMasterResponse::ReadWords(words),
                        ) && final(self)@ == old(self)@.continued(
                            TransferView {
                                ready: t.ready.push(PendingWriteBurst { destination, words }),
                                issued: t.issued.drop_first(),
                                ..t
                            },
                        ),
                        IssuedDmaRequest::WriteBurst { beats } => final(self)@ == (DmaView {
                            transferred_words: (old(self)@.transferred_words + beats) as u32,
                            ..old(self)@
                        }).continued(TransferView { issued: t.issued.drop_first(), ..t }),
                    }
                },
            },
    {
        let mut active = match self.active.take() {
            None => {
                return ;
            },
            Some(active) => active,
        };
        let ghost t = active@;
        let issued = match active.issued_requests.pop_front() {
            None => {
                self.error = true;
                return ;
            },
            Some(issued) => issued,
        };
        proof {
            lemma_issued_words_front(t.issued);
            lemma_read_bursts_front(t.issued);
        }
        let accepted = match issued {
            IssuedDmaRequest::ReadBurst { destination, beats } => match response {
                Ok(BusMasterResponse::ReadWords(words)) => {
                    if words.len() == beats {
                        proof {
                            lemma_ready_push_back(t.ready, PendingWriteBurst { destination, words });
                        }
                        active.ready_writes.push_back(PendingWriteBurst { destination, words });
                        true
                    } else {
                        false
                    }
                },
                _ => false,
            },
            IssuedDmaRequest::WriteBurst { beats } => match response {
                Ok(BusMasterResponse::WriteWordsComplete { beats: completed }) => {
                    if completed == beats {
                        self.transferred_words = self.transferred_words.wrapping_add(#[verifier::truncate] (beats as u32));
                        true
                    } else {
                        false
                    }
                },
                _ => false,
            },
        };
        if !accepted {
            self.error = true;
            return ;
        }
        if active.is_complete() {
            self.done = true;
            return ;
        }
        self.active = Some(active);
    }
}

/// Hand out the oldest buffered burst as a write.
fn issue_write(active: &mut ActiveTransfer) -> (r: Option<BusMasterRequest>)
    requires
        old(active)@.ready.len() > 0,
    ensures
        final(active)@ == old(active)@.after_write_issued(),
        r matches Some(BusMasterRequest::WriteWords { base_addr, words }) && base_addr == old(active)@.ready[0].destination
            && words@ == old(active)@.ready[0].words@,
{
    match active.ready_writes.pop_front() {
        Some(write) => {
            let beats = write.words.len();
            active.issued_requests.push_back(IssuedDmaRequest::WriteBurst { beats });
            Some(BusMasterRequest::WriteWords { base_addr: write.destination, words: write.words })
        },
        None => None,
    }
}

/// Hand out the next read burst of the source.
fn issue_read(active: &mut ActiveTransfer) -> (r: BusMasterRequest)
    requires
        old(active)@.remaining_words > 0,
    ensures
        old(active)@.next_source + 4 * old(active)@.remaining_words <= 0x5_0000_0000
            && old(active)@.next_destination + 4 * old(active)@.remaining_words <= 0x5_0000_0000
            ==> final(active)@ == old(active)@.after_read_issued(),
        r == (BusMasterRequest::ReadWords { base_addr: old(active)@.next_source, beats: old(active)@.next_beats() as usize }),
{
    let beats = DmaController::burst_words(active.remaining_words);
    let source = active.next_source;
    let destination = active.next_destination;
    active.next_source = active.next_source.wrapping_add(beats as u64 * 4);
    active.next_destination = active.next_destination.wrapping_add(beats as u64 * 4);
    active.remaining_words = active.remaining_words - beats;
    active.issued_requests.push_back(IssuedDmaRequest::ReadBurst { destination, beats: beats as usize });
    BusMasterRequest::ReadWords { base_addr: source, beats: beats as usize }
}

/// A transfer with nothing left to read, buffer or await has written every
/// word it was started with.
pub proof fn completed_transfer_moved_every_word(t: TransferView, transferred: u32)
    requires
        t.wf(transferred),
        t.complete(),
    ensures
        transferred == t.total_words,
{
}

} // verus!
