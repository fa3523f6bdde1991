//! A RAM-backed block device with a one-block staging window.

use vstd::prelude::*;
use crate::bus::{Address, AddressRange, Addressable, BusError, InterruptLine, InterruptSet};
use crate::bytes::{byte_of_word, replace_byte, word_byte, word_with_byte};

verus! {

/// The two block commands.
#[derive(Debug, Clone, Copy, PartialEq, Eq, Structural)]
pub enum BlockCommand {
    ReadBlock,
    WriteBlock,
}

/// A command in flight and the ticks left until it completes.
#[derive(Debug, Clone, Copy, PartialEq, Eq, Structural)]
pub struct ActiveCommand {
    pub kind: BlockCommand,
    pub remaining_cycles: u32,
}

/// The registers and contents of a block device.
pub struct BlockDeviceView {
    pub range: AddressRange,
    pub block_count: u32,
    pub block_bytes: usize,
    pub operation_latency: u32,
    pub selected_block: u32,
    pub irq_enabled: bool,
    pub done: bool,
    pub error: bool,
    pub staging: Seq<u8>,
    pub storage: Seq<u8>,
    pub active: Option<ActiveCommand>,
}

impl BlockDeviceView {
    /// At least one block of a non-zero multiple of four bytes; the staging
    /// window holds one block and the store all of them; the register file
    /// and the window fill the mapped range; a command in flight has ticks left.
    pub open spec fn wf(self) -> bool {
        &&& self.block_count > 0
        &&& self.block_bytes > 0
        &&& self.block_bytes % 4 == 0
        &&& self.staging.len() == self.block_bytes
        &&& self.storage.len() == self.block_count * self.block_bytes
        &&& self.range.size == BlockDevice::DATA_WINDOW_OFFSET + self.block_bytes
        &&& (self.active matches Some(a) ==> a.remaining_cycles >= 1)
    }

    /// Where block `index` starts in the store.
    pub open spec fn block_start(self, index: u32) -> int {
        index * self.block_bytes
    }

    /// The bytes of block `index`.
    pub open spec fn block(self, index: u32) -> Seq<u8> {
        self.storage.subrange(self.block_start(index), self.block_start(index) + self.block_bytes)
    }

    /// The store with block `index` replaced by `bytes`.
    pub open spec fn storage_with_block(self, index: u32, bytes: Seq<u8>) -> Seq<u8> {
        self.storage.subrange(0, self.block_start(index)) + bytes + self.storage.subrange(
            self.block_start(index) + self.block_bytes,
            self.storage.len() as int,
        )
    }

    /// Completing `kind` on the selected block: a read fills the staging
    /// window from the block, a write copies the window into the block; an
    /// out-of-range block latches the error flag instead.
    pub open spec fn finished(self, kind: BlockCommand) -> BlockDeviceView {
        if self.selected_block >= self.block_count {
            BlockDeviceView { error: true, done: false, ..self }
        } else {
            match kind {
                BlockCommand::ReadBlock => BlockDeviceView {
                    staging: self.block(self.selected_block),
                    done: true,
                    ..self
                },
                BlockCommand::WriteBlock => BlockDeviceView {
                    storage: self.storage_with_block(self.selected_block, self.staging),
                    done: true,
                    ..self
                },
            }
        }
    }

    /// Starting `kind`: both flags clear; a command already in flight makes
    /// this one an error, a zero latency completes it at once, and otherwise
    /// it waits `operation_latency` ticks.
    pub open spec fn started(self, kind: BlockCommand) -> BlockDeviceView {
        let cleared = BlockDeviceView { done: false, error: false, ..self };
        if self.active is Some {
            BlockDeviceView { error: true, ..cleared }
        } else if self.operation_latency == 0 {
            cleared.finished(kind)
        } else {
            BlockDeviceView {
                active: Some(ActiveCommand { kind, remaining_cycles: self.operation_latency }),
                ..cleared
            }
        }
    }

    /// Writing the low control byte: bit 4 sets the interrupt enable, bits 3
    /// and 5 clear the done and error flags, bit 0 starts a read and bit 1 a
    /// write; both start bits together are an error.
    pub open spec fn after_control(self, value: u8) -> BlockDeviceView {
        let acknowledged = BlockDeviceView {
            irq_enabled: value & BlockDevice::CONTROL_IRQ_ENABLE as u8 != 0,
            done: if value & BlockDevice::STATUS_DONE as u8 != 0 {
                false
            } else {
                self.done
            },
            error: if value & BlockDevice::STATUS_ERROR as u8 != 0 {
                false
            } else {
                self.error
            },
            ..self
        };
        let read = value & BlockDevice::CONTROL_START_READ as u8 != 0;
        let write = value & BlockDevice::CONTROL_START_WRITE as u8 != 0;
        if read && !write {
            acknowledged.started(BlockCommand::ReadBlock)
        } else if write && !read {
            acknowledged.started(BlockCommand::WriteBlock)
        } else if read && write {
            BlockDeviceView { done: false, error: true, ..acknowledged }
        } else {
            acknowledged
        }
    }

    /// One clock tick: the command in flight counts down and completes when
    /// its last tick passes.
    pub open spec fn ticked(self) -> BlockDeviceView {
        match self.active {
            None => self,
            Some(a) => if a.remaining_cycles > 1 {
                BlockDeviceView {
                    active: Some(ActiveCommand { kind: a.kind, remaining_cycles: (a.remaining_cycles - 1) as u32 }),
                    ..self
                }
            } else {
                BlockDeviceView { active: None, ..self }.finished(a.kind)
            },
        }
    }

    /// The control register: busy, done, interrupt enable and error bits.
    pub open spec fn control_word(self) -> u32 {
        ((if self.active is Some { BlockDevice::STATUS_BUSY } else { 0 }) + (if self.done {
            BlockDevice::STATUS_DONE
        } else {
            0
        }) + (if self.irq_enabled { BlockDevice::CONTROL_IRQ_ENABLE } else { 0 }) + (if self.error {
            BlockDevice::STATUS_ERROR
        } else {
            0
        })) as u32
    }

    /// The byte a load at `offset` into the range returns.
    pub open spec fn register_byte(self, offset: Address) -> Result<u8, BusError> {
        if offset < 4 {
            Ok(word_byte(self.selected_block, offset as int))
        } else if offset < 8 {
            Ok(word_byte(self.control_word(), offset - 4))
        } else if offset < 12 {
            Ok(word_byte(self.block_count, offset - 8))
        } else if offset < 16 {
            Ok(word_byte(#[verifier::truncate] (self.block_bytes as u32), offset - 12))
        } else if offset - 16 < self.staging.len() {
            Ok(self.staging[offset - 16])
        } else {
            Err(BusError::UnmappedAddress { addr: (self.range.start + offset) as Address })
        }
    }

    /// The machine external line, while enabled and a command has finished or failed.
    pub open spec fn interrupts(self) -> InterruptSet {
        if self.irq_enabled && (self.done || self.error) {
            InterruptSet::of_line(InterruptLine::MachineExternal)
        } else {
            InterruptSet::nothing()
        }
    }
}

/// A simple RAM-backed MMIO block device with a one-block staging window.
///
/// Software selects a block index, reads or writes the staging window, and
/// then starts either a block read or a block write through the control
/// register. Commands complete after a fixed number of ticks and may raise a
/// machine external interrupt if enabled.
#[derive(Debug)]
pub struct BlockDevice {
    range: AddressRange,
    block_count: u32,
    block_bytes: usize,
    operation_latency: u32,
    selected_block: u32,
    irq_enabled: bool,
    done: bool,
    error: bool,
    staging: Vec<u8>,
    storage: Vec<u8>,
    active: Option<ActiveCommand>,
}

impl Clone for BlockDevice {
    fn clone(&self) -> (d: Self)
        ensures
            d@ == self@,
    {
        proof {
            use_type_invariant(self);
        }
        BlockDevice {
            range: self.range,
            block_count: self.block_count,
            block_bytes: self.block_bytes,
            operation_latency: self.operation_latency,
            selected_block: self.selected_block,
            irq_enabled: self.irq_enabled,
            done: self.done,
            error: self.error,
            staging: vstd::slice::slice_to_vec(self.staging.as_slice()),
            storage: vstd::slice::slice_to_vec(self.storage.as_slice()),
            active: self.active,
        }
    }
}

impl View for BlockDevice {
    type V = BlockDeviceView;

    closed spec fn view(&self) -> BlockDeviceView {
        BlockDeviceView {
            range: self.range,
            block_count: self.block_count,
            block_bytes: self.block_bytes,
            operation_latency: self.operation_latency,
            selected_block: self.selected_block,
            irq_enabled: self.irq_enabled,
            done: self.done,
            error: self.error,
            staging: self.staging@,
            storage: self.storage@,
            active: self.active,
        }
    }
}

impl BlockDevice {
    pub const BLOCK_INDEX_OFFSET: Address = 0;
    pub const CONTROL_OFFSET: Address = 4;
    pub const BLOCK_COUNT_OFFSET: Address = 8;
    pub const BLOCK_BYTES_OFFSET: Address = 12;
    pub const DATA_WINDOW_OFFSET: Address = 16;

    pub const CONTROL_START_READ: u32 = 0x01;
    pub const CONTROL_START_WRITE: u32 = 0x02;
    pub const STATUS_BUSY: u32 = 0x04;
    pub const STATUS_DONE: u32 = 0x08;
    pub const CONTROL_IRQ_ENABLE: u32 = 0x10;
    pub const STATUS_ERROR: u32 = 0x20;

    #[verifier::type_invariant]
    closed spec fn inv(self) -> bool {
        self@.wf()
    }

    /// `block_count` zeroed blocks of `block_bytes` bytes behind a register
    /// file at `base`, with commands taking `operation_latency` ticks.
    pub fn new(base: Address, block_count: u32, block_bytes: usize, operation_latency: u32) -> (d: Self)
        requires
            block_count > 0,
            block_bytes > 0,
            block_bytes % 4 == 0,
            block_count * block_bytes <= usize::MAX,
            block_bytes <= u64::MAX - BlockDevice::DATA_WINDOW_OFFSET,
        ensures
            d@.wf(),
            d@.range == (AddressRange { start: base, size: (BlockDevice::DATA_WINDOW_OFFSET + block_bytes) as u64 }),
            d@.block_count == block_count,
            d@.block_bytes == block_bytes,
            d@.operation_latency == operation_latency,
            d@.selected_block == 0,
            !d@.irq_enabled && !d@.done && !d@.error,
            d@.staging == Seq::new(block_bytes as nat, |i: int| 0u8),
            d@.storage == Seq::new((block_count * block_bytes) as nat, |i: int| 0u8),
            d@.active is None,
    {
        let total_bytes: usize = block_count as usize * block_bytes;
        let staging = zeroed(block_bytes);
        let storage = zeroed(total_bytes);
        BlockDevice {
            range: AddressRange::new(base, BlockDevice::DATA_WINDOW_OFFSET + block_bytes as u64),
            block_count,
            block_bytes,
            operation_latency,
            selected_block: 0,
            irq_enabled: false,
            done: false,
            error: false,
            staging,
            storage,
            active: None,
        }
    }

    pub fn block_count(&self) -> (n: u32)
        ensures
            n == self@.block_count,
    {
        self.block_count
    }

    pub fn block_bytes(&self) -> (n: usize)
        ensures
            n == self@.block_bytes,
    {
        self.block_bytes
    }

    /// The bytes of block `index`, if the device has it.
    pub fn block(&self, index: u32) -> (r: Option<&[u8]>)
        ensures
            index < self@.block_count ==> (r matches Some(bytes) && bytes@ == self@.block(index)),
            index >= self@.block_count ==> r is None,
    {
        proof {
            use_type_invariant(self);
        }
        if index >= self.block_count {
            return None;
        }
        let start = self.block_start(index);
        Some(vstd::slice::slice_subrange(self.storage.as_slice(), start, start + self.block_bytes))
    }

    /// Replace block `index` with `bytes`, which must be exactly one block long.
    pub fn write_block_contents(&mut self, index: u32, bytes: &[u8]) -> (r: Result<(), BusError>)
        requires
            bytes@.len() != old(self)@.block_bytes ==> old(self)@.range.start + BlockDevice::DATA_WINDOW_OFFSET <= u64::MAX,
        ensures
            bytes@.len() != old(self)@.block_bytes ==> r == Err::<(), BusError>(
                BusError::DeviceFault {
                    addr: (old(self)@.range.start + BlockDevice::DATA_WINDOW_OFFSET) as Address,
                    message: "block image size does not match device block size",
                },
            ),
            bytes@.len() == old(self)@.block_bytes && index >= old(self)@.block_count ==> r == Err::<(), BusError>(
                BusError::DeviceFault {
                    addr: old(self)@.range.start,
                    message: "block index is out of range",
                },
            ),
            r is Err ==> final(self)@ == old(self)@,
            r is Ok ==> final(self)@ == (BlockDeviceView {
                storage: old(self)@.storage_with_block(index, bytes@),
                ..old(self)@
            }),
    {
        proof {
            use_type_invariant(&*self);
        }
        if bytes.len() != self.block_bytes {
            return Err(BusError::DeviceFault {
                addr: self.range.start + BlockDevice::DATA_WINDOW_OFFSET,
                message: "block image size does not match device block size",
            });
        }
        if index >= self.block_count {
            return Err(BusError::DeviceFault {
                addr: self.range.start,
                message: "block index is out of range",
            });
        }
        let start = self.block_start(index);
        let storage = spliced(self.storage.as_slice(), start, bytes);
        self.storage = storage;
        assert(self@.storage =~= old(self)@.storage_with_block(index, bytes@));
        Ok(())
    }

    /// Where block `index` starts in the store; the block lies inside it.
    fn block_start(&self, index: u32) -> (start: usize)
        requires
            self@.wf(),
            index < self@.block_count,
        ensures
            start == self@.block_start(index),
            start + self@.block_bytes <= self@.storage.len(),
            start + self@.block_bytes <= usize::MAX,
    {
        proof {
            assert(self.storage.len() == self.storage@.len());
            let n = self@.block_count as int;
            let b = self@.block_bytes as int;
            let i = index as int;
            assert(i * b + b <= n * b) by (nonlinear_arith)
                requires
                    0 <= i < n,
                    0 < b,
            ;
        }
        index as usize * self.block_bytes
    }

    /// The offset of `addr` into the range, or an unmapped-address error.
    fn offset(&self, addr: Address) -> (r: Result<Address, BusError>)
        ensures
            self@.range.spec_contains(addr) ==> r == Ok::<Address, BusError>((addr - self@.range.start) as Address),
            !self@.range.spec_contains(addr) ==> r == Err::<Address, BusError>(BusError::UnmappedAddress { addr }),
    {
        if !self.range.contains(addr) {
            return Err(BusError::UnmappedAddress { addr });
        }
        Ok(addr - self.range.start)
    }

    fn control_word(&self) -> (w: u32)
        ensures
            w == self@.control_word(),
    {
        let mut value: u32 = 0;
        if self.active.is_some() {
            value = value + BlockDevice::STATUS_BUSY;
        }
        if self.done {
            value = value + BlockDevice::STATUS_DONE;
        }
        if self.irq_enabled {
            value = value + BlockDevice::CONTROL_IRQ_ENABLE;
        }
        if self.error {
            value = value + BlockDevice::STATUS_ERROR;
        }
        value
    }

    fn finish_command(&mut self, kind: BlockCommand)
        requires
            old(self)@.wf(),
        ensures
            final(self)@ == old(self)@.finished(kind),
    {
        proof {
            use_type_invariant(&*self);
        }
        if self.selected_block >= self.block_count {
            self.error = true;
            self.done = false;
            return;
        }
        let start = self.block_start(self.selected_block);
        match kind {
            BlockCommand::ReadBlock => {
                let block = vstd::slice::slice_subrange(self.storage.as_slice(), start, start + self.block_bytes);
                let staging = vstd::slice::slice_to_vec(block);
                self.staging = staging;
            },
            BlockCommand::WriteBlock => {
                let storage = spliced(self.storage.as_slice(), start, self.staging.as_slice());
                self.storage = storage;
                assert(self@.storage =~= old(self)@.storage_with_block(old(self)@.selected_block, old(self)@.staging));
            },
        }
        self.done = true;
    }

    fn start_command(&mut self, kind: BlockCommand)
        requires
            old(self)@.wf(),
        ensures
            final(self)@ == old(self)@.started(kind),
    {
        self.done = false;
        self.error = false;
        if self.active.is_some() {
            self.error = true;
            return;
        }
        if self.operation_latency == 0 {
            self.finish_command(kind);
        } else {
            self.active = Some(ActiveCommand { kind, remaining_cycles: self.operation_latency });
        }
    }

    fn apply_control_byte(&mut self, value: u8)
        requires
            old(self)@.wf(),
        ensures
            final(self)@ == old(self)@.after_control(value),
    {
        self.irq_enabled = value & (BlockDevice::CONTROL_IRQ_ENABLE as u8) != 0;
        if value & (BlockDevice::STATUS_DONE as u8) != 0 {
            self.done = false;
        }
        if value & (BlockDevice::STATUS_ERROR as u8) != 0 {
            self.error = false;
        }
        let start_read = value & (BlockDevice::CONTROL_START_READ as u8) != 0;
        let start_write = value & (BlockDevice::CONTROL_START_WRITE as u8) != 0;
        if start_read && !start_write {
            self.start_command(BlockCommand::ReadBlock);
        } else if start_write && !start_read {
            self.start_command(BlockCommand::WriteBlock);
        } else if start_read && start_write {
            self.done = false;
            self.error = true;
        }
    }

    fn read_register_byte(&self, offset: Address) -> (r: Result<u8, BusError>)
        requires
            self@.range.start + offset <= u64::MAX,
        ensures
            r == self@.register_byte(offset),
    {
        proof {
            use_type_invariant(self);
        }
        if offset < 4 {
            Ok(byte_of_word(self.selected_block, offset))
        } else if offset < 8 {
            Ok(byte_of_word(self.control_word(), offset - 4))
        } else if offset < 12 {
            Ok(byte_of_word(self.block_count, offset - 8))
        } else if offset < 16 {
            Ok(byte_of_word(#[verifier::truncate] (self.block_bytes as u32), offset - 12))
        } else if offset - 16 < self.staging.len() as u64 {
            Ok(self.staging[(offset - 16) as usize])
        } else {
            Err(BusError::UnmappedAddress { addr: self.range.start + offset })
        }
    }
}

/// `bytes` laid over `v` from `start` on.
fn spliced(v: &[u8], start: usize, bytes: &[u8]) -> (r: Vec<u8>)
    requires
        start + bytes@.len() <= v@.len(),
    ensures
        r@ == v@.subrange(0, start as int) + bytes@ + v@.subrange(start + bytes@.len(), v@.len() as int),
{
    let mut r: Vec<u8> = Vec::new();
    let mut i: usize = 0;
    while i < v.len()
        invariant
            i <= v@.len(),
            start + bytes@.len() <= v@.len(),
            r@.len() == i,
            forall|k: int| 0 <= k < i ==> #[trigger] r@[k] == (if start <= k < start + bytes@.len() {
                bytes@[k - start]
            } else {
                v@[k]
            }),
        decreases v@.len() - i,
    {
        if start <= i && i < start + bytes.len() {
            r.push(bytes[i - start]);
        } else {
            r.push(v[i]);
        }
        i = i + 1;
    }
    assert(r@ =~= v@.subrange(0, start as int) + bytes@ + v@.subrange(start + bytes@.len(), v@.len() as int));
    r
}

/// `n` zero bytes.
fn zeroed(n: usize) -> (v: Vec<u8>)
    ensures
        v@ == Seq::new(n as nat, |i: int| 0u8),
{
    let mut v: Vec<u8> = Vec::new();
    let mut i: usize = 0;
    while i < n
        invariant
            i <= n,
            v@ == Seq::new(i as nat, |k: int| 0u8),
        decreases n - i,
    {
        v.push(0);
        i = i + 1;
    }
    v
}

impl Addressable for BlockDevice {
    fn name(&self) -> (n: &'static str)
        ensures
            n == "block-device",
    {
        "block-device"
    }

    fn address_range(&self) -> (r: AddressRange)
        ensures
            r == self@.range,
    {
        self.range
    }

    /// Zero the index, the flags, the window and the store, and drop any command in flight.
    fn reset(&mut self)
        ensures
            final(self)@ == (BlockDeviceView {
                selected_block: 0,
                irq_enabled: false,
                done: false,
                error: false,
                staging: Seq::new(old(self)@.staging.len(), |i: int| 0u8),
                storage: Seq::new(old(self)@.storage.len(), |i: int| 0u8),
                active: None,
                ..old(self)@
            }),
    {
        proof {
            use_type_invariant(&*self);
        }
        self.selected_block = 0;
        self.irq_enabled = false;
        self.done = false;
        self.error = false;
        self.active = None;
        let staging = zeroed(self.staging.len());
        self.staging = staging;
        let storage = zeroed(self.storage.len());
        self.storage = storage;
    }

    /// Count the command in flight down, completing it on its last tick.
    fn tick(&mut self)
        ensures
            final(self)@ == old(self)@.ticked(),
    {
        proof {
            use_type_invariant(&*self);
        }
        let active = match self.active {
            None => {
                return;
            },
            Some(active) => active,
        };
        if active.remaining_cycles > 1 {
            self.active = Some(ActiveCommand { kind: active.kind, remaining_cycles: active.remaining_cycles - 1 });
            return;
        }
        self.active = None;
        self.finish_command(active.kind);
    }

    fn pending_interrupts(&self) -> (s: InterruptSet)
        ensures
            s == self@.interrupts(),
    {
        if self.irq_enabled && (self.done || self.error) {
            InterruptSet::from_line(InterruptLine::MachineExternal)
        } else {
            InterruptSet::empty()
        }
    }

    /// Registers read little-endian, then the staging window.
    fn load8(&mut self, addr: Address) -> (r: Result<u8, BusError>)
        ensures
            final(self)@ == old(self)@,
            old(self)@.range.spec_contains(addr) ==> r == old(self)@.register_byte((addr - old(self)@.range.start) as Address),
            !old(self)@.range.spec_contains(addr) ==> r == Err::<u8, BusError>(BusError::UnmappedAddress { addr }),
    {
        let offset = self.offset(addr)?;
        self.read_register_byte(offset)
    }

    /// The block index takes any byte; only the low control byte acts; the
    /// geometry registers are read-only; the rest is the staging window.
    fn store8(&mut self, addr: Address, value: u8) -> (r: Result<(), BusError>)
        ensures
            !old(self)@.range.spec_contains(addr) ==> r == Err::<(), BusError>(BusError::UnmappedAddress { addr })
                && final(self)@ == old(self)@,
            old(self)@.range.spec_contains(addr) ==> {
                let offset = addr - old(self)@.range.start;
                &&& offset < 4 ==> r is Ok && final(self)@ == (BlockDeviceView {
                    selected_block: word_with_byte(old(self)@.selected_block, offset, value),
                    ..old(self)@
                })
                &&& offset == 4 ==> r is Ok && final(self)@ == old(self)@.after_control(value)
                &&& 4 < offset < 8 ==> r is Ok && final(self)@ == old(self)@
                &&& 8 <= offset < 16 ==> r == Err::<(), BusError>(BusError::ReadOnlyAddress { addr })
                    && final(self)@ == old(self)@
                &&& 16 <= offset ==> r is Ok && final(self)@ == (BlockDeviceView {
                    staging: old(self)@.staging.update(offset - 16, value),
                    ..old(self)@
                })
            },
    {
        proof {
            use_type_invariant(&*self);
        }
        let offset = self.offset(addr)?;
        if offset < 4 {
            self.selected_block = replace_byte(self.selected_block, offset, value);
            Ok(())
        } else if offset < 8 {
            if offset == BlockDevice::CONTROL_OFFSET {
                self.apply_control_byte(value);
            }
            Ok(())
        } else if offset < 16 {
            Err(BusError::ReadOnlyAddress { addr })
        } else {
            let index = (offset - 16) as usize;
            let mut staging = vstd::slice::slice_to_vec(self.staging.as_slice());
            staging.set(index, value);
            self.staging = staging;
            Ok(())
        }
    }
}

/// The device after `n` ticks.
pub open spec fn after_ticks(v: BlockDeviceView, n: nat) -> BlockDeviceView
    decreases n,
{
    if n == 0 {
        v
    } else {
        after_ticks(v.ticked(), (n - 1) as nat)
    }
}

/// A command with `remaining` ticks left is still counting down after fewer
/// ticks and completes on the last one.
proof fn lemma_countdown(v: BlockDeviceView, kind: BlockCommand, remaining: u32, n: nat)
    requires
        v.active == Some(ActiveCommand { kind, remaining_cycles: remaining }),
        1 <= remaining,
        n <= remaining,
    ensures
        n < remaining ==> after_ticks(v, n) == (BlockDeviceView {
            active: Some(ActiveCommand { kind, remaining_cycles: (remaining - n) as u32 }),
            ..v
        }),
        n == remaining ==> after_ticks(v, n) == (BlockDeviceView { active: None, ..v }).finished(kind),
    decreases n,
{
    if n > 0 {
        if remaining > 1 {
            let next = BlockDeviceView {
                active: Some(ActiveCommand { kind, remaining_cycles: (remaining - 1) as u32 }),
                ..v
            };
            assert(v.ticked() == next);
            lemma_countdown(next, kind, (remaining - 1) as u32, (n - 1) as nat);
            assert(BlockDeviceView { active: None, ..next } == BlockDeviceView { active: None, ..v });
        } else {
            assert(after_ticks(v.ticked(), 0) == v.ticked());
        }
    }
}

/// A command started on an idle device with a non-zero latency keeps the
/// device busy, with neither flag set, for fewer than `operation_latency`
/// ticks, and has completed exactly after `operation_latency` ticks.
pub proof fn command_completes_after_latency(v: BlockDeviceView, kind: BlockCommand, n: nat)
    requires
        v.wf(),
        v.active is None,
        v.operation_latency >= 1,
        n < v.operation_latency,
    ensures
        after_ticks(v.started(kind), n).active is Some,
        !after_ticks(v.started(kind), n).done,
        !after_ticks(v.started(kind), n).error,
        after_ticks(v.started(kind), v.operation_latency as nat) == (BlockDeviceView {
            done: false,
            error: false,
            ..v
        }).finished(kind),
{
    let s = v.started(kind);
    lemma_countdown(s, kind, v.operation_latency, n);
    lemma_countdown(s, kind, v.operation_latency, v.operation_latency as nat);
    assert(BlockDeviceView { active: None, ..s } == BlockDeviceView { done: false, error: false, ..v });
}

/// Block `index` lies inside the store of a well-formed device.
proof fn lemma_block_in_store(v: BlockDeviceView, index: u32)
    requires
        v.wf(),
        index < v.block_count,
    ensures
        0 <= v.block_start(index),
        v.block_start(index) + v.block_bytes <= v.storage.len(),
{
    let n = v.block_count as int;
    let b = v.block_bytes as int;
    let i = index as int;
    assert(0 <= i * b && i * b + b <= n * b) by (nonlinear_arith)
        requires
            0 <= i < n,
            0 < b,
    ;
}

/// A write command stores the staging window in the selected block, and a
/// read command that follows gives the window back unchanged.
pub proof fn write_then_read_restores_window(v: BlockDeviceView)
    requires
        v.wf(),
        v.selected_block < v.block_count,
    ensures
        v.finished(BlockCommand::WriteBlock).block(v.selected_block) == v.staging,
        v.finished(BlockCommand::WriteBlock).finished(BlockCommand::ReadBlock).staging == v.staging,
        v.finished(BlockCommand::WriteBlock).finished(BlockCommand::ReadBlock).storage == v.finished(
            BlockCommand::WriteBlock,
        ).storage,
{
    lemma_block_in_store(v, v.selected_block);
    let w = v.finished(BlockCommand::WriteBlock);
    assert(w.block(v.selected_block) =~= v.staging);
}

/// A write command changes no block but the selected one.
pub proof fn write_leaves_other_blocks(v: BlockDeviceView, other: u32)
    requires
        v.wf(),
        v.selected_block < v.block_count,
        other < v.block_count,
        other != v.selected_block,
    ensures
        v.finished(BlockCommand::WriteBlock).block(other) == v.block(other),
{
    lemma_block_in_store(v, v.selected_block);
    lemma_block_in_store(v, other);
    let b = v.block_bytes as int;
    let i = v.selected_block as int;
    let j = other as int;
    assert(j * b + b <= i * b || i * b + b <= j * b) by (nonlinear_arith)
        requires
            i != j,
            0 <= i,
            0 <= j,
            0 < b,
    ;
    let w = v.finished(BlockCommand::WriteBlock);
    assert(w.block(other) =~= v.block(other));
}

} // verus!
