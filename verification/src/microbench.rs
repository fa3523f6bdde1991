//! Cycle-count microbenchmarks that run small programs on both core models:
//! interrupt latency with an idle and with a busy memory system, translation
//! caching across address-space switches, and superpage and namespace flows
//! through the page-table walker.

use vstd::prelude::*;
use crate::bus::{Address, AddressRange, Addressable, Bus, BusError};
use crate::bytes::le_word;
use crate::component::Processor;
use crate::cpu_model::{CpuError, CpuModel};
use crate::csr_address::CsrAddress;
use crate::decode::{field_funct3, field_funct7, field_opcode, field_rd, field_rs1, field_rs2, imm_j_bits, imm_s_bits};
use crate::devices::MappedDevice;
use crate::devices::dram::{Dram, DramConfig};
use crate::devices::latency_adapter::LatencyAdapter;
use crate::devices::machine_software_interrupt::MachineSoftwareInterrupt;
use crate::devices::ram::Ram;
use crate::devices::rom::Rom;
use crate::machine::Machine;
use crate::memory_map::MemoryMap;
use crate::pipeline_core::PipelineCore;
use crate::reference::ReferenceCore;

verus! {

const RESET_VECTOR: u32 = 0;
const RAM_BASE: Address = 0x1000_0000;
const RAM_BYTES: usize = 0x1000;
const VM_RAM_BYTES: usize = 0x10000;
const MSIP_BASE: Address = 0x5000_0000;
const NOP: u32 = 0x0000_0013;
const MRET: u32 = 0x3020_0073;
const PAGE_SHIFT: u32 = 12;
const SATP_MODE_SV32: u32 = 0x8000_0000;
const MSTATUS_MPRV: u32 = 0x0002_0000;
const MSTATUS_MPP_SUPERVISOR: u32 = 0x0000_0800;
const PTE_V: u32 = 0x01;
const PTE_R: u32 = 0x02;
const PTE_W: u32 = 0x04;
const PTE_X: u32 = 0x08;
const PTE_G: u32 = 0x20;
const PTE_A: u32 = 0x40;
const PTE_D: u32 = 0x80;
const VM_ROOT_TABLE_1: Address = 0x1000_0000;
const VM_LEAF_TABLE_1: Address = 0x1000_1000;
const VM_ROOT_TABLE_2: Address = 0x1000_2000;
const VM_LEAF_TABLE_2: Address = 0x1000_3000;
const VM_ROOT_TABLE_3: Address = 0x1000_6000;
const VM_PHYS_PAGE_A: Address = 0x1000_4000;
const VM_PHYS_PAGE_B: Address = 0x1000_5000;
const VM_PHYS_PAGE_C: Address = 0x1000_7000;
const VM_VIRTUAL_ADDR: u32 = 0x4000;
const VM_VALUE_A: u32 = 0x1111_2222;
const VM_VALUE_B: u32 = 0x3333_4444;
const VM_VALUE_C: u32 = 0x7777_8888;
const VM_SUPERPAGE_VIRTUAL_BASE: u32 = 0x0040_0000;
const VM_SUPERPAGE_DATA_PHYSICAL_ADDR: Address = 0x1000_8000;

/// Why a microbenchmark could not produce its numbers.
#[derive(Debug, Clone, Copy, PartialEq, Eq)]
pub enum MicrobenchError {
    Bus(BusError),
    Cpu(CpuError),
    /// The named phase did not reach its stop condition within its cycle budget.
    Timeout(&'static str),
    /// The named phase finished with an architectural result other than the
    /// one the benchmark program computes.
    Mismatch(&'static str),
}

impl From<BusError> for MicrobenchError {
    fn from(value: BusError) -> (e: Self) {
        MicrobenchError::Bus(value)
    }
}

impl vstd::std_specs::convert::FromSpecImpl<BusError> for MicrobenchError {
    open spec fn obeys_from_spec() -> bool {
        true
    }

    open spec fn from_spec(v: BusError) -> MicrobenchError {
        MicrobenchError::Bus(v)
    }
}

impl From<CpuError> for MicrobenchError {
    fn from(value: CpuError) -> (e: Self) {
        MicrobenchError::Cpu(value)
    }
}

impl vstd::std_specs::convert::FromSpecImpl<CpuError> for MicrobenchError {
    open spec fn obeys_from_spec() -> bool {
        true
    }

    open spec fn from_spec(v: CpuError) -> MicrobenchError {
        MicrobenchError::Cpu(v)
    }
}

/// Cycles from raising the software interrupt to the handler's first effect.
#[derive(Debug, Clone, Copy, PartialEq, Eq)]
pub struct InterruptLatencySample {
    pub idle_cycles: u64,
    pub loaded_cycles: u64,
}

#[derive(Debug, Clone, Copy, PartialEq, Eq)]
pub struct InterruptLatencyReport {
    pub reference: InterruptLatencySample,
    pub pipeline: InterruptLatencySample,
}

/// Cycles per load through the translation cache in each namespace situation.
#[derive(Debug, Clone, Copy, PartialEq, Eq)]
pub struct TranslationCachingSample {
    pub cold_cycles: u64,
    pub warm_cycles: u64,
    pub switched_asid_cycles: u64,
    pub returned_asid_cycles: u64,
    pub global_switched_asid_cycles: u64,
    pub sfence_reload_cycles: u64,
}

#[derive(Debug, Clone, Copy, PartialEq, Eq)]
pub struct TranslationCachingReport {
    pub reference: TranslationCachingSample,
    pub pipeline: TranslationCachingSample,
}

/// Cycles of the superpage access flow and of the namespace-preserve flow.
#[derive(Debug, Clone, Copy, PartialEq, Eq)]
pub struct VirtualMemoryPathsSample {
    pub superpage_access_cycles: u64,
    pub namespace_preserved_cycles: u64,
    pub namespace_reloaded_cycles: u64,
}

#[derive(Debug, Clone, Copy, PartialEq, Eq)]
pub struct VirtualMemoryPathsReport {
    pub reference: VirtualMemoryPathsSample,
    pub pipeline: VirtualMemoryPathsSample,
}

/// Whether the interrupt benchmark's program keeps the memory system busy.
#[derive(Debug, Clone, Copy, PartialEq, Eq)]
enum InterruptLoad {
    Idle,
    Loaded,
}

/// I-type word: immediate, rs1, funct3, rd, opcode.
fn encode_i(imm: i16, rs1: u8, funct3: u32, rd: u8, opcode: u32) -> (w: u32)
    requires
        rs1 < 32,
        rd < 32,
        funct3 < 8,
        opcode < 128,
    ensures
        field_opcode(w) == opcode,
        field_rd(w) == rd,
        field_funct3(w) == funct3,
        field_rs1(w) == rs1,
        w >> 20 == (imm as u16 as u32) & 0x0fff,
{
    let i: u32 = imm as u16 as u32;
    let s1: u32 = rs1 as u32;
    let d: u32 = rd as u32;
    let w: u32 = ((i & 0x0fff) << 20) | (s1 << 15) | (funct3 << 12) | (d << 7) | opcode;
    assert({
        &&& w & 0x7f == opcode
        &&& (w >> 7) & 0x1f == d
        &&& (w >> 12) & 0x7 == funct3
        &&& (w >> 15) & 0x1f == s1
        &&& w >> 20 == i & 0x0fff
    }) by (bit_vector)
        requires
            w == ((i & 0x0fff) << 20) | (s1 << 15) | (funct3 << 12) | (d << 7) | opcode,
            s1 < 32,
            d < 32,
            funct3 < 8,
            opcode < 128,
    ;
    w
}

fn encode_addi(rd: u8, rs1: u8, imm: i16) -> (w: u32)
    requires
        rs1 < 32,
        rd < 32,
    ensures
        field_opcode(w) == 0x13,
        field_funct3(w) == 0,
        field_rd(w) == rd,
        field_rs1(w) == rs1,
        w >> 20 == (imm as u16 as u32) & 0x0fff,
{
    encode_i(imm, rs1, 0, rd, 0x13)
}

fn encode_lw(rd: u8, rs1: u8, imm: i16) -> (w: u32)
    requires
        rs1 < 32,
        rd < 32,
    ensures
        field_opcode(w) == 0x03,
        field_funct3(w) == 2,
        field_rd(w) == rd,
        field_rs1(w) == rs1,
        w >> 20 == (imm as u16 as u32) & 0x0fff,
{
    encode_i(imm, rs1, 2, rd, 0x03)
}

fn encode_sw(rs2: u8, rs1: u8, imm: i16) -> (w: u32)
    requires
        rs1 < 32,
        rs2 < 32,
    ensures
        field_opcode(w) == 0x23,
        field_funct3(w) == 2,
        field_rs1(w) == rs1,
        field_rs2(w) == rs2,
        imm_s_bits(w) == (imm as u16 as u32) & 0x0fff,
{
    let i: u32 = imm as u16 as u32;
    let s1: u32 = rs1 as u32;
    let s2: u32 = rs2 as u32;
    let w: u32 = (((i >> 5) & 0x7f) << 25) | (s2 << 20) | (s1 << 15) | (2u32 << 12) | ((i & 0x1f) << 7) | 0x23;
    assert({
        &&& w & 0x7f == 0x23
        &&& (w >> 12) & 0x7 == 2
        &&& (w >> 15) & 0x1f == s1
        &&& (w >> 20) & 0x1f == s2
        &&& ((w >> 7) & 0x1f) | (((w >> 25) & 0x7f) << 5) == i & 0x0fff
    }) by (bit_vector)
        requires
            w == (((i >> 5) & 0x7f) << 25) | (s2 << 20) | (s1 << 15) | (2u32 << 12) | ((i & 0x1f) << 7) | 0x23,
            s1 < 32,
            s2 < 32,
            i < 0x10000,
    ;
    w
}

fn encode_lui(rd: u8, upper_20: u32) -> (w: u32)
    requires
        rd < 32,
    ensures
        field_opcode(w) == 0x37,
        field_rd(w) == rd,
        w >> 12 == upper_20 & 0xf_ffff,
{
    let d: u32 = rd as u32;
    let w: u32 = (upper_20 << 12) | (d << 7) | 0x37;
    assert({
        &&& w & 0x7f == 0x37
        &&& (w >> 7) & 0x1f == d
        &&& w >> 12 == upper_20 & 0xf_ffff
    }) by (bit_vector)
        requires
            w == (upper_20 << 12) | (d << 7) | 0x37,
            d < 32,
    ;
    w
}

fn encode_jal(rd: u8, imm: i32) -> (w: u32)
    requires
        rd < 32,
    ensures
        field_opcode(w) == 0x6f,
        field_rd(w) == rd,
        imm_j_bits(w) == (imm as u32) & 0x1f_fffe,
{
    let i: u32 = imm as u32;
    let d: u32 = rd as u32;
    let bit20: u32 = ((i >> 20) & 0x1) << 31;
    let bits10_1: u32 = ((i >> 1) & 0x03ff) << 21;
    let bit11: u32 = ((i >> 11) & 0x1) << 20;
    let bits19_12: u32 = ((i >> 12) & 0xff) << 12;
    let w: u32 = bit20 | bits19_12 | bit11 | bits10_1 | (d << 7) | 0x6f;
    assert({
        &&& w & 0x7f == 0x6f
        &&& (w >> 7) & 0x1f == d
        &&& (((w >> 21) & 0x03ff) << 1) | (((w >> 20) & 0x0001) << 11) | (((w >> 12) & 0x00ff) << 12) | (((w
            >> 31) & 0x0001) << 20) == i & 0x1f_fffe
    }) by (bit_vector)
        requires
            w == (((i >> 20) & 0x1) << 31) | (((i >> 12) & 0xff) << 12) | (((i >> 11) & 0x1) << 20) | (((i >> 1)
                & 0x03ff) << 21) | (d << 7) | 0x6f,
            d < 32,
    ;
    w
}

fn encode_csrrw(rd: u8, csr: u16, rs1: u8) -> (w: u32)
    requires
        rd < 32,
        rs1 < 32,
    ensures
        field_opcode(w) == 0x73,
        field_funct3(w) == 1,
        field_rd(w) == rd,
        field_rs1(w) == rs1,
        w >> 20 == (csr as u32) & 0x0fff,
{
    let c: u32 = csr as u32;
    let s1: u32 = rs1 as u32;
    let d: u32 = rd as u32;
    let w: u32 = (c << 20) | (s1 << 15) | (1u32 << 12) | (d << 7) | 0x73;
    assert({
        &&& w & 0x7f == 0x73
        &&& (w >> 7) & 0x1f == d
        &&& (w >> 12) & 0x7 == 1
        &&& (w >> 15) & 0x1f == s1
        &&& w >> 20 == c & 0x0fff
    }) by (bit_vector)
        requires
            w == (c << 20) | (s1 << 15) | (1u32 << 12) | (d << 7) | 0x73,
            s1 < 32,
            d < 32,
    ;
    w
}

fn encode_sfence_vma(rs1: u8, rs2: u8) -> (w: u32)
    requires
        rs1 < 32,
        rs2 < 32,
    ensures
        field_opcode(w) == 0x73,
        field_rd(w) == 0,
        field_funct3(w) == 0,
        field_rs1(w) == rs1,
        field_rs2(w) == rs2,
        field_funct7(w) == 0x09,
{
    let s1: u32 = rs1 as u32;
    let s2: u32 = rs2 as u32;
    let w: u32 = 0x1200_0073 | (s1 << 15) | (s2 << 20);
    assert({
        &&& w & 0x7f == 0x73
        &&& (w >> 7) & 0x1f == 0
        &&& (w >> 12) & 0x7 == 0
        &&& (w >> 15) & 0x1f == s1
        &&& (w >> 20) & 0x1f == s2
        &&& (w >> 25) & 0x7f == 0x09
    }) by (bit_vector)
        requires
            w == 0x1200_0073 | (s1 << 15) | (s2 << 20),
            s1 < 32,
            s2 < 32,
    ;
    w
}

/// The `satp` value selecting Sv32 with `asid` and the root table at `root_table`.
fn sv32_satp_with_asid(root_table: Address, asid: u32) -> (satp: u32)
    requires
        asid < 0x200,
    ensures
        satp >> 31 == 1,
        (satp >> 22) & 0x1ff == asid,
        satp & 0x3f_ffff == (#[verifier::truncate] (root_table as u32)) >> PAGE_SHIFT,
{
    let low: u32 = #[verifier::truncate] (root_table as u32);
    let root: u32 = low >> PAGE_SHIFT;
    let satp: u32 = SATP_MODE_SV32 | (asid << 22) | root;
    assert({
        &&& satp >> 31 == 1
        &&& (satp >> 22) & 0x1ff == asid
        &&& satp & 0x3f_ffff == root
    }) by (bit_vector)
        requires
            satp == 0x8000_0000u32 | (asid << 22) | root,
            asid < 0x200,
            root == low >> 12,
    ;
    satp
}

/// Whether every byte of the `count` bytes from `addr` lands in the device's memory.
pub open spec fn bytes_writable(device: MappedDevice, addr: Address, count: int) -> bool {
    forall|k: int| 0 <= k < count ==> #[trigger] device.spec_writable((addr + k) as Address)
}

/// The little-endian word the device's memory holds at `addr`.
pub open spec fn spec_word_at(device: MappedDevice, addr: Address) -> u32 {
    le_word(
        device.spec_byte(addr),
        device.spec_byte((addr + 1) as Address),
        device.spec_byte((addr + 2) as Address),
        device.spec_byte((addr + 3) as Address),
    )
}

/// Every writable byte outside `lo..hi` holds what it held before.
pub open spec fn bytes_kept_outside(before: MappedDevice, after: MappedDevice, lo: int, hi: int) -> bool {
    forall|a: Address| !(lo <= a < hi) && before.spec_writable(a) ==> #[trigger] after.spec_byte(a) == before.spec_byte(a)
}

/// A writable word outside the changed bytes is kept.
proof fn lemma_word_kept(before: MappedDevice, after: MappedDevice, lo: int, hi: int, w: Address)
    requires
        bytes_kept_outside(before, after, lo, hi),
        bytes_writable(before, w, 4),
        w + 4 <= lo || hi <= w,
        w + 3 <= u64::MAX,
    ensures
        spec_word_at(after, w) == spec_word_at(before, w),
{
    assert(before.spec_writable((w + 0) as Address) && before.spec_writable((w + 1) as Address)
        && before.spec_writable((w + 2) as Address) && before.spec_writable((w + 3) as Address));
    assert(after.spec_byte(w) == before.spec_byte(w));
    assert(after.spec_byte((w + 1) as Address) == before.spec_byte((w + 1) as Address));
    assert(after.spec_byte((w + 2) as Address) == before.spec_byte((w + 2) as Address));
    assert(after.spec_byte((w + 3) as Address) == before.spec_byte((w + 3) as Address));
}

/// Store `value` little-endian into the four bytes at `addr`, stopping at the first refused byte.
fn write_word(device: &mut MappedDevice, addr: Address, value: u32) -> (r: Result<(), MicrobenchError>)
    requires
        addr <= u64::MAX - 3,
    ensures
        r matches Err(e) ==> e is Bus,
        bytes_writable(*old(device), addr, 4) ==> r is Ok,
        forall|a: Address| #[trigger] final(device).spec_writable(a) == old(device).spec_writable(a),
        final(device).spec_range() == old(device).spec_range(),
        final(device).same_kind(*old(device)),
        bytes_writable(*old(device), addr, 4) ==> spec_word_at(*final(device), addr) == value,
        bytes_kept_outside(*old(device), *final(device), addr as int, addr + 4),
{
    let bytes = crate::bytes::word_to_le_bytes(value);
    let mut offset: usize = 0;
    while offset < 4
        invariant
            offset <= 4,
            addr <= u64::MAX - 3,
            forall|a: Address| #[trigger] device.spec_writable(a) == old(device).spec_writable(a),
            device.spec_range() == old(device).spec_range(),
            device.same_kind(*old(device)),
            bytes_writable(*old(device), addr, 4) ==> bytes_writable(*device, addr, 4),
            bytes_kept_outside(*old(device), *device, addr as int, addr + 4),
            bytes_kept_outside(*old(device), *device, addr as int, addr + offset),
            bytes_writable(*old(device), addr, 4) ==> forall|k: int| 0 <= k < offset ==> #[trigger] device.spec_byte(
                (addr + k) as Address,
            ) == bytes[k],
        decreases 4 - offset,
    {
        proof {
            if bytes_writable(*old(device), addr, 4) {
                assert(device.spec_writable((addr + offset as int) as Address));
            }
        }
        match device.store8(addr + offset as u64, bytes[offset]) {
            Ok(()) => {},
            Err(error) => {
                return Err(MicrobenchError::Bus(error));
            },
        }
        offset = offset + 1;
    }
    proof {
        if bytes_writable(*old(device), addr, 4) {
            assert(device.spec_byte((addr + 0) as Address) == bytes[0]);
            assert(device.spec_byte((addr + 1) as Address) == bytes[1]);
            assert(device.spec_byte((addr + 2) as Address) == bytes[2]);
            assert(device.spec_byte((addr + 3) as Address) == bytes[3]);
        }
    }
    Ok(())
}

/// The root-table entry for `virtual_address` in the table at `table`.
spec fn root_slot(table: Address, virtual_address: u32) -> Address {
    (table + ((virtual_address >> 22) % 0x400) * 4) as Address
}

/// The leaf-table entry for `virtual_address` in the table at `table`.
spec fn leaf_slot(table: Address, virtual_address: u32) -> Address {
    (table + ((virtual_address >> 12) % 0x400) * 4) as Address
}

/// A valid non-leaf entry pointing at the table at `table`.
spec fn pointer_pte(table: Address) -> u32 {
    PTE_V | (((table as u32) >> PAGE_SHIFT) << 10)
}

/// A valid leaf entry mapping the page at `physical_address` with `flags`.
spec fn leaf_pte(physical_address: u32, flags: u32) -> u32 {
    PTE_V | flags | ((physical_address >> PAGE_SHIFT) << 10)
}

/// Every writable byte outside the 4 KiB pages at `first` and `second`
/// holds what it held before.
pub open spec fn bytes_kept_outside_pages(before: MappedDevice, after: MappedDevice, first: int, second: int) -> bool {
    forall|a: Address|
        !(first <= a < first + 0x1000) && !(second <= a < second + 0x1000) && before.spec_writable(a)
            ==> #[trigger] after.spec_byte(a) == before.spec_byte(a)
}

/// A writable word outside both changed pages is kept.
proof fn lemma_word_kept_pages(before: MappedDevice, after: MappedDevice, first: int, second: int, w: Address)
    requires
        bytes_kept_outside_pages(before, after, first, second),
        bytes_writable(before, w, 4),
        w + 4 <= first || first + 0x1000 <= w,
        w + 4 <= second || second + 0x1000 <= w,
        w + 3 <= u64::MAX,
    ensures
        spec_word_at(after, w) == spec_word_at(before, w),
{
    assert(before.spec_writable((w + 0) as Address) && before.spec_writable((w + 1) as Address)
        && before.spec_writable((w + 2) as Address) && before.spec_writable((w + 3) as Address));
    assert(after.spec_byte(w) == before.spec_byte(w));
    assert(after.spec_byte((w + 1) as Address) == before.spec_byte((w + 1) as Address));
    assert(after.spec_byte((w + 2) as Address) == before.spec_byte((w + 2) as Address));
    assert(after.spec_byte((w + 3) as Address) == before.spec_byte((w + 3) as Address));
}

/// The entries the benchmarks' virtual address selects: entry 0 of a root
/// table and entry 4 of a leaf table.
proof fn lemma_benchmark_slots()
    ensures
        root_slot(VM_ROOT_TABLE_1, VM_VIRTUAL_ADDR) == VM_ROOT_TABLE_1,
        root_slot(VM_ROOT_TABLE_2, VM_VIRTUAL_ADDR) == VM_ROOT_TABLE_2,
        leaf_slot(VM_LEAF_TABLE_1, VM_VIRTUAL_ADDR) == VM_LEAF_TABLE_1 + 16,
        leaf_slot(VM_LEAF_TABLE_2, VM_VIRTUAL_ADDR) == VM_LEAF_TABLE_2 + 16,
{
    assert((0x4000u32 >> 22) % 0x400 == 0 && (0x4000u32 >> 12) % 0x400 == 4) by (bit_vector);
}

/// The RAM of the translation benchmark: the data words, and the two
/// namespaces' root and leaf entries for `VM_VIRTUAL_ADDR`.
spec fn translation_ram(ram: MappedDevice, global_mapping: bool) -> bool {
    let flags = PTE_R | PTE_W | PTE_A | PTE_D | if global_mapping { PTE_G } else { 0 };
    let second_page = if global_mapping { VM_PHYS_PAGE_A } else { VM_PHYS_PAGE_B };
    &&& spec_word_at(ram, VM_PHYS_PAGE_A) == VM_VALUE_A
    &&& !global_mapping ==> spec_word_at(ram, VM_PHYS_PAGE_B) == VM_VALUE_B
    &&& spec_word_at(ram, root_slot(VM_ROOT_TABLE_1, VM_VIRTUAL_ADDR)) == pointer_pte(VM_LEAF_TABLE_1)
    &&& spec_word_at(ram, leaf_slot(VM_LEAF_TABLE_1, VM_VIRTUAL_ADDR)) == leaf_pte(VM_PHYS_PAGE_A as u32, flags)
    &&& spec_word_at(ram, root_slot(VM_ROOT_TABLE_2, VM_VIRTUAL_ADDR)) == pointer_pte(VM_LEAF_TABLE_2)
    &&& spec_word_at(ram, leaf_slot(VM_LEAF_TABLE_2, VM_VIRTUAL_ADDR)) == leaf_pte(second_page as u32, flags)
}

/// The RAM of the namespace benchmark: the three data words, and ASID 1's
/// and ASID 2's read-only mappings of pages A and B.
spec fn namespace_ram(ram: MappedDevice) -> bool {
    let flags = PTE_R | PTE_A | PTE_D;
    &&& spec_word_at(ram, VM_PHYS_PAGE_A) == VM_VALUE_A
    &&& spec_word_at(ram, VM_PHYS_PAGE_B) == VM_VALUE_B
    &&& spec_word_at(ram, VM_PHYS_PAGE_C) == VM_VALUE_C
    &&& spec_word_at(ram, root_slot(VM_ROOT_TABLE_1, VM_VIRTUAL_ADDR)) == pointer_pte(VM_LEAF_TABLE_1)
    &&& spec_word_at(ram, leaf_slot(VM_LEAF_TABLE_1, VM_VIRTUAL_ADDR)) == leaf_pte(VM_PHYS_PAGE_A as u32, flags)
    &&& spec_word_at(ram, root_slot(VM_ROOT_TABLE_2, VM_VIRTUAL_ADDR)) == pointer_pte(VM_LEAF_TABLE_2)
    &&& spec_word_at(ram, leaf_slot(VM_LEAF_TABLE_2, VM_VIRTUAL_ADDR)) == leaf_pte(VM_PHYS_PAGE_B as u32, flags)
}

/// Point the root entry for `virtual_address` at `leaf_table`, and the leaf
/// entry at the 4 KiB page holding `physical_address`.
fn install_sv32_mapping(
    device: &mut MappedDevice,
    root_table: Address,
    leaf_table: Address,
    virtual_address: u32,
    physical_address: u32,
    flags: u32,
) -> (r: Result<(), MicrobenchError>)
    requires
        root_table <= u64::MAX - 0x1000,
        leaf_table <= u64::MAX - 0x1000,
    ensures
        r matches Err(e) ==> e is Bus,
        bytes_writable(*old(device), root_table, 0x1000) && bytes_writable(*old(device), leaf_table, 0x1000) ==> r is Ok,
        forall|a: Address| #[trigger] final(device).spec_writable(a) == old(device).spec_writable(a),
        final(device).spec_range() == old(device).spec_range(),
        final(device).same_kind(*old(device)),
        bytes_kept_outside_pages(*old(device), *final(device), root_table as int, leaf_table as int),
        bytes_writable(*old(device), root_table, 0x1000) && bytes_writable(*old(device), leaf_table, 0x1000) && (root_table
            + 0x1000 <= leaf_table || leaf_table + 0x1000 <= root_table) ==> spec_word_at(
            *final(device),
            root_slot(root_table, virtual_address),
        ) == pointer_pte(leaf_table) && spec_word_at(*final(device), leaf_slot(leaf_table, virtual_address))
            == leaf_pte(physical_address, flags),
{
    let ghost start = *device;
    let root_index: u64 = ((virtual_address >> 22) % 0x400) as u64;
    let leaf_index: u64 = ((virtual_address >> 12) % 0x400) as u64;
    let root_pte: u32 = PTE_V | (((leaf_table as u32) >> PAGE_SHIFT) << 10);
    let leaf_pte: u32 = PTE_V | flags | ((physical_address >> PAGE_SHIFT) << 10);
    proof {
        lemma_word_in_table(*device, root_table, root_index as int);
    }
    write_word(device, root_table + root_index * 4, root_pte)?;
    let ghost middle = *device;
    proof {
        lemma_word_in_table(*device, leaf_table, leaf_index as int);
    }
    write_word(device, leaf_table + leaf_index * 4, leaf_pte)?;
    proof {
        if bytes_writable(start, root_table, 0x1000) && bytes_writable(start, leaf_table, 0x1000) && (root_table
            + 0x1000 <= leaf_table || leaf_table + 0x1000 <= root_table) {
            lemma_word_in_table(middle, root_table, root_index as int);
            lemma_word_kept(middle, *device, leaf_table + leaf_index * 4, leaf_table + leaf_index * 4 + 4,
                (root_table + root_index * 4) as Address);
        }
    }
    Ok(())
}

/// A word-aligned entry of a writable 4 KiB table is writable.
proof fn lemma_word_in_table(device: MappedDevice, table: Address, index: int)
    requires
        0 <= index < 0x400,
        table <= u64::MAX - 0x1000,
    ensures
        bytes_writable(device, table, 0x1000) ==> bytes_writable(device, (table + index * 4) as Address, 4),
{
    if bytes_writable(device, table, 0x1000) {
        assert forall|k: int| 0 <= k < 4 implies #[trigger] device.spec_writable(((table + index * 4) as Address + k) as Address) by {
            assert(device.spec_writable((table + (index * 4 + k)) as Address));
        }
    }
}

/// The device's memory takes stores at exactly the `size` bytes from `base`.
pub open spec fn writable_span(device: MappedDevice, base: Address, size: int) -> bool {
    forall|a: Address| #[trigger] device.spec_writable(a) <==> base <= a < base + size
}

/// Bytes inside a writable span are writable.
proof fn lemma_span_writable(device: MappedDevice, base: Address, size: int, addr: Address, count: int)
    requires
        writable_span(device, base, size),
        base <= addr,
        addr + count <= base + size,
        addr + count <= u64::MAX,
    ensures
        bytes_writable(device, addr, count),
{
    assert forall|k: int| 0 <= k < count implies #[trigger] device.spec_writable((addr + k) as Address) by {
        assert(base <= ((addr + k) as Address) < base + size);
    }
}

/// Writes that keep what is writable keep a writable span.
proof fn lemma_span_kept(before: MappedDevice, after: MappedDevice, base: Address, size: int)
    requires
        writable_span(before, base, size),
        forall|a: Address| #[trigger] after.spec_writable(a) == before.spec_writable(a),
    ensures
        writable_span(after, base, size),
{
}

/// Make the root entry for `virtual_address` a 4 MiB leaf at `physical_base`.
fn install_sv32_superpage_mapping(
    device: &mut MappedDevice,
    root_table: Address,
    virtual_address: u32,
    physical_base: u32,
    flags: u32,
) -> (r: Result<(), MicrobenchError>)
    requires
        root_table <= u64::MAX - 0x1000,
    ensures
        r matches Err(e) ==> e is Bus,
        bytes_writable(*old(device), root_table, 0x1000) ==> r is Ok,
        forall|a: Address| #[trigger] final(device).spec_writable(a) == old(device).spec_writable(a),
        final(device).spec_range() == old(device).spec_range(),
        final(device).same_kind(*old(device)),
        bytes_kept_outside_pages(*old(device), *final(device), root_table as int, root_table as int),
        bytes_writable(*old(device), root_table, 0x1000) ==> spec_word_at(*final(device), root_slot(root_table, virtual_address))
            == leaf_pte(physical_base, flags),
{
    let root_index: u64 = ((virtual_address >> 22) % 0x400) as u64;
    let root_pte: u32 = PTE_V | flags | ((physical_base >> PAGE_SHIFT) << 10);
    proof {
        lemma_word_in_table(*device, root_table, root_index as int);
    }
    write_word(device, root_table + root_index * 4, root_pte)
}

/// Spin at the reset vector; the handler at 0x20 counts interrupts in x10.
fn idle_interrupt_program() -> (p: Vec<u32>)
    ensures
        p@.len() == 14,
{
    vec![
        NOP,
        encode_jal(0, -4),
        NOP,
        NOP,
        NOP,
        NOP,
        NOP,
        NOP,
        encode_addi(10, 10, 1),
        MRET,
        NOP,
        NOP,
        NOP,
        NOP,
    ]
}

/// Load from DRAM in a loop; the handler at 0x20 counts interrupts in x10.
fn loaded_interrupt_program() -> (p: Vec<u32>)
    ensures
        p@.len() == 14,
{
    vec![
        encode_lui(1, (RAM_BASE >> 12) as u32),
        encode_lw(2, 1, 0),
        encode_jal(0, -4),
        NOP,
        NOP,
        NOP,
        NOP,
        NOP,
        encode_addi(10, 10, 1),
        MRET,
        NOP,
        NOP,
        NOP,
        NOP,
    ]
}

/// Loads through x1 counted in x3: cold, warm, under the second ASID, back
/// under the first, and after a full fence.
fn translation_program() -> (p: Vec<u32>)
    ensures
        p@.len() == 14,
{
    vec![
        encode_lw(2, 1, 0),
        encode_addi(3, 3, 1),
        encode_lw(2, 1, 0),
        encode_addi(3, 3, 1),
        encode_csrrw(0, CsrAddress::Satp.number(), 5),
        encode_lw(2, 1, 0),
        encode_addi(3, 3, 1),
        encode_csrrw(0, CsrAddress::Satp.number(), 4),
        encode_lw(2, 1, 0),
        encode_addi(3, 3, 1),
        encode_sfence_vma(0, 0),
        encode_lw(2, 1, 0),
        encode_addi(3, 3, 1),
        encode_jal(0, 0),
    ]
}

/// Loads through a global mapping: cold, warm, and under the second ASID.
fn global_translation_program() -> (p: Vec<u32>)
    ensures
        p@.len() == 8,
{
    vec![
        encode_lw(2, 1, 0),
        encode_addi(3, 3, 1),
        encode_lw(2, 1, 0),
        encode_addi(3, 3, 1),
        encode_csrrw(0, CsrAddress::Satp.number(), 5),
        encode_lw(2, 1, 0),
        encode_addi(3, 3, 1),
        encode_jal(0, 0),
    ]
}

/// One load through a superpage mapping into x10.
fn superpage_access_program() -> (p: Vec<u32>)
    ensures
        p@.len() == 3,
{
    vec![
        encode_lui(1, VM_SUPERPAGE_VIRTUAL_BASE.wrapping_add(0x8000) >> 12),
        encode_lw(10, 1, 0),
        encode_jal(0, 0),
    ]
}

/// Load under each ASID, rewrite the first namespace's leaf entry from
/// machine mode, load again under the first ASID (served by the cached
/// translation), fence, and load once more (served by a fresh walk).
fn namespace_preserve_program() -> (p: Vec<u32>)
    ensures
        p@.len() == 15,
{
    vec![
        encode_lw(10, 1, 0),
        encode_addi(3, 3, 1),
        encode_csrrw(0, CsrAddress::Satp.number(), 5),
        encode_lw(11, 1, 0),
        encode_addi(3, 3, 1),
        encode_csrrw(0, CsrAddress::Mstatus.number(), 7),
        encode_sw(6, 4, 0),
        encode_csrrw(0, CsrAddress::Mstatus.number(), 8),
        encode_csrrw(0, CsrAddress::Satp.number(), 9),
        encode_lw(12, 1, 0),
        encode_addi(3, 3, 1),
        encode_sfence_vma(0, 0),
        encode_lw(13, 1, 0),
        encode_addi(3, 3, 1),
        encode_jal(0, 0),
    ]
}

/// The slot the machine software-interrupt device takes in the interrupt machine.
const MSIP_SLOT: usize = 2;

/// A machine at cycle zero, ready to step: its core is well formed.
pub open spec fn fresh_machine<P: Processor, B: Bus>(machine: Machine<P, B>) -> bool {
    &&& machine.spec_clock() == 0
    &&& machine.spec_cpu().well_formed()
    &&& machine.spec_cpu().spec_cycle() == 0
}

/// DRAM timing shared by the benchmarks: 64-byte rows, a row miss costs 6
/// cycles, a row hit 2, each further beat 1.
fn benchmark_dram_config() -> (c: DramConfig)
    ensures
        c.spec_row_size() == 64,
        c.spec_row_miss_latency() == 6,
        c.spec_row_hit_latency() == 2,
        c.spec_burst_latency() == 1,
{
    assert(64usize & 63usize == 0usize) by (bit_vector);
    DramConfig::new(64, 6, 2, 1)
}

/// ROM with the interrupt program, DRAM, and the software-interrupt device
/// in slot `MSIP_SLOT`; machine interrupts enabled and `mtvec` at 0x20.
fn build_interrupt_machine<P: Processor<Error = CpuError> + CpuModel>(cpu: P, load: InterruptLoad) -> (r: Result<
    Machine<P, MemoryMap<MappedDevice>>,
    MicrobenchError,
>)
    requires
        cpu.well_formed(),
        cpu.spec_cycle() == 0,
    ensures
        r matches Ok(m) ==> fresh_machine(m),
        r matches Ok(m) ==> m.spec_bus().spec_ranges().len() == 3 && m.spec_bus().spec_ranges()[0].start == RESET_VECTOR
            && m.spec_bus().spec_ranges()[1] == (AddressRange { start: RAM_BASE, size: RAM_BYTES as u64 })
            && m.spec_bus().spec_ranges()[2] == (AddressRange { start: MSIP_BASE, size: 4 }),
        r is Ok,
{
    let program = match load {
        InterruptLoad::Idle => idle_interrupt_program(),
        InterruptLoad::Loaded => loaded_interrupt_program(),
    };
    let mut dram = MappedDevice::Dram(Dram::new(RAM_BASE, RAM_BYTES, benchmark_dram_config()));
    assert(writable_span(dram, RAM_BASE, RAM_BYTES as int));
    proof {
        lemma_span_writable(dram, RAM_BASE, RAM_BYTES as int, RAM_BASE, 4);
    }
    write_word(&mut dram, RAM_BASE, 0xfeed_face)?;

    let mut memory: MemoryMap<MappedDevice> = MemoryMap::new();
    let rom = MappedDevice::Rom(Rom::from_words(RESET_VECTOR as u64, program.as_slice()));
    let rom_range = rom.address_range();
    memory.map_device_at(rom, rom_range)?;
    let dram_range = dram.address_range();
    memory.map_device_at(dram, dram_range)?;
    let msip = MappedDevice::MachineSoftwareInterrupt(MachineSoftwareInterrupt::new(MSIP_BASE));
    let msip_range = msip.address_range();
    memory.map_device_at(msip, msip_range)?;

    let mut cpu = cpu;
    let hart = cpu.hart_state_mut();
    hart.csrs.write(CsrAddress::Mstatus, 0x08);
    hart.csrs.write(CsrAddress::Mie, 0x08);
    hart.csrs.write(CsrAddress::Mtvec, 0x20);
    Ok(Machine::new(cpu, memory))
}

/// When a stepping phase of a benchmark is over.
#[derive(Debug, Clone, Copy, PartialEq, Eq)]
enum StopCondition {
    /// The hart's program counter equals the value.
    PcIs(u32),
    /// The register holds at least the value.
    RegisterAtLeast(u8, u32),
    /// The register holds exactly the value.
    RegisterIs(u8, u32),
    /// The bus reports an access in flight.
    BusBusy,
}

impl StopCondition {
    /// Register conditions name an architectural register.
    spec fn valid(self) -> bool {
        match self {
            StopCondition::RegisterAtLeast(index, _) => index < 32,
            StopCondition::RegisterIs(index, _) => index < 32,
            _ => true,
        }
    }
}

/// Whether `machine` meets `condition`.
fn reached<P: Processor<Error = CpuError> + CpuModel, B: Bus>(machine: &Machine<P, B>, condition: StopCondition) -> (b: bool)
    requires
        condition.valid(),
    ensures
        condition matches StopCondition::PcIs(pc) ==> b == (machine.spec_cpu().spec_hart().pc == pc),
        condition matches StopCondition::RegisterAtLeast(i, v) ==> b == (machine.spec_cpu().spec_hart().registers@[i as int]
            >= v),
        condition matches StopCondition::RegisterIs(i, v) ==> b == (machine.spec_cpu().spec_hart().registers@[i as int]
            == v),
{
    match condition {
        StopCondition::PcIs(pc) => machine.cpu().hart_state().pc == pc,
        StopCondition::RegisterAtLeast(index, value) => machine.cpu().hart_state().registers.read(index) >= value,
        StopCondition::RegisterIs(index, value) => machine.cpu().hart_state().registers.read(index) == value,
        StopCondition::BusBusy => machine.bus().is_busy(),
    }
}

/// Step `machine` until it meets `condition`, for at most `max_cycles` cycles.
/// On success the clock moved by between one and `max_cycles` cycles, and the
/// core's cycle count moved with it.
fn step_until<P: Processor<Error = CpuError> + CpuModel, B: Bus>(
    machine: &mut Machine<P, B>,
    max_cycles: usize,
    benchmark: &'static str,
    condition: StopCondition,
) -> (r: Result<(), MicrobenchError>)
    requires
        condition.valid(),
        old(machine).spec_cpu().well_formed(),
        old(machine).spec_clock() + max_cycles <= u64::MAX,
        old(machine).spec_cpu().spec_cycle() + max_cycles <= u64::MAX,
    ensures
        final(machine).spec_cpu().well_formed(),
        r is Ok ==> old(machine).spec_clock() < final(machine).spec_clock() <= old(machine).spec_clock() + max_cycles,
        r is Ok ==> final(machine).spec_cpu().spec_cycle() - old(machine).spec_cpu().spec_cycle()
            == final(machine).spec_clock() - old(machine).spec_clock(),
        r matches Err(MicrobenchError::Timeout(name)) ==> name == benchmark,
        r matches Err(e) ==> e is Timeout || e is Cpu,
{
    let mut cycle: usize = 0;
    while cycle < max_cycles
        invariant
            cycle <= max_cycles,
            condition.valid(),
            machine.spec_cpu().well_formed(),
            machine.spec_clock() == old(machine).spec_clock() + cycle,
            machine.spec_cpu().spec_cycle() == old(machine).spec_cpu().spec_cycle() + cycle,
            old(machine).spec_clock() + max_cycles <= u64::MAX,
            old(machine).spec_cpu().spec_cycle() + max_cycles <= u64::MAX,
        decreases max_cycles - cycle,
    {
        match machine.step_cycle() {
            Ok(_) => {},
            Err(error) => {
                return Err(MicrobenchError::Cpu(error));
            },
        }
        cycle = cycle + 1;
        if reached(machine, condition) {
            return Ok(());
        }
    }
    Err(MicrobenchError::Timeout(benchmark))
}

/// Write `value` little-endian into the software-interrupt device directly,
/// bypassing the bus queue; the clock and the core are untouched.
fn set_msip<P: Processor<Error = CpuError> + CpuModel>(machine: &mut Machine<P, MemoryMap<MappedDevice>>, value: u32) -> (r:
    Result<(), MicrobenchError>)
    ensures
        final(machine).spec_clock() == old(machine).spec_clock(),
        final(machine).spec_cpu() == old(machine).spec_cpu(),
        final(machine).spec_bus().spec_ranges() == old(machine).spec_bus().spec_ranges(),
        r matches Err(e) ==> e is Bus,
        old(machine).spec_bus().spec_ranges().len() <= MSIP_SLOT ==> r == Err::<(), MicrobenchError>(
            MicrobenchError::Bus(BusError::DeviceFault { addr: MSIP_BASE, message: "no device at this index" }),
        ),
{
    let bytes = crate::bytes::word_to_le_bytes(value);
    let mut offset: usize = 0;
    while offset < 4
        invariant
            offset <= 4,
            machine.spec_clock() == old(machine).spec_clock(),
            machine.spec_cpu() == old(machine).spec_cpu(),
            machine.spec_bus().spec_ranges() == old(machine).spec_bus().spec_ranges(),
            offset > 0 ==> old(machine).spec_bus().spec_ranges().len() > MSIP_SLOT,
        decreases 4 - offset,
    {
        let bus = machine.bus_mut();
        match bus.store8_to_device(MSIP_SLOT, MSIP_BASE + offset as u64, bytes[offset]) {
            Ok(()) => {},
            Err(error) => {
                return Err(MicrobenchError::Bus(error));
            },
        }
        offset = offset + 1;
    }
    Ok(())
}

/// Cycles from raising the machine software interrupt to the handler's
/// increment of x10, on an idle or a busy memory system.
fn measure_interrupt_latency<P: Processor<Error = CpuError> + CpuModel>(cpu: P, load: InterruptLoad) -> (r: Result<
    u64,
    MicrobenchError,
>)
    requires
        cpu.well_formed(),
        cpu.spec_cycle() == 0,
    ensures
        r matches Ok(cycles) ==> 1 <= cycles <= 64,
{
    let mut machine = build_interrupt_machine(cpu, load)?;
    let warm = match load {
        InterruptLoad::Idle => StopCondition::PcIs(0),
        InterruptLoad::Loaded => StopCondition::PcIs(4),
    };
    step_until(&mut machine, 16, "interrupt benchmark warmup", warm)?;
    let signal_cycle = match load {
        InterruptLoad::Idle => machine.clock().current(),
        InterruptLoad::Loaded => {
            step_until(&mut machine, 32, "memory pressure trigger", StopCondition::BusBusy)?;
            machine.clock().current()
        },
    };
    set_msip(&mut machine, 1)?;
    step_until(&mut machine, 64, "interrupt handler", StopCondition::RegisterAtLeast(10, 1))?;
    set_msip(&mut machine, 0)?;
    Ok(machine.clock().current() - signal_cycle)
}

/// ROM with a translation program and RAM holding two Sv32 namespaces that
/// map `VM_VIRTUAL_ADDR`: ASID 1 to page A and ASID 2 to page B, or, for a
/// global mapping, both to page A. Loads and stores run in supervisor mode
/// through MPRV from machine mode; x1 holds the virtual address, x4 and x5
/// the two `satp` values.
fn build_translation_machine<P: Processor<Error = CpuError> + CpuModel>(cpu: P, global_mapping: bool) -> (r: Result<
    Machine<P, MemoryMap<MappedDevice>>,
    MicrobenchError,
>)
    requires
        cpu.well_formed(),
        cpu.spec_cycle() == 0,
    ensures
        r matches Ok(m) ==> fresh_machine(m),
        r matches Ok(m) ==> m.spec_bus().spec_ranges().len() == 2 && m.spec_bus().spec_ranges()[0].start == RESET_VECTOR
            && m.spec_bus().spec_ranges()[1] == (AddressRange { start: RAM_BASE, size: VM_RAM_BYTES as u64 }),
        r matches Ok(m) ==> m.spec_bus().spec_devices().len() == 2 && translation_ram(m.spec_bus().spec_devices()[1], global_mapping),
        r matches Ok(m) ==> m.spec_cpu().spec_hart().registers@[1] == VM_VIRTUAL_ADDR,
        r is Ok,
{
    let satp_asid_1 = sv32_satp_with_asid(VM_ROOT_TABLE_1, 1);
    let satp_asid_2 = sv32_satp_with_asid(VM_ROOT_TABLE_2, 2);
    let mapping_flags: u32 = PTE_R | PTE_W | PTE_A | PTE_D | if global_mapping {
        PTE_G
    } else {
        0
    };

    let mut ram = MappedDevice::DelayedRam(LatencyAdapter::new(Ram::new(RAM_BASE, VM_RAM_BYTES), 4));
    let ghost span = ram;
    assert(writable_span(ram, RAM_BASE, VM_RAM_BYTES as int));
    proof {
        lemma_span_writable(ram, RAM_BASE, VM_RAM_BYTES as int, VM_PHYS_PAGE_A, 4);
    }
    write_word(&mut ram, VM_PHYS_PAGE_A, VM_VALUE_A)?;
    let ghost ram1 = ram;
    proof {
        lemma_span_kept(span, ram, RAM_BASE, VM_RAM_BYTES as int);
        lemma_span_writable(ram, RAM_BASE, VM_RAM_BYTES as int, VM_PHYS_PAGE_A, 4);
        lemma_span_writable(ram, RAM_BASE, VM_RAM_BYTES as int, VM_PHYS_PAGE_B, 4);
    }
    write_word(
        &mut ram,
        if global_mapping {
            VM_PHYS_PAGE_A
        } else {
            VM_PHYS_PAGE_B
        },
        if global_mapping {
            VM_VALUE_A
        } else {
            VM_VALUE_B
        },
    )?;
    proof {
        lemma_span_kept(span, ram, RAM_BASE, VM_RAM_BYTES as int);
        lemma_span_writable(ram, RAM_BASE, VM_RAM_BYTES as int, VM_ROOT_TABLE_1, 0x1000);
        lemma_span_writable(ram, RAM_BASE, VM_RAM_BYTES as int, VM_LEAF_TABLE_1, 0x1000);
        if !global_mapping {
            lemma_word_kept(ram1, ram, VM_PHYS_PAGE_B as int, VM_PHYS_PAGE_B + 4, VM_PHYS_PAGE_A);
        }
    }
    let ghost ram2 = ram;
    install_sv32_mapping(&mut ram, VM_ROOT_TABLE_1, VM_LEAF_TABLE_1, VM_VIRTUAL_ADDR, VM_PHYS_PAGE_A as u32, mapping_flags)?;
    let ghost ram3 = ram;
    proof {
        lemma_span_writable(ram2, RAM_BASE, VM_RAM_BYTES as int, VM_PHYS_PAGE_A, 4);
        lemma_span_writable(ram2, RAM_BASE, VM_RAM_BYTES as int, VM_PHYS_PAGE_B, 4);
        lemma_word_kept_pages(ram2, ram3, VM_ROOT_TABLE_1 as int, VM_LEAF_TABLE_1 as int, VM_PHYS_PAGE_A);
        lemma_word_kept_pages(ram2, ram3, VM_ROOT_TABLE_1 as int, VM_LEAF_TABLE_1 as int, VM_PHYS_PAGE_B);
    }
    proof {
        lemma_span_kept(span, ram, RAM_BASE, VM_RAM_BYTES as int);
        lemma_span_writable(ram, RAM_BASE, VM_RAM_BYTES as int, VM_ROOT_TABLE_2, 0x1000);
        lemma_span_writable(ram, RAM_BASE, VM_RAM_BYTES as int, VM_LEAF_TABLE_2, 0x1000);
    }
    install_sv32_mapping(
        &mut ram,
        VM_ROOT_TABLE_2,
        VM_LEAF_TABLE_2,
        VM_VIRTUAL_ADDR,
        if global_mapping {
            VM_PHYS_PAGE_A as u32
        } else {
            VM_PHYS_PAGE_B as u32
        },
        mapping_flags,
    )?;
    proof {
        lemma_benchmark_slots();
        lemma_span_kept(span, ram3, RAM_BASE, VM_RAM_BYTES as int);
        lemma_span_writable(ram3, RAM_BASE, VM_RAM_BYTES as int, VM_PHYS_PAGE_A, 4);
        lemma_span_writable(ram3, RAM_BASE, VM_RAM_BYTES as int, VM_PHYS_PAGE_B, 4);
        lemma_span_writable(ram3, RAM_BASE, VM_RAM_BYTES as int, VM_ROOT_TABLE_1, 4);
        lemma_span_writable(ram3, RAM_BASE, VM_RAM_BYTES as int, (VM_LEAF_TABLE_1 + 16) as Address, 4);
        lemma_word_kept_pages(ram3, ram, VM_ROOT_TABLE_2 as int, VM_LEAF_TABLE_2 as int, VM_PHYS_PAGE_A);
        lemma_word_kept_pages(ram3, ram, VM_ROOT_TABLE_2 as int, VM_LEAF_TABLE_2 as int, VM_PHYS_PAGE_B);
        lemma_word_kept_pages(ram3, ram, VM_ROOT_TABLE_2 as int, VM_LEAF_TABLE_2 as int, VM_ROOT_TABLE_1);
        lemma_word_kept_pages(ram3, ram, VM_ROOT_TABLE_2 as int, VM_LEAF_TABLE_2 as int, (VM_LEAF_TABLE_1 + 16) as Address);
        assert(translation_ram(ram, global_mapping));
    }

    let program = if global_mapping {
        global_translation_program()
    } else {
        translation_program()
    };
    let mut memory: MemoryMap<MappedDevice> = MemoryMap::new();
    let rom = MappedDevice::Rom(Rom::from_words(RESET_VECTOR as u64, program.as_slice()));
    let rom_range = rom.address_range();
    memory.map_device_at(rom, rom_range)?;
    let ram_range = ram.address_range();
    memory.map_device_at(ram, ram_range)?;

    let mut cpu = cpu;
    let hart = cpu.hart_state_mut();
    proof {
        hart.registers.lemma_register_count();
    }
    hart.registers.write(1, VM_VIRTUAL_ADDR);
    hart.registers.write(4, satp_asid_1);
    hart.registers.write(5, satp_asid_2);
    hart.csrs.write(CsrAddress::Satp, satp_asid_1);
    hart.csrs.write(CsrAddress::Mstatus, MSTATUS_MPRV | MSTATUS_MPP_SUPERVISOR);
    Ok(Machine::new(cpu, memory))
}

/// ROM with the superpage program and RAM whose root table maps the 4 MiB
/// superpage at `VM_SUPERPAGE_VIRTUAL_BASE` onto RAM; the word 9 sits at
/// its physical offset 0x8000.
fn build_superpage_access_machine<P: Processor<Error = CpuError> + CpuModel>(cpu: P) -> (r: Result<
    Machine<P, MemoryMap<MappedDevice>>,
    MicrobenchError,
>)
    requires
        cpu.well_formed(),
        cpu.spec_cycle() == 0,
    ensures
        r matches Ok(m) ==> fresh_machine(m),
        r matches Ok(m) ==> m.spec_bus().spec_ranges().len() == 2 && m.spec_bus().spec_ranges()[0].start == RESET_VECTOR
            && m.spec_bus().spec_ranges()[1] == (AddressRange { start: RAM_BASE, size: VM_RAM_BYTES as u64 }),
        r is Ok,
{
    let program = superpage_access_program();
    let mut ram = MappedDevice::DelayedRam(LatencyAdapter::new(Ram::new(RAM_BASE, VM_RAM_BYTES), 4));
    let ghost span = ram;
    assert(writable_span(ram, RAM_BASE, VM_RAM_BYTES as int));
    proof {
        lemma_span_writable(ram, RAM_BASE, VM_RAM_BYTES as int, VM_SUPERPAGE_DATA_PHYSICAL_ADDR, 4);
    }
    write_word(&mut ram, VM_SUPERPAGE_DATA_PHYSICAL_ADDR, 9)?;
    proof {
        lemma_span_kept(span, ram, RAM_BASE, VM_RAM_BYTES as int);
        lemma_span_writable(ram, RAM_BASE, VM_RAM_BYTES as int, VM_ROOT_TABLE_3, 0x1000);
    }
    install_sv32_superpage_mapping(
        &mut ram,
        VM_ROOT_TABLE_3,
        VM_SUPERPAGE_VIRTUAL_BASE,
        RAM_BASE as u32,
        PTE_R | PTE_W | PTE_X | PTE_A | PTE_D,
    )?;

    let mut memory: MemoryMap<MappedDevice> = MemoryMap::new();
    let rom = MappedDevice::Rom(Rom::from_words(RESET_VECTOR as u64, program.as_slice()));
    let rom_range = rom.address_range();
    memory.map_device_at(rom, rom_range)?;
    let ram_range = ram.address_range();
    memory.map_device_at(ram, ram_range)?;

    let satp = sv32_satp_with_asid(VM_ROOT_TABLE_3, 1);
    let mut cpu = cpu;
    let hart = cpu.hart_state_mut();
    hart.csrs.write(CsrAddress::Satp, satp);
    hart.csrs.write(CsrAddress::Mstatus, MSTATUS_MPRV | MSTATUS_MPP_SUPERVISOR);
    Ok(Machine::new(cpu, memory))
}

/// ROM with the namespace program and RAM with ASID 1 mapping page A and
/// ASID 2 mapping page B, read-only; x4 holds the physical address of
/// ASID 1's leaf entry and x6 a replacement entry pointing at page C.
fn build_namespace_preserve_machine<P: Processor<Error = CpuError> + CpuModel>(cpu: P) -> (r: Result<
    Machine<P, MemoryMap<MappedDevice>>,
    MicrobenchError,
>)
    requires
        cpu.well_formed(),
        cpu.spec_cycle() == 0,
    ensures
        r matches Ok(m) ==> fresh_machine(m),
        r matches Ok(m) ==> m.spec_bus().spec_ranges().len() == 2 && m.spec_bus().spec_ranges()[0].start == RESET_VECTOR
            && m.spec_bus().spec_ranges()[1] == (AddressRange { start: RAM_BASE, size: VM_RAM_BYTES as u64 }),
        r matches Ok(m) ==> m.spec_bus().spec_devices().len() == 2 && namespace_ram(m.spec_bus().spec_devices()[1]),
        r matches Ok(m) ==> m.spec_cpu().spec_hart().registers@[1] == VM_VIRTUAL_ADDR
            && m.spec_cpu().spec_hart().registers@[4] == leaf_slot(VM_LEAF_TABLE_1, VM_VIRTUAL_ADDR) as u32,
        r is Ok,
{
    let satp_asid_1 = sv32_satp_with_asid(VM_ROOT_TABLE_1, 1);
    let satp_asid_2 = sv32_satp_with_asid(VM_ROOT_TABLE_2, 2);

    let mut ram = MappedDevice::DelayedRam(LatencyAdapter::new(Ram::new(RAM_BASE, VM_RAM_BYTES), 4));
    let ghost span = ram;
    assert(writable_span(ram, RAM_BASE, VM_RAM_BYTES as int));
    proof {
        lemma_span_writable(ram, RAM_BASE, VM_RAM_BYTES as int, VM_PHYS_PAGE_A, 4);
    }
    write_word(&mut ram, VM_PHYS_PAGE_A, VM_VALUE_A)?;
    let ghost ram1 = ram;
    proof {
        lemma_span_kept(span, ram, RAM_BASE, VM_RAM_BYTES as int);
        lemma_span_writable(ram, RAM_BASE, VM_RAM_BYTES as int, VM_PHYS_PAGE_B, 4);
    }
    write_word(&mut ram, VM_PHYS_PAGE_B, VM_VALUE_B)?;
    let ghost ram2 = ram;
    proof {
        lemma_span_kept(span, ram, RAM_BASE, VM_RAM_BYTES as int);
        lemma_span_writable(ram, RAM_BASE, VM_RAM_BYTES as int, VM_PHYS_PAGE_C, 4);
    }
    write_word(&mut ram, VM_PHYS_PAGE_C, VM_VALUE_C)?;
    let ghost ram3 = ram;
    proof {
        lemma_span_writable(ram1, RAM_BASE, VM_RAM_BYTES as int, VM_PHYS_PAGE_A, 4);
        lemma_span_kept(span, ram1, RAM_BASE, VM_RAM_BYTES as int);
        lemma_span_kept(span, ram2, RAM_BASE, VM_RAM_BYTES as int);
        lemma_span_writable(ram2, RAM_BASE, VM_RAM_BYTES as int, VM_PHYS_PAGE_A, 4);
        lemma_span_writable(ram2, RAM_BASE, VM_RAM_BYTES as int, VM_PHYS_PAGE_B, 4);
        lemma_word_kept(ram1, ram2, VM_PHYS_PAGE_B as int, VM_PHYS_PAGE_B + 4, VM_PHYS_PAGE_A);
        lemma_word_kept(ram2, ram3, VM_PHYS_PAGE_C as int, VM_PHYS_PAGE_C + 4, VM_PHYS_PAGE_A);
        lemma_word_kept(ram2, ram3, VM_PHYS_PAGE_C as int, VM_PHYS_PAGE_C + 4, VM_PHYS_PAGE_B);
    }
    proof {
        lemma_span_kept(span, ram, RAM_BASE, VM_RAM_BYTES as int);
        lemma_span_writable(ram, RAM_BASE, VM_RAM_BYTES as int, VM_ROOT_TABLE_1, 0x1000);
        lemma_span_writable(ram, RAM_BASE, VM_RAM_BYTES as int, VM_LEAF_TABLE_1, 0x1000);
    }
    install_sv32_mapping(&mut ram, VM_ROOT_TABLE_1, VM_LEAF_TABLE_1, VM_VIRTUAL_ADDR, VM_PHYS_PAGE_A as u32, PTE_R | PTE_A | PTE_D)?;
    let ghost ram4 = ram;
    proof {
        lemma_span_kept(span, ram3, RAM_BASE, VM_RAM_BYTES as int);
        lemma_span_writable(ram3, RAM_BASE, VM_RAM_BYTES as int, VM_PHYS_PAGE_A, 4);
        lemma_span_writable(ram3, RAM_BASE, VM_RAM_BYTES as int, VM_PHYS_PAGE_B, 4);
        lemma_span_writable(ram3, RAM_BASE, VM_RAM_BYTES as int, VM_PHYS_PAGE_C, 4);
        lemma_word_kept_pages(ram3, ram4, VM_ROOT_TABLE_1 as int, VM_LEAF_TABLE_1 as int, VM_PHYS_PAGE_A);
        lemma_word_kept_pages(ram3, ram4, VM_ROOT_TABLE_1 as int, VM_LEAF_TABLE_1 as int, VM_PHYS_PAGE_B);
        lemma_word_kept_pages(ram3, ram4, VM_ROOT_TABLE_1 as int, VM_LEAF_TABLE_1 as int, VM_PHYS_PAGE_C);
    }
    proof {
        lemma_span_kept(span, ram, RAM_BASE, VM_RAM_BYTES as int);
        lemma_span_writable(ram, RAM_BASE, VM_RAM_BYTES as int, VM_ROOT_TABLE_2, 0x1000);
        lemma_span_writable(ram, RAM_BASE, VM_RAM_BYTES as int, VM_LEAF_TABLE_2, 0x1000);
    }
    install_sv32_mapping(&mut ram, VM_ROOT_TABLE_2, VM_LEAF_TABLE_2, VM_VIRTUAL_ADDR, VM_PHYS_PAGE_B as u32, PTE_R | PTE_A | PTE_D)?;
    proof {
        lemma_benchmark_slots();
        lemma_span_kept(span, ram4, RAM_BASE, VM_RAM_BYTES as int);
        lemma_span_writable(ram4, RAM_BASE, VM_RAM_BYTES as int, VM_PHYS_PAGE_A, 4);
        lemma_span_writable(ram4, RAM_BASE, VM_RAM_BYTES as int, VM_PHYS_PAGE_B, 4);
        lemma_span_writable(ram4, RAM_BASE, VM_RAM_BYTES as int, VM_PHYS_PAGE_C, 4);
        lemma_span_writable(ram4, RAM_BASE, VM_RAM_BYTES as int, VM_ROOT_TABLE_1, 4);
        lemma_span_writable(ram4, RAM_BASE, VM_RAM_BYTES as int, (VM_LEAF_TABLE_1 + 16) as Address, 4);
        lemma_word_kept_pages(ram4, ram, VM_ROOT_TABLE_2 as int, VM_LEAF_TABLE_2 as int, VM_PHYS_PAGE_A);
        lemma_word_kept_pages(ram4, ram, VM_ROOT_TABLE_2 as int, VM_LEAF_TABLE_2 as int, VM_PHYS_PAGE_B);
        lemma_word_kept_pages(ram4, ram, VM_ROOT_TABLE_2 as int, VM_LEAF_TABLE_2 as int, VM_PHYS_PAGE_C);
        lemma_word_kept_pages(ram4, ram, VM_ROOT_TABLE_2 as int, VM_LEAF_TABLE_2 as int, VM_ROOT_TABLE_1);
        lemma_word_kept_pages(ram4, ram, VM_ROOT_TABLE_2 as int, VM_LEAF_TABLE_2 as int, (VM_LEAF_TABLE_1 + 16) as Address);
        assert(namespace_ram(ram));
    }

    let program = namespace_preserve_program();
    let mut memory: MemoryMap<MappedDevice> = MemoryMap::new();
    let rom = MappedDevice::Rom(Rom::from_words(RESET_VECTOR as u64, program.as_slice()));
    let rom_range = rom.address_range();
    memory.map_device_at(rom, rom_range)?;
    let ram_range = ram.address_range();
    memory.map_device_at(ram, ram_range)?;

    let leaf_entry: u32 = (VM_LEAF_TABLE_1 + (((VM_VIRTUAL_ADDR >> 12) % 0x400) as u64) * 4) as u32;
    let replacement: u32 = PTE_V | PTE_R | PTE_A | PTE_D | (((VM_PHYS_PAGE_C as u32) >> PAGE_SHIFT) << 10);
    let mut cpu = cpu;
    let hart = cpu.hart_state_mut();
    proof {
        hart.registers.lemma_register_count();
    }
    hart.registers.write(1, VM_VIRTUAL_ADDR);
    hart.registers.write(4, leaf_entry);
    hart.registers.write(5, satp_asid_2);
    hart.registers.write(6, replacement);
    hart.registers.write(7, MSTATUS_MPP_SUPERVISOR);
    hart.registers.write(8, MSTATUS_MPRV | MSTATUS_MPP_SUPERVISOR);
    hart.registers.write(9, satp_asid_1);
    hart.csrs.write(CsrAddress::Satp, satp_asid_1);
    hart.csrs.write(CsrAddress::Mstatus, MSTATUS_MPRV | MSTATUS_MPP_SUPERVISOR);
    Ok(Machine::new(cpu, memory))
}

/// Cycles until the x3 load counter reaches `target_load_count`.
fn measure_translation_phase<P: Processor<Error = CpuError> + CpuModel>(
    machine: &mut Machine<P, MemoryMap<MappedDevice>>,
    target_load_count: u32,
    benchmark: &'static str,
) -> (r: Result<u64, MicrobenchError>)
    requires
        old(machine).spec_cpu().well_formed(),
        old(machine).spec_clock() + 128 <= u64::MAX,
        old(machine).spec_cpu().spec_cycle() + 128 <= u64::MAX,
    ensures
        final(machine).spec_cpu().well_formed(),
        r matches Ok(cycles) ==> {
            &&& 1 <= cycles <= 128
            &&& final(machine).spec_clock() == old(machine).spec_clock() + cycles
            &&& final(machine).spec_cpu().spec_cycle() == old(machine).spec_cpu().spec_cycle() + cycles
        },
{
    let start = machine.clock().current();
    step_until(machine, 128, benchmark, StopCondition::RegisterAtLeast(3, target_load_count))?;
    Ok(machine.clock().current() - start)
}

/// Fail with `benchmark` unless register `index` holds `expected`.
fn expect_register<P: Processor<Error = CpuError> + CpuModel, B: Bus>(
    machine: &Machine<P, B>,
    index: u8,
    expected: u32,
    benchmark: &'static str,
) -> (r: Result<(), MicrobenchError>)
    requires
        index < 32,
    ensures
        r is Ok <==> machine.spec_cpu().spec_hart().registers@[index as int] == expected,
        r matches Err(e) ==> e == MicrobenchError::Mismatch(benchmark),
{
    if machine.cpu().hart_state().registers.read(index) == expected {
        Ok(())
    } else {
        Err(MicrobenchError::Mismatch(benchmark))
    }
}

/// Cycles of each load of the translation program on `cpu`, and of the
/// switched-ASID load of the global-mapping program on `global_cpu`.
fn measure_translation_caching<P: Processor<Error = CpuError> + CpuModel>(cpu: P, global_cpu: P) -> (r: Result<
    TranslationCachingSample,
    MicrobenchError,
>)
    requires
        cpu.well_formed(),
        cpu.spec_cycle() == 0,
        global_cpu.well_formed(),
        global_cpu.spec_cycle() == 0,
    ensures
        r matches Ok(s) ==> {
            &&& 1 <= s.cold_cycles <= 128
            &&& 1 <= s.warm_cycles <= 128
            &&& 1 <= s.switched_asid_cycles <= 128
            &&& 1 <= s.returned_asid_cycles <= 128
            &&& 1 <= s.global_switched_asid_cycles <= 128
            &&& 1 <= s.sfence_reload_cycles <= 128
        },
{
    let mut machine = build_translation_machine(cpu, false)?;
    let cold_cycles = measure_translation_phase(&mut machine, 1, "translation cold load")?;
    expect_register(&machine, 2, VM_VALUE_A, "translation cold load")?;
    let warm_cycles = measure_translation_phase(&mut machine, 2, "translation warm load")?;
    expect_register(&machine, 2, VM_VALUE_A, "translation warm load")?;
    let switched_asid_cycles = measure_translation_phase(&mut machine, 3, "translation switched asid load")?;
    expect_register(&machine, 2, VM_VALUE_B, "translation switched asid load")?;
    let returned_asid_cycles = measure_translation_phase(&mut machine, 4, "translation returned asid load")?;
    expect_register(&machine, 2, VM_VALUE_A, "translation returned asid load")?;
    let sfence_reload_cycles = measure_translation_phase(&mut machine, 5, "translation sfence reload")?;
    expect_register(&machine, 2, VM_VALUE_A, "translation sfence reload")?;

    let mut global_machine = build_translation_machine(global_cpu, true)?;
    measure_translation_phase(&mut global_machine, 1, "global translation cold load")?;
    measure_translation_phase(&mut global_machine, 2, "global translation warm load")?;
    let global_switched_asid_cycles = measure_translation_phase(
        &mut global_machine,
        3,
        "global translation switched asid load",
    )?;
    expect_register(&global_machine, 2, VM_VALUE_A, "global translation switched asid load")?;

    Ok(TranslationCachingSample {
        cold_cycles,
        warm_cycles,
        switched_asid_cycles,
        returned_asid_cycles,
        global_switched_asid_cycles,
        sfence_reload_cycles,
    })
}

/// Cycles of the superpage load on `superpage_cpu`, and of the stale and
/// the reloaded load of the namespace program on `namespace_cpu`.
fn measure_virtual_memory_paths<P: Processor<Error = CpuError> + CpuModel>(superpage_cpu: P, namespace_cpu: P) -> (r: Result<
    VirtualMemoryPathsSample,
    MicrobenchError,
>)
    requires
        superpage_cpu.well_formed(),
        superpage_cpu.spec_cycle() == 0,
        namespace_cpu.well_formed(),
        namespace_cpu.spec_cycle() == 0,
    ensures
        r matches Ok(s) ==> {
            &&& 1 <= s.superpage_access_cycles <= 256
            &&& 1 <= s.namespace_preserved_cycles <= 256
            &&& 1 <= s.namespace_reloaded_cycles <= 256
        },
{
    let mut superpage_machine = build_superpage_access_machine(superpage_cpu)?;
    let superpage_start = superpage_machine.clock().current();
    step_until(&mut superpage_machine, 256, "superpage access flow", StopCondition::RegisterIs(10, 9))?;
    let superpage_access_cycles = superpage_machine.clock().current() - superpage_start;

    let mut namespace_machine = build_namespace_preserve_machine(namespace_cpu)?;
    step_until(&mut namespace_machine, 256, "namespace preserve warmup", StopCondition::RegisterAtLeast(3, 2))?;
    expect_register(&namespace_machine, 10, VM_VALUE_A, "namespace preserve warmup")?;
    expect_register(&namespace_machine, 11, VM_VALUE_B, "namespace preserve warmup")?;

    let preserve_start = namespace_machine.clock().current();
    step_until(&mut namespace_machine, 256, "namespace preserved stale load", StopCondition::RegisterAtLeast(3, 3))?;
    expect_register(&namespace_machine, 12, VM_VALUE_A, "namespace preserved stale load")?;
    let namespace_preserved_cycles = namespace_machine.clock().current() - preserve_start;

    let reload_start = namespace_machine.clock().current();
    step_until(&mut namespace_machine, 256, "namespace reloaded load", StopCondition::RegisterAtLeast(3, 4))?;
    expect_register(&namespace_machine, 13, VM_VALUE_C, "namespace reloaded load")?;
    let namespace_reloaded_cycles = namespace_machine.clock().current() - reload_start;

    Ok(VirtualMemoryPathsSample { superpage_access_cycles, namespace_preserved_cycles, namespace_reloaded_cycles })
}

/// Interrupt latency of both cores with an idle and with a busy memory
/// system. Every latency covers at least one cycle and at most the
/// handler's 64-cycle budget.
pub fn run_interrupt_latency_benchmark() -> (r: Result<InterruptLatencyReport, MicrobenchError>)
    ensures
        r matches Ok(report) ==> {
            &&& 1 <= report.reference.idle_cycles <= 64
            &&& 1 <= report.reference.loaded_cycles <= 64
            &&& 1 <= report.pipeline.idle_cycles <= 64
            &&& 1 <= report.pipeline.loaded_cycles <= 64
        },
{
    let reference_idle = measure_interrupt_latency(ReferenceCore::new(RESET_VECTOR), InterruptLoad::Idle)?;
    let reference_loaded = measure_interrupt_latency(ReferenceCore::new(RESET_VECTOR), InterruptLoad::Loaded)?;
    let pipeline_idle = measure_interrupt_latency(PipelineCore::new(RESET_VECTOR), InterruptLoad::Idle)?;
    let pipeline_loaded = measure_interrupt_latency(PipelineCore::new(RESET_VECTOR), InterruptLoad::Loaded)?;
    Ok(InterruptLatencyReport {
        reference: InterruptLatencySample { idle_cycles: reference_idle, loaded_cycles: reference_loaded },
        pipeline: InterruptLatencySample { idle_cycles: pipeline_idle, loaded_cycles: pipeline_loaded },
    })
}

/// Translation-caching cycle counts of both cores; every phase covers at
/// least one cycle and at most its 128-cycle budget.
pub fn run_translation_caching_benchmark() -> (r: Result<TranslationCachingReport, MicrobenchError>)
    ensures
        r matches Ok(report) ==> {
            &&& 1 <= report.reference.cold_cycles <= 128
            &&& 1 <= report.reference.warm_cycles <= 128
            &&& 1 <= report.reference.switched_asid_cycles <= 128
            &&& 1 <= report.reference.returned_asid_cycles <= 128
            &&& 1 <= report.reference.global_switched_asid_cycles <= 128
            &&& 1 <= report.reference.sfence_reload_cycles <= 128
            &&& 1 <= report.pipeline.cold_cycles <= 128
            &&& 1 <= report.pipeline.warm_cycles <= 128
            &&& 1 <= report.pipeline.switched_asid_cycles <= 128
            &&& 1 <= report.pipeline.returned_asid_cycles <= 128
            &&& 1 <= report.pipeline.global_switched_asid_cycles <= 128
            &&& 1 <= report.pipeline.sfence_reload_cycles <= 128
        },
{
    let reference = measure_translation_caching(ReferenceCore::new(RESET_VECTOR), ReferenceCore::new(RESET_VECTOR))?;
    let pipeline = measure_translation_caching(PipelineCore::new(RESET_VECTOR), PipelineCore::new(RESET_VECTOR))?;
    Ok(TranslationCachingReport { reference, pipeline })
}

/// Superpage and namespace-flow cycle counts of both cores; every flow
/// covers at least one cycle and at most its 256-cycle budget.
pub fn run_virtual_memory_paths_benchmark() -> (r: Result<VirtualMemoryPathsReport, MicrobenchError>)
    ensures
        r matches Ok(report) ==> {
            &&& 1 <= report.reference.superpage_access_cycles <= 256
            &&& 1 <= report.reference.namespace_preserved_cycles <= 256
            &&& 1 <= report.reference.namespace_reloaded_cycles <= 256
            &&& 1 <= report.pipeline.superpage_access_cycles <= 256
            &&& 1 <= report.pipeline.namespace_preserved_cycles <= 256
            &&& 1 <= report.pipeline.namespace_reloaded_cycles <= 256
        },
{
    let reference = measure_virtual_memory_paths(ReferenceCore::new(RESET_VECTOR), ReferenceCore::new(RESET_VECTOR))?;
    let pipeline = measure_virtual_memory_paths(PipelineCore::new(RESET_VECTOR), PipelineCore::new(RESET_VECTOR))?;
    Ok(VirtualMemoryPathsReport { reference, pipeline })
}

} // verus!
