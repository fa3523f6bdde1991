//! Sv32 address translation: a two-level page walker with hardware
//! accessed/dirty updates and a small ASID-tagged TLB.

use vstd::prelude::*;
use crate::bus::{Bus, BusError, ByteAccess, log_grows, lemma_log_grows_trans, aligned_accesses, byte_reads, byte_writes, lemma_logged_prefix, logged, word_bytes};
use crate::bytes::word_byte;
use crate::csr_address::CsrAddress;
use crate::csr_file::{CsrFile, CsrModel, MSTATUS_MPRV, MSTATUS_MXR, MSTATUS_SUM, privilege_from_bits};
use crate::exception::{Exception, Trap};
use crate::privilege::PrivilegeMode;

verus! {

pub const PAGE_SHIFT: u32 = 12;
pub const PAGE_OFFSET_MASK: u32 = 0xfff;
pub const SUPERPAGE_OFFSET_MASK: u32 = 0x3f_ffff;
pub const SATP_MODE_SHIFT: u32 = 31;
pub const SATP_MODE_SV32: u32 = 1;
pub const SATP_PPN_MASK: u32 = 0x3f_ffff;
pub const SATP_ASID_SHIFT: u32 = 22;
pub const SATP_ASID_MASK: u32 = 0x1ff;
pub const PTE_V: u32 = 0x1;
pub const PTE_R: u32 = 0x2;
pub const PTE_W: u32 = 0x4;
pub const PTE_X: u32 = 0x8;
pub const PTE_U: u32 = 0x10;
pub const PTE_G: u32 = 0x20;
pub const PTE_A: u32 = 0x40;
pub const PTE_D: u32 = 0x80;
pub const PTE_PPN_MASK: u32 = 0x3f_ffff;
pub const PTE_PPN0_MASK: u32 = 0x3ff;
pub const TLB_ENTRY_COUNT: usize = 8;

/// The kind of memory access being translated.
#[derive(Debug, Clone, Copy, PartialEq, Eq, Structural)]
pub enum MemoryAccess {
    Instruction,
    Load,
    Store,
}

/// The outcome of one translation attempt.
#[derive(Debug, Clone, Copy, PartialEq, Eq, Structural)]
pub enum TranslationResult {
    PhysicalAddress(u32),
    Stall,
    PageFault(Trap),
}

/// Everything a translation depends on.
#[derive(Debug, Clone, Copy, PartialEq, Eq, Structural)]
pub struct TranslationRequest {
    pub satp: u32,
    pub status: u32,
    pub privilege: PrivilegeMode,
    pub virtual_address: u32,
    pub access: MemoryAccess,
}

/// The step a walk is at.
#[derive(Debug, Clone, Copy, PartialEq, Eq, Structural)]
pub enum WalkPhase {
    ReadPte,
    WriteLeaf { physical_address: u32, flags: u32, value: u32 },
}

/// An in-progress page-table walk.
#[derive(Debug, Clone, Copy, PartialEq, Eq, Structural)]
pub struct WalkState {
    pub request: TranslationRequest,
    pub level: u32,
    pub pte_address: u32,
    pub phase: WalkPhase,
}

/// A cached leaf translation, tagged with the address-space identifier and
/// root page table it was walked under; a global mapping serves every
/// address space.
#[derive(Debug, Clone, Copy, PartialEq, Eq, Structural)]
pub struct TlbEntry {
    pub asid: u32,
    pub root_ppn: u32,
    pub global: bool,
    pub virtual_base: u32,
    pub physical_base: u32,
    pub page_mask: u32,
    pub flags: u32,
}

/// The ASID field of `satp`.
pub open spec fn satp_asid(satp: u32) -> u32 {
    (satp >> SATP_ASID_SHIFT) & SATP_ASID_MASK
}

/// Translation is active below machine mode when `satp` selects Sv32.
pub open spec fn spec_translation_enabled(satp: u32, privilege: PrivilegeMode) -> bool {
    privilege != PrivilegeMode::Machine && (satp >> SATP_MODE_SHIFT) == SATP_MODE_SV32
}

/// The privilege used for an access: loads and stores in machine mode with
/// MPRV set use the privilege recorded in MPP.
pub open spec fn effective_privilege(mstatus: u32, privilege: PrivilegeMode, access: MemoryAccess) -> PrivilegeMode {
    if privilege == PrivilegeMode::Machine && access != MemoryAccess::Instruction && mstatus
        & MSTATUS_MPRV != 0 {
        privilege_from_bits((mstatus >> 11) & 3)
    } else {
        privilege
    }
}

/// Whether the PTE flags permit the access: user pages only to user mode (and
/// to supervisor loads/stores when SUM is set), fetches need X, loads need R
/// (or X with MXR), stores need W; machine mode is unrestricted.
pub open spec fn spec_permissions_allow(request: TranslationRequest, flags: u32) -> bool {
    let user_page = flags & PTE_U != 0;
    let readable = flags & PTE_R != 0;
    let writable = flags & PTE_W != 0;
    let executable = flags & PTE_X != 0;
    let mxr = request.status & MSTATUS_MXR != 0;
    let sum = request.status & MSTATUS_SUM != 0;
    let kind_allowed = match request.access {
        MemoryAccess::Instruction => executable,
        MemoryAccess::Load => readable || (mxr && executable),
        MemoryAccess::Store => writable,
    };
    match request.privilege {
        PrivilegeMode::Machine => true,
        PrivilegeMode::Supervisor => if user_page {
            request.access != MemoryAccess::Instruction && sum && kind_allowed
        } else {
            kind_allowed
        },
        PrivilegeMode::User => user_page && kind_allowed,
    }
}

/// The page fault raised for a failed translation of the request.
pub open spec fn spec_page_fault(request: TranslationRequest) -> Trap {
    Trap::Exception(
        match request.access {
            MemoryAccess::Instruction => Exception::InstructionPageFault { addr: request.virtual_address },
            MemoryAccess::Load => Exception::LoadPageFault { addr: request.virtual_address },
            MemoryAccess::Store => Exception::StorePageFault { addr: request.virtual_address },
        },
    )
}

/// The virtual page number field used at a walk level.
pub open spec fn spec_vpn(virtual_address: u32, level: u32) -> u32 {
    if level == 0 {
        (virtual_address >> 12) & 0x3ff
    } else if level == 1 {
        (virtual_address >> 22) & 0x3ff
    } else {
        0
    }
}

/// The physical address a leaf PTE maps the request's virtual address to, or
/// `None` for a misaligned superpage (non-zero low PPN at level 1).
pub open spec fn spec_translate_leaf(state: WalkState, pte: u32) -> Option<u32> {
    let va = state.request.virtual_address;
    let ppn = (pte >> 10) & PTE_PPN_MASK;
    let ppn1 = ppn >> 10;
    let ppn0 = ppn & PTE_PPN0_MASK;
    if state.level == 1 {
        if ppn0 != 0 {
            None
        } else {
            Some((((ppn1 << 10) | spec_vpn(va, 0)) << PAGE_SHIFT) | (va & PAGE_OFFSET_MASK))
        }
    } else if state.level == 0 {
        Some((((ppn1 << 10) | ppn0) << PAGE_SHIFT) | (va & PAGE_OFFSET_MASK))
    } else {
        None
    }
}

/// The accessed bit, plus the dirty bit for stores.
pub open spec fn access_bits_for(access: MemoryAccess) -> u32 {
    if access == MemoryAccess::Store { PTE_A | PTE_D } else { PTE_A }
}

/// Whether a TLB entry maps the request's virtual address in its address space.
pub open spec fn entry_matches(entry: TlbEntry, request: TranslationRequest) -> bool {
    (entry.global || (entry.asid == satp_asid(request.satp) && entry.root_ppn == request.satp
        & SATP_PPN_MASK)) && (request.virtual_address
        & !entry.page_mask) == entry.virtual_base
}

/// Whether translation is active for the privilege and `satp`.
pub fn translation_enabled(satp: u32, privilege: PrivilegeMode) -> (b: bool)
    ensures
        b == spec_translation_enabled(satp, privilege),
{
    privilege != PrivilegeMode::Machine && (satp >> SATP_MODE_SHIFT) == SATP_MODE_SV32
}

/// Whether the PTE flags permit the request.
pub fn permissions_allow(request: TranslationRequest, flags: u32) -> (b: bool)
    ensures
        b == spec_permissions_allow(request, flags),
{
    let user_page = (flags & PTE_U) != 0;
    let readable = (flags & PTE_R) != 0;
    let writable = (flags & PTE_W) != 0;
    let executable = (flags & PTE_X) != 0;
    let mxr = (request.status & MSTATUS_MXR) != 0;
    let sum = (request.status & MSTATUS_SUM) != 0;
    let kind_allowed = match request.access {
        MemoryAccess::Instruction => executable,
        MemoryAccess::Load => readable || (mxr && executable),
        MemoryAccess::Store => writable,
    };
    match request.privilege {
        PrivilegeMode::Machine => true,
        PrivilegeMode::Supervisor => if user_page {
            request.access != MemoryAccess::Instruction && sum && kind_allowed
        } else {
            kind_allowed
        },
        PrivilegeMode::User => user_page && kind_allowed,
    }
}

/// The page fault for a request.
pub fn page_fault(request: TranslationRequest) -> (t: Trap)
    ensures
        t == spec_page_fault(request),
{
    Trap::Exception(
        match request.access {
            MemoryAccess::Instruction => Exception::InstructionPageFault { addr: request.virtual_address },
            MemoryAccess::Load => Exception::LoadPageFault { addr: request.virtual_address },
            MemoryAccess::Store => Exception::StorePageFault { addr: request.virtual_address },
        },
    )
}

/// The virtual page number field at a walk level.
pub fn vpn(virtual_address: u32, level: u32) -> (v: u32)
    ensures
        v == spec_vpn(virtual_address, level),
        v < 0x400,
{
    if level == 0 {
        let v = (virtual_address >> 12) & 0x3ff;
        assert(v < 0x400) by (bit_vector) requires v == (virtual_address >> 12) & 0x3ff;
        v
    } else if level == 1 {
        let v = (virtual_address >> 22) & 0x3ff;
        assert(v < 0x400) by (bit_vector) requires v == (virtual_address >> 22) & 0x3ff;
        v
    } else {
        0
    }
}

/// The physical address a leaf PTE maps to, or `None` for a misaligned superpage.
pub fn translate_leaf(state: WalkState, pte: u32) -> (r: Option<u32>)
    ensures
        r == spec_translate_leaf(state, pte),
        r matches Some(pa) ==> pa & PAGE_OFFSET_MASK == state.request.virtual_address & PAGE_OFFSET_MASK,
{
    let va = state.request.virtual_address;
    let offset = va & PAGE_OFFSET_MASK;
    let ppn = (pte >> 10) & PTE_PPN_MASK;
    let ppn1 = ppn >> 10;
    let ppn0 = ppn & PTE_PPN0_MASK;
    if state.level == 1 {
        if ppn0 != 0 {
            None
        } else {
            let page = (ppn1 << 10) | vpn(va, 0);
            let pa = (page << PAGE_SHIFT) | offset;
            assert(((page << 12u32) | (va & 0xfffu32)) & 0xfffu32 == va & 0xfffu32) by (bit_vector);
            Some(pa)
        }
    } else if state.level == 0 {
        let page = (ppn1 << 10) | ppn0;
        let pa = (page << PAGE_SHIFT) | offset;
        assert(((page << 12u32) | (va & 0xfffu32)) & 0xfffu32 == va & 0xfffu32) by (bit_vector);
        Some(pa)
    } else {
        None
    }
}

fn access_bits(access: MemoryAccess) -> (b: u32)
    ensures
        b == access_bits_for(access),
{
    if access == MemoryAccess::Store {
        PTE_A | PTE_D
    } else {
        PTE_A
    }
}

/// The address of the level-1 PTE for a request: the root table named by
/// `satp`, indexed by the upper virtual page number.
pub open spec fn spec_root_pte_address(request: TranslationRequest) -> u32 {
    vstd::wrapping::u32_specs::wrapping_add(
        ((request.satp & SATP_PPN_MASK) << PAGE_SHIFT) as u32,
        (spec_vpn(request.virtual_address, 1) * 4) as u32,
    )
}

/// A cached entry that serves the request: it matches, permits it, and
/// already carries the accessed (and, for stores, dirty) bits.
pub open spec fn tlb_usable(entry: TlbEntry, request: TranslationRequest) -> bool {
    &&& entry_matches(entry, request)
    &&& spec_permissions_allow(request, entry.flags)
    &&& entry.flags & access_bits_for(request.access) == access_bits_for(request.access)
}

/// A cached entry that matches the request but forbids it.
pub open spec fn tlb_denies(entry: TlbEntry, request: TranslationRequest) -> bool {
    entry_matches(entry, request) && !spec_permissions_allow(request, entry.flags)
}

/// The physical address an entry gives a virtual address.
pub open spec fn tlb_physical(entry: TlbEntry, virtual_address: u32) -> u32 {
    (entry.physical_base & !entry.page_mask) | (virtual_address & entry.page_mask)
}

/// The first entry at or after slot `i` that serves the request.
pub open spec fn first_usable(tlb: Seq<Option<TlbEntry>>, request: TranslationRequest, i: int) -> Option<TlbEntry>
    decreases tlb.len() - i,
{
    if i < 0 || i >= tlb.len() {
        None
    } else if tlb[i] matches Some(e) && tlb_usable(e, request) {
        tlb[i]
    } else {
        first_usable(tlb, request, i + 1)
    }
}

/// A TLB lookup: the first serving entry's translation; otherwise a page
/// fault when some matching entry forbids the access; otherwise a miss.
pub open spec fn spec_tlb_lookup(tlb: Seq<Option<TlbEntry>>, request: TranslationRequest) -> Option<TranslationResult> {
    match first_usable(tlb, request, 0) {
        Some(e) => Some(TranslationResult::PhysicalAddress(tlb_physical(e, request.virtual_address))),
        None => if exists|i: int| 0 <= i < tlb.len() && (#[trigger] tlb[i] matches Some(e) && tlb_denies(e, request)) {
            Some(TranslationResult::PageFault(spec_page_fault(request)))
        } else {
            None
        },
    }
}

/// The entry a completed walk caches: a superpage at level 1, a page at
/// level 0, tagged with the ASID and root of `satp`.
pub open spec fn spec_walk_entry(state: WalkState, flags: u32, physical_address: u32) -> TlbEntry {
    let page_mask = if state.level == 1 { SUPERPAGE_OFFSET_MASK } else { PAGE_OFFSET_MASK };
    TlbEntry {
        asid: (state.request.satp >> SATP_ASID_SHIFT) & SATP_ASID_MASK,
        root_ppn: state.request.satp & SATP_PPN_MASK,
        global: (flags & PTE_G) != 0,
        virtual_base: state.request.virtual_address & !page_mask,
        physical_base: physical_address & !page_mask,
        page_mask,
        flags,
    }
}

/// What translating `virtual_address` gives without touching the bus: with
/// no walk in progress, the address itself when translation is off, or the
/// TLB's answer. `None` when a walk is needed.
pub open spec fn translation_without_walk(
    walker: PageWalker,
    csrs: CsrModel,
    privilege: PrivilegeMode,
    virtual_address: u32,
    access: MemoryAccess,
) -> Option<TranslationResult> {
    if walker.spec_active() is Some {
        None
    } else if !spec_translation_enabled(csrs.supervisor.satp, effective_privilege(csrs.machine.mstatus, privilege, access)) {
        Some(TranslationResult::PhysicalAddress(virtual_address))
    } else {
        spec_tlb_lookup(walker.spec_tlb(), spec_request(csrs, privilege, virtual_address, access))
    }
}

/// The request a translation of `virtual_address` builds from the CSRs.
pub open spec fn spec_request(csrs: CsrModel, privilege: PrivilegeMode, virtual_address: u32, access: MemoryAccess) -> TranslationRequest {
    TranslationRequest {
        satp: csrs.supervisor.satp,
        status: csrs.machine.mstatus & (MSTATUS_SUM | MSTATUS_MXR),
        privilege: effective_privilege(csrs.machine.mstatus, privilege, access),
        virtual_address,
        access,
    }
}

proof fn lemma_first_usable_step(tlb: Seq<Option<TlbEntry>>, request: TranslationRequest, i: int)
    requires
        0 <= i < tlb.len(),
    ensures
        first_usable(tlb, request, i) == if tlb[i] matches Some(e) && tlb_usable(e, request) {
            tlb[i]
        } else {
            first_usable(tlb, request, i + 1)
        },
{
}

/// The address of the level-1 PTE for the request.
fn root_pte_address(request: TranslationRequest) -> (a: u32)
    ensures
        a == spec_root_pte_address(request),
{
    let root_table = (request.satp & SATP_PPN_MASK) << PAGE_SHIFT;
    root_table.wrapping_add(vpn(request.virtual_address, 1) * 4)
}

/// What a page-table entry read during a walk leads to.
#[derive(Debug, Clone, Copy, PartialEq, Eq, Structural)]
pub enum PteOutcome {
    /// The entry is invalid, reserved, misaligned or not permitted: a page fault.
    Fault,
    /// The entry points at the next-level table: continue the walk there.
    Descend(WalkState),
    /// A permitted leaf whose accessed/dirty bits are already set.
    Leaf { physical_address: u32, flags: u32 },
    /// A permitted leaf whose accessed/dirty bits must first be written back.
    UpdateLeaf(WalkState),
}

/// The classification of the entry `pte` read at `state`: the Sv32 walk step.
pub open spec fn spec_pte_outcome(state: WalkState, pte: u32) -> PteOutcome {
    let flags = pte & 0xff;
    if flags & PTE_V == 0 || (flags & PTE_R == 0 && flags & PTE_W != 0) {
        PteOutcome::Fault
    } else if flags & (PTE_R | PTE_X) != 0 {
        match spec_translate_leaf(state, pte) {
            None => PteOutcome::Fault,
            Some(physical_address) => if !spec_permissions_allow(state.request, flags) {
                PteOutcome::Fault
            } else {
                let bits = access_bits_for(state.request.access);
                if flags & bits != bits {
                    PteOutcome::UpdateLeaf(
                        WalkState {
                            phase: WalkPhase::WriteLeaf { physical_address, flags: flags | bits, value: pte | bits },
                            ..state
                        },
                    )
                } else {
                    PteOutcome::Leaf { physical_address, flags }
                }
            },
        }
    } else if state.level == 0 {
        PteOutcome::Fault
    } else {
        let next_table_base = ((pte >> 10) & PTE_PPN_MASK) << PAGE_SHIFT;
        PteOutcome::Descend(
            WalkState {
                request: state.request,
                level: (state.level - 1) as u32,
                pte_address: vstd::wrapping::u32_specs::wrapping_add(
                    next_table_base,
                    (spec_vpn(state.request.virtual_address, (state.level - 1) as u32) * 4) as u32,
                ),
                phase: WalkPhase::ReadPte,
            },
        )
    }
}

/// Classify the entry `pte` read at `state`.
pub fn pte_outcome(state: WalkState, pte: u32) -> (r: PteOutcome)
    ensures
        r == spec_pte_outcome(state, pte),
        r matches PteOutcome::Leaf { physical_address, .. } ==> physical_address & PAGE_OFFSET_MASK
            == state.request.virtual_address & PAGE_OFFSET_MASK,
        r matches PteOutcome::UpdateLeaf(next) ==> {
            &&& next.request == state.request
            &&& next.level == state.level
            &&& next.pte_address == state.pte_address
            &&& next.phase matches WalkPhase::WriteLeaf { physical_address, .. } && physical_address
                & PAGE_OFFSET_MASK == state.request.virtual_address & PAGE_OFFSET_MASK
        },
        r matches PteOutcome::Descend(next) ==> next.request == state.request && next.level < state.level
            && next.phase is ReadPte,
{
    let flags = pte & 0xff;
    if (flags & PTE_V) == 0 || ((flags & PTE_R) == 0 && (flags & PTE_W) != 0) {
        return PteOutcome::Fault;
    }
    if (flags & (PTE_R | PTE_X)) != 0 {
        let physical_address = match translate_leaf(state, pte) {
            Some(pa) => pa,
            None => return PteOutcome::Fault,
        };
        if !permissions_allow(state.request, flags) {
            return PteOutcome::Fault;
        }
        let bits = access_bits(state.request.access);
        if (flags & bits) != bits {
            return PteOutcome::UpdateLeaf(
                WalkState {
                    phase: WalkPhase::WriteLeaf { physical_address, flags: flags | bits, value: pte | bits },
                    ..state
                },
            );
        }
        return PteOutcome::Leaf { physical_address, flags };
    }
    if state.level == 0 {
        return PteOutcome::Fault;
    }
    let next_level = state.level - 1;
    let next_table_base = ((pte >> 10) & PTE_PPN_MASK) << PAGE_SHIFT;
    let vpn_index = vpn(state.request.virtual_address, next_level);
    PteOutcome::Descend(
        WalkState {
            request: state.request,
            level: next_level,
            pte_address: next_table_base.wrapping_add(vpn_index * 4),
            phase: WalkPhase::ReadPte,
        },
    )
}

/// Whether a walk step from `state` that read an entry classified as
/// `outcome` ends as `r` with `active` left in progress.
pub open spec fn step_follows(
    state: WalkState,
    outcome: PteOutcome,
    drain_only: bool,
    r: StepResult,
    active: Option<WalkState>,
) -> bool {
    let fault = if drain_only { StepResult::Drained } else { StepResult::PageFault(spec_page_fault(state.request)) };
    match outcome {
        PteOutcome::Fault => active is None && r == fault,
        PteOutcome::Leaf { physical_address, .. } => active is None && r == (if drain_only {
            StepResult::Drained
        } else {
            StepResult::Ready(physical_address)
        }),
        PteOutcome::Descend(next) => active == Some(next) && r == StepResult::Drained,
        PteOutcome::UpdateLeaf(next) => match next.phase {
            WalkPhase::WriteLeaf { physical_address, .. } => {
                ||| (r == StepResult::Stall && active == Some(next))
                ||| (active is None && (r == fault || r == (if drain_only {
                    StepResult::Drained
                } else {
                    StepResult::Ready(physical_address)
                })))
            },
            WalkPhase::ReadPte => false,
        },
    }
}

/// What one walk step produced.
pub enum StepResult {
    Stall,
    Drained,
    Ready(u32),
    PageFault(Trap),
}

/// A page-table walker with a small round-robin TLB.
#[derive(Debug)]
pub struct PageWalker {
    active: Option<WalkState>,
    tlb: [Option<TlbEntry>; 8],
    next_tlb_entry: usize,
}

impl Default for PageWalker {
    fn default() -> (w: Self)
        ensures
            w.spec_active() is None,
            forall|i: int| 0 <= i < w.spec_tlb().len() ==> w.spec_tlb()[i] is None,
    {
        PageWalker::new()
    }
}

/// Work left in a walk: a leaf write is one step, a PTE read at level `l` at most `2 + 2l`.
pub open spec fn walk_budget(w: WalkState) -> nat {
    match w.phase {
        WalkPhase::WriteLeaf { .. } => 1,
        WalkPhase::ReadPte => (2 + 2 * w.level) as nat,
    }
}

impl PageWalker {
    #[verifier::type_invariant]
    spec fn inv(self) -> bool {
        &&& self.next_tlb_entry < 8
        &&& forall|i: int| 0 <= i < 8 ==> (#[trigger] self.tlb@[i] matches Some(e) ==> (e.page_mask
            == PAGE_OFFSET_MASK || e.page_mask == SUPERPAGE_OFFSET_MASK))
        &&& self.active matches Some(w) ==> w.level <= 1
        &&& self.active matches Some(w) ==> (w.phase matches WalkPhase::WriteLeaf { physical_address, .. }
            ==> physical_address & PAGE_OFFSET_MASK == w.request.virtual_address & PAGE_OFFSET_MASK)
    }

    /// The walk in progress, if any.
    pub closed spec fn spec_active(self) -> Option<WalkState> {
        self.active
    }

    /// The cached translations.
    pub closed spec fn spec_tlb(self) -> Seq<Option<TlbEntry>> {
        self.tlb@
    }

    /// The slot the next cached translation replaces.
    pub closed spec fn spec_next_tlb(self) -> usize {
        self.next_tlb_entry
    }

    /// A walker with no walk in progress and an empty TLB.
    pub fn new() -> (w: Self)
        ensures
            w.spec_active() is None,
            forall|i: int| 0 <= i < w.spec_tlb().len() ==> w.spec_tlb()[i] is None,
    {
        PageWalker { active: None, tlb: [None; 8], next_tlb_entry: 0 }
    }

    /// Abandon any walk and drop every cached translation.
    pub fn reset(&mut self)
        ensures
            final(self).spec_active() is None,
            forall|i: int| 0 <= i < final(self).spec_tlb().len() ==> final(self).spec_tlb()[i] is None,
    {
        proof {
            use_type_invariant(&*self);
        }
        self.active = None;
        self.tlb = [None; 8];
        self.next_tlb_entry = 0;
    }

    /// Drop every cached translation.
    pub fn flush(&mut self)
        ensures
            final(self).spec_active() == old(self).spec_active(),
            forall|i: int| 0 <= i < final(self).spec_tlb().len() ==> final(self).spec_tlb()[i] is None,
    {
        proof {
            use_type_invariant(&*self);
        }
        self.tlb = [None; 8];
    }

    /// Drop the cached translations selected by an `sfence.vma`: those covering
    /// `virtual_address` (all when `None`) in address space `asid` (all when
    /// `None`; global entries survive an address-space-specific fence).
    pub fn flush_selected(&mut self, virtual_address: Option<u32>, asid: Option<u32>)
        ensures
            final(self).spec_active() == old(self).spec_active(),
            final(self).spec_tlb().len() == old(self).spec_tlb().len(),
            forall|i: int| 0 <= i < final(self).spec_tlb().len() ==> #[trigger] final(self).spec_tlb()[i]
                == fenced(old(self).spec_tlb()[i], virtual_address, asid),
    {
        proof {
            use_type_invariant(&*self);
        }
        let mut i: usize = 0;
        while i < 8
            invariant
                i <= 8,
                self.active == old(self).spec_active(),
                self.next_tlb_entry < 8,
                self.tlb@.len() == 8,
                forall|k: int| 0 <= k < 8 ==> (#[trigger] self.tlb@[k] matches Some(e) ==> (e.page_mask
                    == PAGE_OFFSET_MASK || e.page_mask == SUPERPAGE_OFFSET_MASK)),
                self.active matches Some(w) ==> w.level <= 1,
                self.active matches Some(w) ==> (w.phase matches WalkPhase::WriteLeaf { physical_address, .. }
                    ==> physical_address & PAGE_OFFSET_MASK == w.request.virtual_address & PAGE_OFFSET_MASK),
                forall|j: int| 0 <= j < 8 ==> #[trigger] self.tlb@[j] == if j < i {
                    fenced(old(self).spec_tlb()[j], virtual_address, asid)
                } else {
                    old(self).spec_tlb()[j]
                },
            decreases 8 - i,
        {
            if let Some(entry) = self.tlb[i] {
                if fence_matches(entry, virtual_address, asid) {
                    self.tlb[i] = None;
                }
            }
            i = i + 1;
        }
    }

    fn lookup_tlb(&self, request: TranslationRequest) -> (r: Option<TranslationResult>)
        ensures
            r == spec_tlb_lookup(self.spec_tlb(), request),
            r matches Some(TranslationResult::PhysicalAddress(pa)) ==> pa & PAGE_OFFSET_MASK
                == request.virtual_address & PAGE_OFFSET_MASK,
            r matches Some(TranslationResult::PageFault(t)) ==> t == spec_page_fault(request),
            !(r matches Some(TranslationResult::Stall)),
    {
        proof {
            use_type_invariant(self);
        }
        let mut saw_permission_fault = false;
        let mut i: usize = 0;
        while i < 8
            invariant
                i <= 8,
                self.tlb@.len() == 8,
                forall|k: int| 0 <= k < 8 ==> (#[trigger] self.tlb@[k] matches Some(e) ==> (e.page_mask
                    == PAGE_OFFSET_MASK || e.page_mask == SUPERPAGE_OFFSET_MASK)),
                first_usable(self.tlb@, request, 0) == first_usable(self.tlb@, request, i as int),
                saw_permission_fault == exists|k: int| 0 <= k < i && (#[trigger] self.tlb@[k] matches Some(e)
                    && tlb_denies(e, request)),
            decreases 8 - i,
        {
            proof {
                lemma_first_usable_step(self.tlb@, request, i as int);
            }
            if let Some(entry) = self.tlb[i] {
                if entry_hit(entry, request) {
                    if !permissions_allow(request, entry.flags) {
                        saw_permission_fault = true;
                    } else if (entry.flags & access_bits(request.access)) == access_bits(request.access) {
                        let va = request.virtual_address;
                        let mask = entry.page_mask;
                        let base = entry.physical_base;
                        let pa = (base & !mask) | (va & mask);
                        assert(((base & !mask) | (va & mask)) & 0xfffu32 == va & 0xfffu32) by (bit_vector)
                            requires mask == 0xfffu32 || mask == 0x3f_ffffu32;
                        return Some(TranslationResult::PhysicalAddress(pa));
                    }
                }
            }
            i = i + 1;
        }
        assert(first_usable(self.tlb@, request, 8) is None);
        if saw_permission_fault {
            Some(TranslationResult::PageFault(page_fault(request)))
        } else {
            None
        }
    }

    fn insert_tlb(&mut self, state: WalkState, flags: u32, physical_address: u32)
        ensures
            final(self).spec_active() == old(self).spec_active(),
            state.level <= 1 ==> {
                &&& final(self).spec_tlb() == old(self).spec_tlb().update(
                    old(self).spec_next_tlb() as int,
                    Some(spec_walk_entry(state, flags, physical_address)),
                )
                &&& final(self).spec_next_tlb() == (old(self).spec_next_tlb() + 1) % 8
            },
            state.level > 1 ==> final(self).spec_tlb() == old(self).spec_tlb() && final(self).spec_next_tlb()
                == old(self).spec_next_tlb(),
    {
        proof {
            use_type_invariant(&*self);
        }
        let page_mask = if state.level == 1 {
            SUPERPAGE_OFFSET_MASK
        } else if state.level == 0 {
            PAGE_OFFSET_MASK
        } else {
            return ;
        };
        let entry = TlbEntry {
            asid: (state.request.satp >> SATP_ASID_SHIFT) & SATP_ASID_MASK,
            root_ppn: state.request.satp & SATP_PPN_MASK,
            global: (flags & PTE_G) != 0,
            virtual_base: state.request.virtual_address & !page_mask,
            physical_base: physical_address & !page_mask,
            page_mask,
            flags,
        };
        let slot = self.next_tlb_entry;
        self.tlb[slot] = Some(entry);
        self.next_tlb_entry = (slot + 1) % 8;
    }

    /// Translate a virtual address for an access made at `privilege`, walking
    /// the page table through `bus` on a TLB miss. The walk may take several
    /// calls when the bus is busy; a call on a different request first drains
    /// the walk in progress.
    pub fn translate<B: Bus>(
        &mut self,
        bus: &mut B,
        csrs: &CsrFile,
        privilege: PrivilegeMode,
        virtual_address: u32,
        access: MemoryAccess,
    ) -> (r: Result<TranslationResult, BusError>)
        ensures
            r is Ok,
            old(bus).spec_keeps_log() ==> final(bus).spec_keeps_log() && log_grows(old(bus).spec_log(), final(bus).spec_log()),
            !spec_translation_enabled(
                csrs@.supervisor.satp,
                effective_privilege(csrs@.machine.mstatus, privilege, access),
            ) ==> (r matches Ok(TranslationResult::PhysicalAddress(pa)) ==> pa == virtual_address),
            r matches Ok(TranslationResult::PhysicalAddress(pa)) ==> pa & PAGE_OFFSET_MASK
                == virtual_address & PAGE_OFFSET_MASK,
            r matches Ok(TranslationResult::PageFault(t)) ==> t == spec_page_fault(
                TranslationRequest {
                    satp: csrs@.supervisor.satp,
                    status: csrs@.machine.mstatus & (MSTATUS_SUM | MSTATUS_MXR),
                    privilege: effective_privilege(csrs@.machine.mstatus, privilege, access),
                    virtual_address,
                    access,
                },
            ),
            old(self).spec_active() is None && !spec_translation_enabled(
                csrs@.supervisor.satp,
                effective_privilege(csrs@.machine.mstatus, privilege, access),
            ) ==> r == Ok::<TranslationResult, BusError>(TranslationResult::PhysicalAddress(virtual_address))
                && *final(bus) == *old(bus),
            translation_without_walk(*old(self), csrs@, privilege, virtual_address, access) matches Some(t) ==> r
                == Ok::<TranslationResult, BusError>(t) && *final(bus) == *old(bus) && *final(self) == *old(self),
            old(self).spec_active() is None && spec_translation_enabled(
                csrs@.supervisor.satp,
                effective_privilege(csrs@.machine.mstatus, privilege, access),
            ) ==> match spec_tlb_lookup(old(self).spec_tlb(), spec_request(csrs@, privilege, virtual_address, access)) {
                Some(hit) => r == Ok::<TranslationResult, BusError>(hit) && *final(self) == *old(self) && *final(bus)
                    == *old(bus),
                None => r == Ok::<TranslationResult, BusError>(TranslationResult::Stall) ==> (final(self).spec_active() matches Some(
                    w,
                ) && w.request == spec_request(csrs@, privilege, virtual_address, access)),
            },
    {
        let ghost mut fresh = true;
        let satp = csrs.read(CsrAddress::Satp);
        let mstatus = csrs.read(CsrAddress::Mstatus);
        let effective = if privilege == PrivilegeMode::Machine && access != MemoryAccess::Instruction
            && (mstatus & MSTATUS_MPRV) != 0 {
            decode_mpp((mstatus >> 11) & 3)
        } else {
            privilege
        };
        let request = TranslationRequest {
            satp,
            status: mstatus & (MSTATUS_SUM | MSTATUS_MXR),
            privilege: effective,
            virtual_address,
            access,
        };
        loop
            invariant
                request.satp == csrs@.supervisor.satp,
                request.virtual_address == virtual_address,
                request.access == access,
                request.privilege == effective_privilege(csrs@.machine.mstatus, privilege, access),
                request.status == csrs@.machine.mstatus & (MSTATUS_SUM | MSTATUS_MXR),
                effective == request.privilege,
                satp == request.satp,
                request == spec_request(csrs@, privilege, virtual_address, access),
                fresh ==> *self == *old(self) && *bus == *old(bus),
                old(bus).spec_keeps_log() ==> bus.spec_keeps_log() && log_grows(old(bus).spec_log(), bus.spec_log()),
                !fresh ==> !(old(self).spec_active() is None && (!spec_translation_enabled(request.satp, request.privilege)
                    || spec_tlb_lookup(old(self).spec_tlb(), request) is Some)),
                !fresh && old(self).spec_active() is None ==> (self.active matches Some(w) ==> w.request == request),
            decreases
                match self.active {
                    Some(w) => if w.request != request { walk_budget(w) + 5 } else { walk_budget(w) },
                    None => 5nat,
                },
        {
            proof {
                use_type_invariant(&*self);
            }
            if let Some(active) = self.active {
                if active.request != request {
                    proof {
                        fresh = false;
                    }
                    match self.step(bus, true) {
                        StepResult::Stall => return Ok(TranslationResult::Stall),
                        _ => continue,
                    }
                }
            }
            if !translation_enabled(satp, effective) {
                return Ok(TranslationResult::PhysicalAddress(virtual_address));
            }
            if self.active.is_none() {
                if let Some(result) = self.lookup_tlb(request) {
                    return Ok(result);
                }
                self.active = Some(
                    WalkState {
                        request,
                        level: 1,
                        pte_address: root_pte_address(request),
                        phase: WalkPhase::ReadPte,
                    },
                );
            }
            proof {
                fresh = false;
            }
            match self.step(bus, false) {
                StepResult::Ready(physical_address) => {
                    return Ok(TranslationResult::PhysicalAddress(physical_address));
                },
                StepResult::PageFault(trap) => return Ok(TranslationResult::PageFault(trap)),
                StepResult::Stall => return Ok(TranslationResult::Stall),
                StepResult::Drained => continue,
            }
        }
    }

    /// Advance the active walk by one PTE read or leaf write.
    fn step<B: Bus>(&mut self, bus: &mut B, drain_only: bool) -> (r: StepResult)
        requires
            old(self).spec_active() is Some,
        ensures
            match r {
                StepResult::Stall => final(self).spec_active() matches Some(w) && w.request == old(
                    self,
                ).spec_active()->0.request,
                StepResult::Drained => match final(self).spec_active() {
                    None => drain_only,
                    Some(w) => w.request == old(self).spec_active()->0.request && walk_budget(w)
                        < walk_budget(old(self).spec_active()->0),
                },
                StepResult::Ready(pa) => !drain_only && final(self).spec_active() is None && pa
                    & PAGE_OFFSET_MASK == old(self).spec_active()->0.request.virtual_address
                    & PAGE_OFFSET_MASK,
                StepResult::PageFault(t) => !drain_only && final(self).spec_active() is None && t
                    == spec_page_fault(old(self).spec_active()->0.request),
            },
            r is Ready ==> final(self).spec_next_tlb() == (old(self).spec_next_tlb() + 1) % 8,
            r matches StepResult::Ready(pa) ==> final(self).spec_tlb() == old(self).spec_tlb().update(
                old(self).spec_next_tlb() as int,
                Some(
                    spec_walk_entry(
                        old(self).spec_active()->0,
                        final(self).spec_tlb()[old(self).spec_next_tlb() as int]->0.flags,
                        pa,
                    ),
                ),
            ),
            !(r is Ready) ==> final(self).spec_tlb() == old(self).spec_tlb() && final(self).spec_next_tlb()
                == old(self).spec_next_tlb(),
            old(bus).spec_keeps_log() ==> log_grows(old(bus).spec_log(), final(bus).spec_log()),
            old(bus).spec_keeps_log() ==> final(bus).spec_keeps_log() && final(bus).spec_log().len() >= old(
                bus,
            ).spec_log().len() && final(bus).spec_log().subrange(0, old(bus).spec_log().len() as int) == old(
                bus,
            ).spec_log(),
            old(bus).spec_keeps_log() && old(self).spec_active()->0.pte_address % 4 == 0 ==> final(bus).spec_log().len()
                > old(bus).spec_log().len() && final(bus).spec_log()[old(bus).spec_log().len() as int] == match old(
                self,
            ).spec_active()->0.phase {
                WalkPhase::ReadPte => ByteAccess::Read(old(self).spec_active()->0.pte_address as u64),
                WalkPhase::WriteLeaf { value, .. } => ByteAccess::Write(
                    old(self).spec_active()->0.pte_address as u64,
                    word_byte(value, 0),
                ),
            },
            old(self).spec_active()->0.phase is ReadPte ==> {
                ||| (r is Stall && *final(self) == *old(self))
                ||| exists|pte: u32|
                    step_follows(
                        old(self).spec_active()->0,
                        #[trigger] spec_pte_outcome(old(self).spec_active()->0, pte),
                        drain_only,
                        r,
                        final(self).spec_active(),
                    )
            },
    {
        proof {
            use_type_invariant(&*self);
        }
        let state = match self.active {
            Some(s) => s,
            None => return StepResult::Stall,
        };
        if let WalkPhase::WriteLeaf { physical_address, flags, value } = state.phase {
            return self.finish_leaf_update(bus, state, physical_address, flags, value, drain_only);
        }
        let pte = match bus.load32(state.pte_address as u64) {
            Ok(pte) => pte,
            Err(BusError::Busy { .. }) => return StepResult::Stall,
            Err(_) => {
                self.active = None;
                proof {
                    assert(0u32 & 0xff == 0 && 0u32 & PTE_V == 0) by (bit_vector);
                    assert(spec_pte_outcome(state, 0) == PteOutcome::Fault);
                }
                return if drain_only {
                    StepResult::Drained
                } else {
                    StepResult::PageFault(page_fault(state.request))
                };
            },
        };
        match pte_outcome(state, pte) {
            PteOutcome::Fault => {
                self.active = None;
                if drain_only {
                    StepResult::Drained
                } else {
                    StepResult::PageFault(page_fault(state.request))
                }
            },
            PteOutcome::UpdateLeaf(next) => {
                let (physical_address, flags, value) = match next.phase {
                    WalkPhase::WriteLeaf { physical_address, flags, value } => (physical_address, flags, value),
                    WalkPhase::ReadPte => {
                        return StepResult::Stall;
                    },
                };
                self.active = Some(next);
                self.finish_leaf_update(bus, next, physical_address, flags, value, drain_only)
            },
            PteOutcome::Leaf { physical_address, flags } => {
                if !drain_only {
                    self.insert_tlb(state, flags, physical_address);
                }
                proof {
                    use_type_invariant(&*self);
                }
                self.active = None;
                if drain_only {
                    StepResult::Drained
                } else {
                    StepResult::Ready(physical_address)
                }
            },
            PteOutcome::Descend(next) => {
                self.active = Some(next);
                StepResult::Drained
            },
        }
    }

    fn finish_leaf_update<B: Bus>(
        &mut self,
        bus: &mut B,
        state: WalkState,
        physical_address: u32,
        flags: u32,
        value: u32,
        drain_only: bool,
    ) -> (r: StepResult)
        requires
            old(self).spec_active() == Some(state),
            physical_address & PAGE_OFFSET_MASK == state.request.virtual_address & PAGE_OFFSET_MASK,
            state.phase is WriteLeaf,
            state.level <= 1,
        ensures
            match r {
                StepResult::Stall => *final(self) == *old(self),
                StepResult::Drained => drain_only && final(self).spec_active() is None,
                StepResult::Ready(pa) => !drain_only && final(self).spec_active() is None && pa
                    == physical_address,
                StepResult::PageFault(t) => !drain_only && final(self).spec_active() is None && t
                    == spec_page_fault(state.request),
            },
            r is Ready ==> final(self).spec_tlb() == old(self).spec_tlb().update(
                old(self).spec_next_tlb() as int,
                Some(spec_walk_entry(state, flags, physical_address)),
            ) && final(self).spec_next_tlb() == (old(self).spec_next_tlb() + 1) % 8,
            !(r is Ready) ==> final(self).spec_tlb() == old(self).spec_tlb() && final(self).spec_next_tlb()
                == old(self).spec_next_tlb(),
            old(bus).spec_keeps_log() ==> final(bus).spec_keeps_log() && logged(
                old(bus).spec_log(),
                final(bus).spec_log(),
                aligned_accesses(state.pte_address % 4 == 0, byte_writes(state.pte_address as u64, word_bytes(value))),
                false,
            ),
    {
        proof {
            use_type_invariant(&*self);
        }
        match bus.store32(state.pte_address as u64, value) {
            Ok(()) => {
                if !drain_only {
                    self.insert_tlb(state, flags, physical_address);
                }
                proof {
                    use_type_invariant(&*self);
                }
                self.active = None;
                if drain_only {
                    StepResult::Drained
                } else {
                    StepResult::Ready(physical_address)
                }
            },
            Err(BusError::Busy { .. }) => StepResult::Stall,
            Err(_) => {
                self.active = None;
                if drain_only {
                    StepResult::Drained
                } else {
                    StepResult::PageFault(page_fault(state.request))
                }
            },
        }
    }
}

fn decode_mpp(bits: u32) -> (p: PrivilegeMode)
    ensures
        p == privilege_from_bits(bits),
{
    if bits == 0 {
        PrivilegeMode::User
    } else if bits == 1 {
        PrivilegeMode::Supervisor
    } else {
        PrivilegeMode::Machine
    }
}

/// A TLB slot after an `sfence.vma` with the given operands.
pub open spec fn fenced(e: Option<TlbEntry>, virtual_address: Option<u32>, asid: Option<u32>) -> Option<TlbEntry> {
    match e {
        Some(entry) => if fence_selects(entry, virtual_address, asid) { None } else { e },
        None => None,
    }
}

/// Whether an `sfence.vma` with the given address and ASID operands drops an entry.
pub open spec fn fence_selects(entry: TlbEntry, virtual_address: Option<u32>, asid: Option<u32>) -> bool {
    let address_hit = match virtual_address {
        None => true,
        Some(va) => (va & !entry.page_mask) == entry.virtual_base,
    };
    let asid_hit = match asid {
        None => true,
        Some(a) => !entry.global && entry.asid == a,
    };
    address_hit && asid_hit
}

fn fence_matches(entry: TlbEntry, virtual_address: Option<u32>, asid: Option<u32>) -> (b: bool)
    ensures
        b == fence_selects(entry, virtual_address, asid),
{
    let address_hit = match virtual_address {
        None => true,
        Some(va) => (va & !entry.page_mask) == entry.virtual_base,
    };
    let asid_hit = match asid {
        None => true,
        Some(a) => !entry.global && entry.asid == a,
    };
    address_hit && asid_hit
}

fn entry_hit(entry: TlbEntry, request: TranslationRequest) -> (b: bool)
    ensures
        b == entry_matches(entry, request),
{
    (entry.global || (entry.asid == ((request.satp >> SATP_ASID_SHIFT) & SATP_ASID_MASK)
        && entry.root_ppn == request.satp & SATP_PPN_MASK)) && (request.virtual_address & !entry.page_mask) == entry.virtual_base
}

/// Page protection by privilege: in user mode a page whose PTE lacks the U
/// bit is never accessible, whatever its R/W/X bits and MXR/SUM; in
/// supervisor mode a user page is never executable and is readable or
/// writable only with SUM set; a store needs W and a fetch needs X below
/// machine mode; machine mode is never refused.
pub proof fn page_protection_by_privilege(request: TranslationRequest, flags: u32)
    ensures
        request.privilege == PrivilegeMode::User && flags & 0x10 == 0 ==> !spec_permissions_allow(request, flags),
        request.privilege == PrivilegeMode::Supervisor && flags & 0x10 != 0 && (request.access == MemoryAccess::Instruction
            || request.status & 0x4_0000 == 0) ==> !spec_permissions_allow(request, flags),
        request.privilege != PrivilegeMode::Machine && request.access == MemoryAccess::Store && flags & 0x4 == 0
            ==> !spec_permissions_allow(request, flags),
        request.privilege != PrivilegeMode::Machine && request.access == MemoryAccess::Instruction && flags & 0x8 == 0
            ==> !spec_permissions_allow(request, flags),
        request.privilege == PrivilegeMode::Machine ==> spec_permissions_allow(request, flags),
{
}

/// A walk that reaches a leaf PTE without the U bit for a user-mode
/// request ends in a page fault.
pub proof fn user_walk_faults_on_supervisor_leaf(state: WalkState, pte: u32)
    requires
        state.request.privilege == PrivilegeMode::User,
        pte & 0x10 == 0,
        pte & 0x0a != 0,
    ensures
        spec_pte_outcome(state, pte) == PteOutcome::Fault,
{
    let flags = pte & 0xff;
    assert(flags & 0x10 == 0 && flags & (0x2u32 | 0x8u32) != 0) by (bit_vector)
        requires flags == pte & 0xff, pte & 0x10 == 0, pte & 0x0a != 0;
}

/// Below machine mode a page of the access's own privilege grants what its
/// bits grant: a load reads a readable page (or, with MXR, an executable
/// one), a store writes a writable page and a fetch runs an executable one;
/// supervisor mode reaches a user page for loads and stores with SUM set.
pub proof fn page_protection_grants(request: TranslationRequest, flags: u32)
    ensures
        ({
            let own_page = if request.privilege == PrivilegeMode::User {
                flags & 0x10 != 0
            } else {
                flags & 0x10 == 0 || (request.access != MemoryAccess::Instruction && request.status & 0x4_0000 != 0)
            };
            let bit_set = match request.access {
                MemoryAccess::Load => flags & 0x2 != 0 || (request.status & 0x8_0000 != 0 && flags & 0x8 != 0),
                MemoryAccess::Store => flags & 0x4 != 0,
                MemoryAccess::Instruction => flags & 0x8 != 0,
            };
            request.privilege != PrivilegeMode::Machine ==> (spec_permissions_allow(request, flags) == (own_page && bit_set))
        }),
{
}

} // verus!
