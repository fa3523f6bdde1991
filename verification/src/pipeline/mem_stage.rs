//! The memory stage: translate the data address and perform the load or store.

use vstd::prelude::*;
use crate::bus::{Bus, BusError, ByteAccess, lemma_log_grows_trans, lemma_logged_grows, log_grows, aligned_accesses, byte_reads, byte_writes, half_bytes, logged, word_bytes};
use crate::csr_file::{CsrFile, MSTATUS_MXR, MSTATUS_SUM};
use crate::exception::{Exception, Trap};
use crate::exec::load_store::{byte_sign_extended, half_sign_extended, sign_extend_byte, sign_extend_half};
use crate::mmu::{MemoryAccess, PageWalker, TranslationRequest, TranslationResult, effective_privilege, spec_page_fault, translation_without_walk};
use crate::opcode::{InstructionKind, LoadKind, StoreKind};
use crate::pipeline::latches::{ExMemPayload, MemWbPayload};
use crate::privilege::PrivilegeMode;

verus! {

/// Outcome of the memory stage.
#[derive(Debug, Clone, Copy, PartialEq, Eq, Structural)]
pub enum MemoryEvent {
    Advance(MemWbPayload),
    Stall(ExMemPayload),
    Trap(Trap),
}

/// The payload handed on unchanged by an instruction without a memory access.
pub open spec fn passed_through(payload: ExMemPayload) -> MemWbPayload {
    MemWbPayload {
        decoded: payload.decoded,
        writeback_value: payload.writeback_value,
        csr_write: payload.csr_write,
        translation_fence: payload.translation_fence,
        next_pc: payload.next_pc,
    }
}

/// Whether `value` is a possible result of a load of the given width and signedness.
pub open spec fn loaded_value_shape(kind: LoadKind, value: u32) -> bool {
    match kind {
        LoadKind::Byte => exists|b: u8| value == byte_sign_extended(b),
        LoadKind::Half => exists|h: u16| value == half_sign_extended(h),
        LoadKind::Word => true,
        LoadKind::ByteUnsigned => value < 0x100,
        LoadKind::HalfUnsigned => value < 0x1_0000,
    }
}

/// The translation request of a data access of `payload`.
pub open spec fn data_request(
    csrs: crate::csr_file::CsrModel,
    privilege: PrivilegeMode,
    virtual_address: u32,
    access: MemoryAccess,
) -> TranslationRequest {
    TranslationRequest {
        satp: csrs.supervisor.satp,
        status: csrs.machine.mstatus & (MSTATUS_SUM | MSTATUS_MXR),
        privilege: effective_privilege(csrs.machine.mstatus, privilege, access),
        virtual_address,
        access,
    }
}

/// The traps a data access may raise: a page fault of its translation, or a
/// misaligned-address exception for the virtual address.
pub open spec fn data_access_trap(
    csrs: crate::csr_file::CsrModel,
    privilege: PrivilegeMode,
    virtual_address: u32,
    access: MemoryAccess,
    trap: Trap,
) -> bool {
    ||| trap == spec_page_fault(data_request(csrs, privilege, virtual_address, access))
    ||| (access == MemoryAccess::Load && trap == Trap::Exception(
        Exception::LoadAddressMisaligned { addr: virtual_address },
    ))
    ||| (access == MemoryAccess::Store && trap == Trap::Exception(
        Exception::StoreAddressMisaligned { addr: virtual_address },
    ))
}

/// The virtual address a load or store of `payload` accesses.
pub open spec fn data_address(payload: ExMemPayload) -> u32 {
    match payload.memory_address {
        Some(a) => a,
        None => 0,
    }
}

/// The event a load ends in, given what the bus answered for it: the loaded
/// value goes to write-back, a busy bus stalls with the payload kept, a
/// misaligned access traps at the virtual address, other failures propagate.
pub open spec fn load_event(payload: ExMemPayload, virtual_address: u32, answer: Result<u32, BusError>) -> Result<
    MemoryEvent,
    BusError,
> {
    match answer {
        Ok(value) => Ok(
            MemoryEvent::Advance(
                MemWbPayload {
                    decoded: payload.decoded,
                    writeback_value: Some(value),
                    csr_write: payload.csr_write,
                    translation_fence: payload.translation_fence,
                    next_pc: payload.next_pc,
                },
            ),
        ),
        Err(BusError::Busy { .. }) => Ok(MemoryEvent::Stall(payload)),
        Err(BusError::MisalignedAccess { .. }) => Ok(
            MemoryEvent::Trap(Trap::Exception(Exception::LoadAddressMisaligned { addr: virtual_address })),
        ),
        Err(error) => Err(error),
    }
}

/// The event a store ends in, given what the bus answered for it.
pub open spec fn store_event(payload: ExMemPayload, virtual_address: u32, answer: Result<(), BusError>) -> Result<
    MemoryEvent,
    BusError,
> {
    match answer {
        Ok(()) => Ok(
            MemoryEvent::Advance(
                MemWbPayload {
                    decoded: payload.decoded,
                    writeback_value: None,
                    csr_write: payload.csr_write,
                    translation_fence: payload.translation_fence,
                    next_pc: payload.next_pc,
                },
            ),
        ),
        Err(BusError::Busy { .. }) => Ok(MemoryEvent::Stall(payload)),
        Err(BusError::MisalignedAccess { .. }) => Ok(
            MemoryEvent::Trap(Trap::Exception(Exception::StoreAddressMisaligned { addr: virtual_address })),
        ),
        Err(error) => Err(error),
    }
}

/// The events a load or store of `payload` may end in: a stall while its
/// translation is walked, the page fault of its translation, or the event
/// of whatever the bus answered for the access (a loaded value of the load's
/// width and signedness).
pub open spec fn memory_outcome(
    csrs: crate::csr_file::CsrModel,
    privilege: PrivilegeMode,
    payload: ExMemPayload,
    r: Result<MemoryEvent, BusError>,
) -> bool {
    let access = if payload.decoded.kind is Load { MemoryAccess::Load } else { MemoryAccess::Store };
    ||| r == Ok::<MemoryEvent, BusError>(MemoryEvent::Stall(payload))
    ||| r == Ok::<MemoryEvent, BusError>(MemoryEvent::Trap(spec_page_fault(
        data_request(csrs, privilege, data_address(payload), access),
    )))
    ||| match payload.decoded.kind {
        InstructionKind::Load(kind) => exists|answer: Result<u32, BusError>|
            #![trigger load_event(payload, data_address(payload), answer)]
            r == load_event(payload, data_address(payload), answer) && (answer matches Ok(v) ==> loaded_value_shape(kind, v)),
        _ => exists|answer: Result<(), BusError>|
            #![trigger store_event(payload, data_address(payload), answer)]
            r == store_event(payload, data_address(payload), answer),
    }
}

/// Turn the bus's answer to a load into the stage's event.
pub fn load_outcome(payload: ExMemPayload, virtual_address: u32, answer: Result<u32, BusError>) -> (r: Result<
    MemoryEvent,
    BusError,
>)
    ensures
        r == load_event(payload, virtual_address, answer),
{
    match answer {
        Ok(value) => Ok(
            MemoryEvent::Advance(
                MemWbPayload {
                    decoded: payload.decoded,
                    writeback_value: Some(value),
                    csr_write: payload.csr_write,
                    translation_fence: payload.translation_fence,
                    next_pc: payload.next_pc,
                },
            ),
        ),
        Err(BusError::Busy { .. }) => Ok(MemoryEvent::Stall(payload)),
        Err(BusError::MisalignedAccess { .. }) => Ok(
            MemoryEvent::Trap(Trap::Exception(Exception::LoadAddressMisaligned { addr: virtual_address })),
        ),
        Err(error) => Err(error),
    }
}

/// Turn the bus's answer to a store into the stage's event.
pub fn store_outcome(payload: ExMemPayload, virtual_address: u32, answer: Result<(), BusError>) -> (r: Result<
    MemoryEvent,
    BusError,
>)
    ensures
        r == store_event(payload, virtual_address, answer),
{
    match answer {
        Ok(()) => Ok(
            MemoryEvent::Advance(
                MemWbPayload {
                    decoded: payload.decoded,
                    writeback_value: None,
                    csr_write: payload.csr_write,
                    translation_fence: payload.translation_fence,
                    next_pc: payload.next_pc,
                },
            ),
        ),
        Err(BusError::Busy { .. }) => Ok(MemoryEvent::Stall(payload)),
        Err(BusError::MisalignedAccess { .. }) => Ok(
            MemoryEvent::Trap(Trap::Exception(Exception::StoreAddressMisaligned { addr: virtual_address })),
        ),
        Err(error) => Err(error),
    }
}

/// The byte accesses a load of kind `kind` at `address` asks of the bus.
pub open spec fn load_accesses(kind: LoadKind, address: u64) -> Seq<ByteAccess> {
    match kind {
        LoadKind::Byte | LoadKind::ByteUnsigned => byte_reads(address, 1),
        LoadKind::Half | LoadKind::HalfUnsigned => aligned_accesses(address % 2 == 0, byte_reads(address, 2)),
        LoadKind::Word => aligned_accesses(address % 4 == 0, byte_reads(address, 4)),
    }
}

/// The byte accesses a store of kind `kind` of `value` at `address` asks of the bus.
pub open spec fn store_accesses(kind: StoreKind, address: u64, value: u32) -> Seq<ByteAccess> {
    match kind {
        StoreKind::Byte => byte_writes(address, seq![value as u8]),
        StoreKind::Half => aligned_accesses(address % 2 == 0, byte_writes(address, half_bytes(value as u16))),
        StoreKind::Word => aligned_accesses(address % 4 == 0, byte_writes(address, word_bytes(value))),
    }
}

/// The byte accesses the load or store of `payload` asks of the bus at the
/// physical address `physical_address`.
pub open spec fn data_accesses(payload: ExMemPayload, physical_address: u32) -> Seq<ByteAccess> {
    match payload.decoded.kind {
        InstructionKind::Load(kind) => load_accesses(kind, physical_address as u64),
        InstructionKind::Store(kind) => store_accesses(kind, physical_address as u64, payload.store_value),
        _ => Seq::empty(),
    }
}

fn load_value<B: Bus>(bus: &mut B, kind: LoadKind, address: u64) -> (r: Result<u32, BusError>)
    ensures
        r matches Ok(v) ==> loaded_value_shape(kind, v),
        old(bus).spec_keeps_log() ==> final(bus).spec_keeps_log() && logged(
            old(bus).spec_log(),
            final(bus).spec_log(),
            load_accesses(kind, address),
            r is Ok,
        ),
{
    proof {
        assert(old(bus).spec_log().push(ByteAccess::Read(address)) =~= old(bus).spec_log() + byte_reads(address, 1).take(1));
    }
    match kind {
        LoadKind::Byte => {
            let b = bus.load8(address)?;
            Ok(sign_extend_byte(b))
        },
        LoadKind::Half => {
            let h = bus.load16(address)?;
            Ok(sign_extend_half(h))
        },
        LoadKind::Word => bus.load32(address),
        LoadKind::ByteUnsigned => {
            let b = bus.load8(address)?;
            Ok(b as u32)
        },
        LoadKind::HalfUnsigned => {
            let h = bus.load16(address)?;
            Ok(h as u32)
        },
    }
}

fn store_value<B: Bus>(bus: &mut B, kind: StoreKind, address: u64, value: u32) -> (r: Result<(), BusError>)
    ensures
        old(bus).spec_keeps_log() ==> final(bus).spec_keeps_log() && logged(
            old(bus).spec_log(),
            final(bus).spec_log(),
            store_accesses(kind, address, value),
            r is Ok,
        ),
{
    proof {
        assert(old(bus).spec_log().push(ByteAccess::Write(address, value as u8)) =~= old(bus).spec_log() + byte_writes(
            address,
            seq![value as u8],
        ).take(1));
    }
    match kind {
        StoreKind::Byte => bus.store8(address, value as u8),
        StoreKind::Half => bus.store16(address, value as u16),
        StoreKind::Word => bus.store32(address, value),
    }
}

/// Perform the memory access of a load or store, or pass any other
/// instruction through. A busy bus or an unfinished page walk stalls the
/// stage with the payload kept; a misaligned access or a page fault traps;
/// other bus failures are returned as errors.
pub fn access<B: Bus>(
    bus: &mut B,
    walker: &mut PageWalker,
    csrs: &CsrFile,
    privilege: PrivilegeMode,
    payload: ExMemPayload,
) -> (r: Result<MemoryEvent, BusError>)
    ensures
        !(payload.decoded.kind is Load || payload.decoded.kind is Store) ==> r == Ok::<MemoryEvent, BusError>(
            MemoryEvent::Advance(passed_through(payload)),
        ) && *final(bus) == *old(bus) && *final(walker) == *old(walker),
        payload.decoded.kind matches InstructionKind::Load(kind) ==> {
            ||| r == Ok::<MemoryEvent, BusError>(MemoryEvent::Stall(payload))
            ||| r == Ok::<MemoryEvent, BusError>(MemoryEvent::Trap(spec_page_fault(
                data_request(csrs@, privilege, data_address(payload), MemoryAccess::Load),
            )))
            ||| exists|answer: Result<u32, BusError>|
                #![trigger load_event(payload, data_address(payload), answer)]
                r == load_event(payload, data_address(payload), answer) && (answer matches Ok(v)
                    ==> loaded_value_shape(kind, v))
        },
        (payload.decoded.kind is Load || payload.decoded.kind is Store) ==> memory_outcome(csrs@, privilege, payload, r),
        old(bus).spec_keeps_log() ==> final(bus).spec_keeps_log() && log_grows(old(bus).spec_log(), final(bus).spec_log()),
        (payload.decoded.kind is Load || payload.decoded.kind is Store) && old(bus).spec_keeps_log() ==> ({
            let access = if payload.decoded.kind is Load { MemoryAccess::Load } else { MemoryAccess::Store };
            translation_without_walk(*old(walker), csrs@, privilege, data_address(payload), access) matches Some(
                TranslationResult::PhysicalAddress(pa),
            ) ==> final(bus).spec_keeps_log() && logged(
                old(bus).spec_log(),
                final(bus).spec_log(),
                data_accesses(payload, pa),
                r matches Ok(MemoryEvent::Advance(_)),
            )
        }),
        payload.decoded.kind is Store ==> {
            ||| r == Ok::<MemoryEvent, BusError>(MemoryEvent::Stall(payload))
            ||| r == Ok::<MemoryEvent, BusError>(MemoryEvent::Trap(spec_page_fault(
                data_request(csrs@, privilege, data_address(payload), MemoryAccess::Store),
            )))
            ||| exists|answer: Result<(), BusError>|
                #![trigger store_event(payload, data_address(payload), answer)]
                r == store_event(payload, data_address(payload), answer)
        },
        r matches Ok(MemoryEvent::Stall(p)) ==> p == payload,
        r matches Ok(MemoryEvent::Advance(p)) ==> {
            &&& p.decoded == payload.decoded
            &&& p.csr_write == payload.csr_write
            &&& p.translation_fence == payload.translation_fence
            &&& p.next_pc == payload.next_pc
            &&& match payload.decoded.kind {
                InstructionKind::Load(kind) => p.writeback_value matches Some(v) && loaded_value_shape(kind, v),
                InstructionKind::Store(_) => p.writeback_value is None,
                _ => p.writeback_value == payload.writeback_value,
            }
        },
        r matches Ok(MemoryEvent::Trap(t)) ==> {
            &&& (payload.decoded.kind is Load || payload.decoded.kind is Store)
            &&& data_access_trap(
                csrs@,
                privilege,
                match payload.memory_address { Some(a) => a, None => 0 },
                if payload.decoded.kind is Load { MemoryAccess::Load } else { MemoryAccess::Store },
                t,
            )
        },
{
    match payload.decoded.kind {
        InstructionKind::Load(load_kind) => {
            let virtual_address = match payload.memory_address {
                Some(a) => a,
                None => 0,
            };
            let physical_address = match walker.translate(bus, csrs, privilege, virtual_address, MemoryAccess::Load)? {
                TranslationResult::PhysicalAddress(pa) => pa,
                TranslationResult::Stall => return Ok(MemoryEvent::Stall(payload)),
                TranslationResult::PageFault(trap) => return Ok(MemoryEvent::Trap(trap)),
            };
            let ghost mid = bus.spec_log();
            let answer = load_value(bus, load_kind, physical_address as u64);
            proof {
                if old(bus).spec_keeps_log() {
                    lemma_logged_grows(mid, bus.spec_log(), load_accesses(load_kind, physical_address as u64), answer is Ok);
                    lemma_log_grows_trans(old(bus).spec_log(), mid, bus.spec_log());
                }
            }
            load_outcome(payload, virtual_address, answer)
        },
        InstructionKind::Store(store_kind) => {
            let virtual_address = match payload.memory_address {
                Some(a) => a,
                None => 0,
            };
            let physical_address = match walker.translate(bus, csrs, privilege, virtual_address, MemoryAccess::Store)? {
                TranslationResult::PhysicalAddress(pa) => pa,
                TranslationResult::Stall => return Ok(MemoryEvent::Stall(payload)),
                TranslationResult::PageFault(trap) => return Ok(MemoryEvent::Trap(trap)),
            };
            let ghost mid = bus.spec_log();
            let answer = store_value(bus, store_kind, physical_address as u64, payload.store_value);
            proof {
                if old(bus).spec_keeps_log() {
                    lemma_logged_grows(
                        mid,
                        bus.spec_log(),
                        store_accesses(store_kind, physical_address as u64, payload.store_value),
                        answer is Ok,
                    );
                    lemma_log_grows_trans(old(bus).spec_log(), mid, bus.spec_log());
                }
            }
            store_outcome(payload, virtual_address, answer)
        },
        _ => Ok(
            MemoryEvent::Advance(
                MemWbPayload {
                    decoded: payload.decoded,
                    writeback_value: payload.writeback_value,
                    csr_write: payload.csr_write,
                    translation_fence: payload.translation_fence,
                    next_pc: payload.next_pc,
                },
            ),
        ),
    }
}

} // verus!
