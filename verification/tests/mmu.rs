use rvsim::bus::{Bus, BusError};
use rvsim::csr_address::CsrAddress;
use rvsim::csr_file::{CsrFile, MSTATUS_MXR, MSTATUS_SUM};
use rvsim::mmu::{
    MemoryAccess, PageWalker, TranslationRequest, TranslationResult, WalkPhase, WalkState, permissions_allow,
    translate_leaf, translation_enabled, PTE_A, PTE_D, PTE_R, PTE_U, PTE_V, PTE_W, PTE_X, SATP_MODE_SHIFT,
    SATP_MODE_SV32,
};
use rvsim::privilege::PrivilegeMode;

#[derive(Debug)]
struct CountingBus {
    bytes: Vec<u8>,
    load32_count: u32,
    store32_count: u32,
}

impl CountingBus {
    fn new(size: usize) -> Self {
        Self {
            bytes: vec![0; size],
            load32_count: 0,
            store32_count: 0,
        }
    }

    fn store_word(&mut self, addr: u32, value: u32) {
        let offset = addr as usize;
        self.bytes[offset..offset + 4].copy_from_slice(&value.to_le_bytes());
    }

    fn read_word(&self, addr: u32) -> u32 {
        let offset = addr as usize;
        u32::from_le_bytes(self.bytes[offset..offset + 4].try_into().unwrap_or([0; 4]))
    }
}

impl Bus for CountingBus {
    fn load8(&mut self, addr: u64) -> Result<u8, BusError> {
        Ok(self.bytes[addr as usize])
    }

    fn store8(&mut self, addr: u64, value: u8) -> Result<(), BusError> {
        self.bytes[addr as usize] = value;
        Ok(())
    }

    fn load32(&mut self, addr: u64) -> Result<u32, BusError> {
        self.load32_count += 1;
        Ok(self.read_word(addr as u32))
    }

    fn store32(&mut self, addr: u64, value: u32) -> Result<(), BusError> {
        self.store32_count += 1;
        self.store_word(addr as u32, value);
        Ok(())
    }
}

fn install_sv32_mapping(
    bus: &mut CountingBus,
    root_table: u32,
    leaf_table: u32,
    virtual_page: u32,
    physical_page: u32,
    flags: u32,
) {
    let vpn1 = (virtual_page >> 22) & 0x3ff;
    let vpn0 = (virtual_page >> 12) & 0x3ff;
    bus.store_word(root_table + (vpn1 * 4), sv32_nonleaf(leaf_table));
    bus.store_word(
        leaf_table + (vpn0 * 4),
        sv32_leaf(physical_page, flags | PTE_V),
    );
}

fn sv32_nonleaf(next_table: u32) -> u32 {
    ((next_table >> 12) << 10) | PTE_V
}

fn sv32_leaf(physical_page: u32, flags: u32) -> u32 {
    ((physical_page >> 12) << 10) | flags
}

fn sv32_satp(root_table: u32) -> u32 {
    (SATP_MODE_SV32 << SATP_MODE_SHIFT) | (root_table >> 12)
}

#[test]
fn supervisor_translation_is_enabled_only_for_sv32() {
    assert!(!translation_enabled(0, PrivilegeMode::Supervisor));
    assert!(translation_enabled(
        1 << SATP_MODE_SHIFT,
        PrivilegeMode::Supervisor
    ));
    assert!(!translation_enabled(
        1 << SATP_MODE_SHIFT,
        PrivilegeMode::Machine
    ));
}

#[test]
fn supervisor_superpage_requires_zero_lower_ppn_bits() {
    let request = TranslationRequest {
        satp: 1 << SATP_MODE_SHIFT,
        status: 0,
        privilege: PrivilegeMode::Supervisor,
        virtual_address: 0x0040_1234,
        access: MemoryAccess::Instruction,
    };
    let state = WalkState {
        request,
        level: 1,
        pte_address: 0,
        phase: WalkPhase::ReadPte,
    };

    assert!(translate_leaf(state, (1 << 10) | PTE_V | PTE_R | PTE_X | PTE_A).is_none());
}

#[test]
fn supervisor_cannot_access_user_page_without_sum_support() {
    let request = TranslationRequest {
        satp: 1 << SATP_MODE_SHIFT,
        status: 0,
        privilege: PrivilegeMode::Supervisor,
        virtual_address: 0,
        access: MemoryAccess::Load,
    };

    assert!(!permissions_allow(
        request,
        PTE_V | PTE_R | PTE_U | PTE_A | PTE_D
    ));
}

#[test]
fn supervisor_sum_allows_loads_from_user_pages_but_not_fetches() {
    let load_request = TranslationRequest {
        satp: 1 << SATP_MODE_SHIFT,
        status: MSTATUS_SUM,
        privilege: PrivilegeMode::Supervisor,
        virtual_address: 0,
        access: MemoryAccess::Load,
    };
    let fetch_request = TranslationRequest {
        access: MemoryAccess::Instruction,
        ..load_request
    };

    assert!(permissions_allow(
        load_request,
        PTE_V | PTE_R | PTE_U | PTE_A | PTE_D
    ));
    assert!(!permissions_allow(
        fetch_request,
        PTE_V | PTE_X | PTE_U | PTE_A
    ));
}

#[test]
fn mxr_allows_loads_from_execute_only_pages() {
    let request = TranslationRequest {
        satp: 1 << SATP_MODE_SHIFT,
        status: MSTATUS_MXR,
        privilege: PrivilegeMode::Supervisor,
        virtual_address: 0,
        access: MemoryAccess::Load,
    };

    assert!(permissions_allow(request, PTE_V | PTE_X | PTE_A));
    assert!(!permissions_allow(
        TranslationRequest {
            status: 0,
            ..request
        },
        PTE_V | PTE_X | PTE_A
    ));
}

#[test]
fn tlb_hit_reuses_completed_translation() {
    let mut bus = CountingBus::new(0x10_000);
    let mut walker = PageWalker::default();
    let mut csrs = CsrFile::default();
    csrs.write(CsrAddress::Satp, sv32_satp(0x2000));
    install_sv32_mapping(
        &mut bus,
        0x2000,
        0x3000,
        0x4000,
        0x1000,
        PTE_R | PTE_A | PTE_D,
    );

    let first = walker
        .translate(
            &mut bus,
            &csrs,
            PrivilegeMode::Supervisor,
            0x4123,
            MemoryAccess::Load,
        )
        .expect("first translation should succeed");
    let second = walker
        .translate(
            &mut bus,
            &csrs,
            PrivilegeMode::Supervisor,
            0x4123,
            MemoryAccess::Load,
        )
        .expect("second translation should hit tlb");

    assert_eq!(first, TranslationResult::PhysicalAddress(0x1123));
    assert_eq!(second, TranslationResult::PhysicalAddress(0x1123));
    assert_eq!(bus.load32_count, 2);
}

#[test]
fn flush_discards_cached_translation() {
    let mut bus = CountingBus::new(0x10_000);
    let mut walker = PageWalker::default();
    let mut csrs = CsrFile::default();
    csrs.write(CsrAddress::Satp, sv32_satp(0x2000));
    install_sv32_mapping(
        &mut bus,
        0x2000,
        0x3000,
        0x4000,
        0x1000,
        PTE_R | PTE_A | PTE_D,
    );

    let _ = walker
        .translate(
            &mut bus,
            &csrs,
            PrivilegeMode::Supervisor,
            0x4123,
            MemoryAccess::Load,
        )
        .expect("first translation should succeed");
    walker.flush();
    let translated = walker
        .translate(
            &mut bus,
            &csrs,
            PrivilegeMode::Supervisor,
            0x4123,
            MemoryAccess::Load,
        )
        .expect("translation after flush should refill tlb");

    assert_eq!(translated, TranslationResult::PhysicalAddress(0x1123));
    assert_eq!(bus.load32_count, 4);
}

#[test]
fn load_translation_sets_accessed_bit() {
    let mut bus = CountingBus::new(0x10_000);
    let mut walker = PageWalker::default();
    let mut csrs = CsrFile::default();
    csrs.write(CsrAddress::Satp, sv32_satp(0x2000));
    install_sv32_mapping(&mut bus, 0x2000, 0x3000, 0x4000, 0x1000, PTE_R);

    let translated = walker
        .translate(
            &mut bus,
            &csrs,
            PrivilegeMode::Supervisor,
            0x4123,
            MemoryAccess::Load,
        )
        .expect("load translation should update accessed bit");

    assert_eq!(translated, TranslationResult::PhysicalAddress(0x1123));
    assert_eq!(bus.read_word(0x3010) & PTE_A, PTE_A);
    assert_eq!(bus.read_word(0x3010) & PTE_D, 0);
    assert_eq!(bus.store32_count, 1);
}

#[test]
fn store_after_load_rewalks_to_set_dirty_bit() {
    let mut bus = CountingBus::new(0x10_000);
    let mut walker = PageWalker::default();
    let mut csrs = CsrFile::default();
    csrs.write(CsrAddress::Satp, sv32_satp(0x2000));
    install_sv32_mapping(&mut bus, 0x2000, 0x3000, 0x4000, 0x1000, PTE_R | PTE_W);

    let load = walker
        .translate(
            &mut bus,
            &csrs,
            PrivilegeMode::Supervisor,
            0x4123,
            MemoryAccess::Load,
        )
        .expect("load translation should update accessed bit");
    let store = walker
        .translate(
            &mut bus,
            &csrs,
            PrivilegeMode::Supervisor,
            0x4123,
            MemoryAccess::Store,
        )
        .expect("store translation should rewalk to update dirty bit");

    assert_eq!(load, TranslationResult::PhysicalAddress(0x1123));
    assert_eq!(store, TranslationResult::PhysicalAddress(0x1123));
    assert_eq!(bus.read_word(0x3010) & (PTE_A | PTE_D), PTE_A | PTE_D);
    assert_eq!(bus.store32_count, 2);
}
