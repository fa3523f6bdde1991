//! Control and status register addresses modeled by the computer.

use vstd::prelude::*;

verus! {

/// Control/status register addresses modeled by the current computer.
#[derive(Debug, Clone, Copy, PartialEq, Eq, Hash, Structural)]
pub enum CsrAddress {
    Sstatus,
    Sie,
    Stvec,
    Scounteren,
    Satp,
    Mstatus,
    Medeleg,
    Mideleg,
    Mie,
    Mtvec,
    Mcounteren,
    Mcycle,
    Minstret,
    Mcycleh,
    Minstreth,
    Cycle,
    Time,
    Instret,
    Cycleh,
    Timeh,
    Instreth,
    Sepc,
    Scause,
    Stval,
    Sip,
    Mepc,
    Mcause,
    Mtval,
    Mip,
}

/// The 12-bit architectural number of each modeled CSR.
pub open spec fn csr_number(address: CsrAddress) -> u16 {
    match address {
        CsrAddress::Sstatus => 0x100,
        CsrAddress::Sie => 0x104,
        CsrAddress::Stvec => 0x105,
        CsrAddress::Scounteren => 0x106,
        CsrAddress::Satp => 0x180,
        CsrAddress::Mstatus => 0x300,
        CsrAddress::Medeleg => 0x302,
        CsrAddress::Mideleg => 0x303,
        CsrAddress::Mie => 0x304,
        CsrAddress::Mtvec => 0x305,
        CsrAddress::Mcounteren => 0x306,
        CsrAddress::Mcycle => 0xb00,
        CsrAddress::Minstret => 0xb02,
        CsrAddress::Mcycleh => 0xb80,
        CsrAddress::Minstreth => 0xb82,
        CsrAddress::Cycle => 0xc00,
        CsrAddress::Time => 0xc01,
        CsrAddress::Instret => 0xc02,
        CsrAddress::Cycleh => 0xc80,
        CsrAddress::Timeh => 0xc81,
        CsrAddress::Instreth => 0xc82,
        CsrAddress::Sepc => 0x141,
        CsrAddress::Scause => 0x142,
        CsrAddress::Stval => 0x143,
        CsrAddress::Sip => 0x144,
        CsrAddress::Mepc => 0x341,
        CsrAddress::Mcause => 0x342,
        CsrAddress::Mtval => 0x343,
        CsrAddress::Mip => 0x344,
    }
}

/// The modeled CSR with the given number, if any.
pub open spec fn csr_from_number(value: u16) -> Option<CsrAddress> {
    if value == 0x100 { Some(CsrAddress::Sstatus) }
    else if value == 0x104 { Some(CsrAddress::Sie) }
    else if value == 0x105 { Some(CsrAddress::Stvec) }
    else if value == 0x106 { Some(CsrAddress::Scounteren) }
    else if value == 0x180 { Some(CsrAddress::Satp) }
    else if value == 0x300 { Some(CsrAddress::Mstatus) }
    else if value == 0x302 { Some(CsrAddress::Medeleg) }
    else if value == 0x303 { Some(CsrAddress::Mideleg) }
    else if value == 0x304 { Some(CsrAddress::Mie) }
    else if value == 0x305 { Some(CsrAddress::Mtvec) }
    else if value == 0x306 { Some(CsrAddress::Mcounteren) }
    else if value == 0xb00 { Some(CsrAddress::Mcycle) }
    else if value == 0xb02 { Some(CsrAddress::Minstret) }
    else if value == 0xb80 { Some(CsrAddress::Mcycleh) }
    else if value == 0xb82 { Some(CsrAddress::Minstreth) }
    else if value == 0xc00 { Some(CsrAddress::Cycle) }
    else if value == 0xc01 { Some(CsrAddress::Time) }
    else if value == 0xc02 { Some(CsrAddress::Instret) }
    else if value == 0xc80 { Some(CsrAddress::Cycleh) }
    else if value == 0xc81 { Some(CsrAddress::Timeh) }
    else if value == 0xc82 { Some(CsrAddress::Instreth) }
    else if value == 0x141 { Some(CsrAddress::Sepc) }
    else if value == 0x142 { Some(CsrAddress::Scause) }
    else if value == 0x143 { Some(CsrAddress::Stval) }
    else if value == 0x144 { Some(CsrAddress::Sip) }
    else if value == 0x341 { Some(CsrAddress::Mepc) }
    else if value == 0x342 { Some(CsrAddress::Mcause) }
    else if value == 0x343 { Some(CsrAddress::Mtval) }
    else if value == 0x344 { Some(CsrAddress::Mip) }
    else { None }
}

/// Returned when a raw CSR index is not modeled.
#[derive(Debug, Clone, Copy, PartialEq, Eq, Structural)]
pub struct CsrAddressError(pub u16);

impl CsrAddress {
    /// The CSR's architectural number.
    pub fn number(self) -> (n: u16)
        ensures
            n == csr_number(self),
    {
        match self {
            CsrAddress::Sstatus => 0x100,
            CsrAddress::Sie => 0x104,
            CsrAddress::Stvec => 0x105,
            CsrAddress::Scounteren => 0x106,
            CsrAddress::Satp => 0x180,
            CsrAddress::Mstatus => 0x300,
            CsrAddress::Medeleg => 0x302,
            CsrAddress::Mideleg => 0x303,
            CsrAddress::Mie => 0x304,
            CsrAddress::Mtvec => 0x305,
            CsrAddress::Mcounteren => 0x306,
            CsrAddress::Mcycle => 0xb00,
            CsrAddress::Minstret => 0xb02,
            CsrAddress::Mcycleh => 0xb80,
            CsrAddress::Minstreth => 0xb82,
            CsrAddress::Cycle => 0xc00,
            CsrAddress::Time => 0xc01,
            CsrAddress::Instret => 0xc02,
            CsrAddress::Cycleh => 0xc80,
            CsrAddress::Timeh => 0xc81,
            CsrAddress::Instreth => 0xc82,
            CsrAddress::Sepc => 0x141,
            CsrAddress::Scause => 0x142,
            CsrAddress::Stval => 0x143,
            CsrAddress::Sip => 0x144,
            CsrAddress::Mepc => 0x341,
            CsrAddress::Mcause => 0x342,
            CsrAddress::Mtval => 0x343,
            CsrAddress::Mip => 0x344,
        }
    }

    /// The lowest privilege level (0 user, 1 supervisor, 3 machine) encoded in bits 9:8.
    pub fn min_privilege_level(self) -> (level: u8)
        ensures
            level as int == (csr_number(self) as int / 256) % 4,
    {
        let n = self.number();
        let r = (n >> 8u16) & 0b11u16;
        assert(r == (n / 256) % 4) by (bit_vector)
            requires r == (n >> 8u16) & 0b11u16;
        r as u8
    }

    /// Whether bits 11:10 mark the CSR as read-only.
    pub fn is_read_only(self) -> (ro: bool)
        ensures
            ro == ((csr_number(self) as int / 1024) % 4 == 3),
    {
        let n = self.number();
        let r = (n >> 10u16) & 0b11u16;
        assert(r == (n / 1024) % 4) by (bit_vector)
            requires r == (n >> 10u16) & 0b11u16;
        r == 0b11u16
    }

    /// The counter-enable bit that gates lower-privilege access to a counter CSR.
    pub fn counteren_mask(self) -> (mask: Option<u32>)
        ensures
            mask == (match self {
                CsrAddress::Cycle | CsrAddress::Cycleh => Some(1u32),
                CsrAddress::Time | CsrAddress::Timeh => Some(2u32),
                CsrAddress::Instret | CsrAddress::Instreth => Some(4u32),
                _ => None,
            }),
    {
        match self {
            CsrAddress::Cycle | CsrAddress::Cycleh => Some(1),
            CsrAddress::Time | CsrAddress::Timeh => Some(2),
            CsrAddress::Instret | CsrAddress::Instreth => Some(4),
            _ => None,
        }
    }

    /// Look up the modeled CSR with the given number.
    pub fn from_number(value: u16) -> (r: Result<CsrAddress, CsrAddressError>)
        ensures
            r == (match csr_from_number(value) {
                Some(a) => Ok(a),
                None => Err(CsrAddressError(value)),
            }),
    {
        if value == 0x100 { Ok(CsrAddress::Sstatus) }
        else if value == 0x104 { Ok(CsrAddress::Sie) }
        else if value == 0x105 { Ok(CsrAddress::Stvec) }
        else if value == 0x106 { Ok(CsrAddress::Scounteren) }
        else if value == 0x180 { Ok(CsrAddress::Satp) }
        else if value == 0x300 { Ok(CsrAddress::Mstatus) }
        else if value == 0x302 { Ok(CsrAddress::Medeleg) }
        else if value == 0x303 { Ok(CsrAddress::Mideleg) }
        else if value == 0x304 { Ok(CsrAddress::Mie) }
        else if value == 0x305 { Ok(CsrAddress::Mtvec) }
        else if value == 0x306 { Ok(CsrAddress::Mcounteren) }
        else if value == 0xb00 { Ok(CsrAddress::Mcycle) }
        else if value == 0xb02 { Ok(CsrAddress::Minstret) }
        else if value == 0xb80 { Ok(CsrAddress::Mcycleh) }
        else if value == 0xb82 { Ok(CsrAddress::Minstreth) }
        else if value == 0xc00 { Ok(CsrAddress::Cycle) }
        else if value == 0xc01 { Ok(CsrAddress::Time) }
        else if value == 0xc02 { Ok(CsrAddress::Instret) }
        else if value == 0xc80 { Ok(CsrAddress::Cycleh) }
        else if value == 0xc81 { Ok(CsrAddress::Timeh) }
        else if value == 0xc82 { Ok(CsrAddress::Instreth) }
        else if value == 0x141 { Ok(CsrAddress::Sepc) }
        else if value == 0x142 { Ok(CsrAddress::Scause) }
        else if value == 0x143 { Ok(CsrAddress::Stval) }
        else if value == 0x144 { Ok(CsrAddress::Sip) }
        else if value == 0x341 { Ok(CsrAddress::Mepc) }
        else if value == 0x342 { Ok(CsrAddress::Mcause) }
        else if value == 0x343 { Ok(CsrAddress::Mtval) }
        else if value == 0x344 { Ok(CsrAddress::Mip) }
        else { Err(CsrAddressError(value)) }
    }
}

/// Decoding a CSR's own number gives the CSR back, and a number that decodes names that CSR.
pub proof fn csr_number_round_trip(address: CsrAddress, value: u16)
    ensures
        csr_from_number(csr_number(address)) == Some(address),
        csr_from_number(value) matches Some(a) ==> csr_number(a) == value,
{
}

impl TryFrom<u16> for CsrAddress {
    type Error = CsrAddressError;

    fn try_from(value: u16) -> (r: Result<CsrAddress, CsrAddressError>) {
        CsrAddress::from_number(value)
    }
}

impl vstd::std_specs::convert::TryFromSpecImpl<u16> for CsrAddress {
    open spec fn obeys_try_from_spec() -> bool {
        true
    }

    open spec fn try_from_spec(value: u16) -> Result<CsrAddress, CsrAddressError> {
        match csr_from_number(value) {
            Some(a) => Ok(a),
            None => Err(CsrAddressError(value)),
        }
    }
}

} // verus!
