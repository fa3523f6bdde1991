use rvsim::csr_address::CsrAddress;
use rvsim::decode::decode;
use rvsim::exception::{Exception, Trap};
use rvsim::opcode::{AluOp, InstructionKind};

#[test]
fn high_half_counter_csrs_decode_and_keep_counteren_mapping() {
    assert_eq!(CsrAddress::try_from(0xb80), Ok(CsrAddress::Mcycleh));
    assert_eq!(CsrAddress::try_from(0xb82), Ok(CsrAddress::Minstreth));
    assert_eq!(CsrAddress::try_from(0xc80), Ok(CsrAddress::Cycleh));
    assert_eq!(CsrAddress::try_from(0xc81), Ok(CsrAddress::Timeh));
    assert_eq!(CsrAddress::try_from(0xc82), Ok(CsrAddress::Instreth));

    assert_eq!(CsrAddress::Cycleh.counteren_mask(), Some(1 << 0));
    assert_eq!(CsrAddress::Timeh.counteren_mask(), Some(1 << 1));
    assert_eq!(CsrAddress::Instreth.counteren_mask(), Some(1 << 2));
    assert!(CsrAddress::Cycleh.is_read_only());
    assert!(CsrAddress::Timeh.is_read_only());
    assert!(CsrAddress::Instreth.is_read_only());
}

#[test]
fn decode_addi() {
    let decoded = decode(0x0050_0093, 0).expect("addi should decode");
    assert_eq!(decoded.kind, InstructionKind::OpImm(AluOp::Add));
    assert_eq!(decoded.rd, Some(1));
    assert_eq!(decoded.rs1, Some(0));
    assert_eq!(decoded.imm, 5);
}

#[test]
fn decode_store_word() {
    let decoded = decode(0x0032_2023, 0).expect("sw should decode");
    assert_eq!(decoded.rs1, Some(4));
    assert_eq!(decoded.rs2, Some(3));
}

#[test]
fn access_faults_keep_standard_cause_codes_and_tvals() {
    let instruction = Trap::Exception(Exception::InstructionAccessFault { addr: 0x1000 });
    let load = Trap::Exception(Exception::LoadAccessFault { addr: 0x2000 });
    let store = Trap::Exception(Exception::StoreAccessFault { addr: 0x3000 });

    assert_eq!(instruction.cause_code(), 1);
    assert_eq!(load.cause_code(), 5);
    assert_eq!(store.cause_code(), 7);

    assert_eq!(instruction.tval(), 0x1000);
    assert_eq!(load.tval(), 0x2000);
    assert_eq!(store.tval(), 0x3000);
}
