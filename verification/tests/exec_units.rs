use rvsim::csr_address::CsrAddress;
use rvsim::csr_file::CsrFile;
use rvsim::exec::alu::execute_alu;
use rvsim::exec::csr::execute;
use rvsim::instruction::DecodedInstruction;
use rvsim::opcode::{AluOp, CsrOp, InstructionKind};
use rvsim::predictor::{BimodalPredictor, BranchPredictor};
use rvsim::registers::RegisterFile;

#[test]
fn arithmetic_shift_right_preserves_sign() {
    let value = execute_alu(AluOp::Sra, 0xffff_ff00, 4);
    assert_eq!(value, 0xffff_fff0);
}

#[test]
fn csr_set_with_zero_source_reads_without_writing() {
    let mut csrs = CsrFile::default();
    csrs.write(CsrAddress::Mstatus, 0x12);

    let decoded = DecodedInstruction::new(
        0,
        0,
        InstructionKind::Csr(CsrOp::ReadSet),
        Some(1),
        Some(0),
        None,
        0,
        Some(CsrAddress::Mstatus),
    );

    let outcome = execute(decoded, &csrs, 0).expect("csr outcome should exist");
    assert_eq!(outcome.read_value, 0x12);
    assert_eq!(outcome.write, None);
}

#[test]
fn predictor_moves_towards_taken() {
    let mut predictor = BimodalPredictor::new(4);
    let first = predictor.predict(0x1000, 0x1004, 0x1080);
    assert!(!first.taken);

    predictor.update(0x1000, true);
    predictor.update(0x1000, true);
    let second = predictor.predict(0x1000, 0x1004, 0x1080);
    assert!(second.taken);
    assert_eq!(second.target, 0x1080);
}

#[test]
fn x0_is_hardwired_to_zero() {
    let mut registers = RegisterFile::default();
    registers.write(0, 42);
    registers.write(1, 7);

    assert_eq!(registers.read(0), 0);
    assert_eq!(registers.read(1), 7);
}
