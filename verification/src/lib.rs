//! A cycle-driven RV32I machine model: ISA decoding, privileged CSR state,
//! Sv32 translation, a reference core, a five-stage pipeline core, and the
//! bus, cache and device models they run against.

pub mod opcode;
pub mod csr_address;
pub mod instruction;
pub mod exception;
pub mod decode;
pub mod bytes;
pub mod bus;
pub mod privilege;
pub mod registers;
pub mod csr_file;
pub mod csr_laws;
pub mod mmu;
pub mod exec;
pub mod hart;
pub mod trace;
pub mod hazard;
pub mod predictor;
pub mod component;
pub mod clock;
pub mod machine;
pub mod cpu_model;
pub mod pipeline;
pub mod reference;
pub mod pipeline_core;
pub mod memory_map;
pub mod arbiter;
pub mod cache;
pub mod devices;
pub mod microbench;
