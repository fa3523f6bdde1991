//! The five pipeline stages and the latches between them.

pub mod latches;
pub mod ex_stage;
pub mod id_stage;
pub mod if_stage;
pub mod mem_stage;
pub mod wb_stage;
