//! The memory-mapped registers of the picture processor.

pub mod addr;
pub mod control;
pub mod mask;
pub mod scroll;
pub mod status;
