//! PlayStation hardware components.

pub mod memory_map;
pub mod cache;
pub mod memory_control;
pub mod expansion;
pub mod link_cable;
pub mod spu;
pub mod cd;
pub mod cpu_instructions;
pub mod pad_memcard;
pub mod bios;
