//! A PlayStation emulator core: CPU, memory map, coprocessors, GPU command decoding,
//! DMA, timers, caches, SPU audio buffering and the peripherals that hang off the
//! controller ports.

pub mod bits;
pub mod text;
pub mod error;
pub mod cd_stub;
pub mod error_traits;
pub mod psx;
pub mod psx_complete;
pub mod templates;
pub mod debugging_tools;
pub mod debugger;
pub mod performance_monitor;
