//! Debugging tools: memory inspection with watches, breakpoints and value search, CPU
//! tracing and disassembly, GPU command statistics, function profiling and save-state
//! comparison.

pub mod disasm;
pub mod memory;
pub mod cpu;
pub mod gpu;
pub mod save_state;
pub mod profiler;
