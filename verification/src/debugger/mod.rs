//! Remote debugging.

pub mod gdb;
