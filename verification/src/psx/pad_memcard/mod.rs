//! Controller and memory card ports and the devices that plug into them.

pub mod devices;

use vstd::prelude::*;

verus! {

/// The DSR (acknowledge) line as a device drives it.
#[derive(Debug, Clone, Copy, PartialEq, Eq, Structural)]
pub enum DsrState {
    /// No acknowledge pending.
    Idle,
    /// An acknowledge pulse will be sent after this many cycles.
    Pending(u32),
}

} // verus!
