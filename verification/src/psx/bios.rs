//! BIOS patch selection.

use vstd::prelude::*;

verus! {

/// The patches that may be applied to a BIOS image.
#[derive(Debug, Clone, Copy, PartialEq, Eq, Structural)]
pub struct BiosPatches {
    /// Skip the copyright check for a faster boot.
    pub skip_copyright: bool,
    /// Skip the boot logo animation.
    pub skip_logo: bool,
    /// Accept discs of every region.
    pub region_free: bool,
    /// Debug UART output.
    pub debug_uart: bool,
}

impl Default for BiosPatches {
    /// No patch.
    fn default() -> (r: Self)
        ensures
            r == (BiosPatches { skip_copyright: false, skip_logo: false, region_free: false, debug_uart: false }),
    {
        BiosPatches { skip_copyright: false, skip_logo: false, region_free: false, debug_uart: false }
    }
}

} // verus!
