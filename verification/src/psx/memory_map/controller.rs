//! Digital controller button masks and controller type identifiers.

use vstd::prelude::*;

verus! {

/// D-Pad buttons
pub const DPAD_UP: u16 = 0x0010;
pub const DPAD_RIGHT: u16 = 0x0020;
pub const DPAD_DOWN: u16 = 0x0040;
pub const DPAD_LEFT: u16 = 0x0080;

/// Face buttons
pub const BUTTON_TRIANGLE: u16 = 0x1000;
pub const BUTTON_CIRCLE: u16 = 0x2000;
pub const BUTTON_CROSS: u16 = 0x4000;
pub const BUTTON_SQUARE: u16 = 0x8000;

/// Shoulder buttons
pub const BUTTON_L1: u16 = 0x0004;
pub const BUTTON_L2: u16 = 0x0001;
pub const BUTTON_R1: u16 = 0x0008;
pub const BUTTON_R2: u16 = 0x0002;

/// System buttons
pub const BUTTON_SELECT: u16 = 0x0100;
pub const BUTTON_START: u16 = 0x0800;
pub const BUTTON_L3: u16 = 0x0200;
pub const BUTTON_R3: u16 = 0x0400;

/// Controller types
pub const TYPE_DIGITAL: u8 = 0x41;
pub const TYPE_ANALOG: u8 = 0x73;
pub const TYPE_DUALSHOCK: u8 = 0x73;
pub const TYPE_MOUSE: u8 = 0x12;
pub const TYPE_NEGCON: u8 = 0x23;
pub const TYPE_GUNCON: u8 = 0x63;

} // verus!
