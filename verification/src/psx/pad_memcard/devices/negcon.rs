//! The neGcon twist controller.

use vstd::prelude::*;
use super::peripheral_trait::{Peripheral, Response};

verus! {

/// Where a neGcon transfer stands.
#[derive(Debug, Clone, Copy, PartialEq, Eq, Structural)]
pub enum NeGconTransferState {
    Idle,
    Connected,
    SendId1,
    SendId2,
    SendTwist,
    SendButtonI,
    SendButtonII,
    SendButtonL,
    SendButtons1,
    SendButtons2,
}

/// neGcon digital buttons.
#[derive(Debug, Clone, Copy, PartialEq, Eq, Structural)]
pub enum NeGconButton {
    Start,
    Up,
    Right,
    Down,
    Left,
    R,
    B,
    A,
}

/// The bit of a button in the (active low) button word.
pub open spec fn negcon_mask(b: NeGconButton) -> u16 {
    match b {
        NeGconButton::Start => 0x0008,
        NeGconButton::Up => 0x0010,
        NeGconButton::Right => 0x0020,
        NeGconButton::Down => 0x0040,
        NeGconButton::Left => 0x0080,
        NeGconButton::R => 0x0100,
        NeGconButton::B => 0x0200,
        NeGconButton::A => 0x0400,
    }
}

impl NeGconButton {
    pub fn mask(self) -> (r: u16)
        ensures
            r == negcon_mask(self),
    {
        match self {
            NeGconButton::Start => 0x0008,
            NeGconButton::Up => 0x0010,
            NeGconButton::Right => 0x0020,
            NeGconButton::Down => 0x0040,
            NeGconButton::Left => 0x0080,
            NeGconButton::R => 0x0100,
            NeGconButton::B => 0x0200,
            NeGconButton::A => 0x0400,
        }
    }
}

/// A neGcon.
#[derive(Debug, Clone, Copy, PartialEq, Eq, Structural)]
pub struct NeGcon {
    /// Twist, 0x80 at centre.
    pub twist: u8,
    pub button_i: u8,
    pub button_ii: u8,
    pub button_l: u8,
    /// Button bits, active low.
    pub digital_buttons: u16,
    pub transfer_state: NeGconTransferState,
}

/// One byte of a neGcon transfer: (reply, next state, acknowledge).
pub open spec fn negcon_step(n: NeGcon, cmd: u8) -> (u8, NeGconTransferState, bool) {
    match n.transfer_state {
        NeGconTransferState::Idle => if cmd == 0x01 { (0xFF, NeGconTransferState::Connected, true) } else { (0xFF, NeGconTransferState::Idle, false) },
        NeGconTransferState::Connected => if cmd == 0x42 { (0x23, NeGconTransferState::SendId1, true) } else { (0xFF, NeGconTransferState::Idle, false) },
        NeGconTransferState::SendId1 => (0x23, NeGconTransferState::SendId2, true),
        NeGconTransferState::SendId2 => (n.twist, NeGconTransferState::SendTwist, true),
        NeGconTransferState::SendTwist => (n.button_i, NeGconTransferState::SendButtonI, true),
        NeGconTransferState::SendButtonI => (n.button_ii, NeGconTransferState::SendButtonII, true),
        NeGconTransferState::SendButtonII => (n.button_l, NeGconTransferState::SendButtonL, true),
        NeGconTransferState::SendButtonL => (n.digital_buttons as u8, NeGconTransferState::SendButtons1, true),
        NeGconTransferState::SendButtons1 => ((n.digital_buttons >> 8u16) as u8, NeGconTransferState::SendButtons2, false),
        NeGconTransferState::SendButtons2 => (0xFF, NeGconTransferState::Idle, false),
    }
}

impl NeGcon {
    /// Centred, nothing pressed.
    pub fn new() -> (r: Self)
        ensures
            r == (NeGcon {
                twist: 0x80,
                button_i: 0,
                button_ii: 0,
                button_l: 0,
                digital_buttons: 0xFFFF,
                transfer_state: NeGconTransferState::Idle,
            }),
    {
        NeGcon { twist: 0x80, button_i: 0, button_ii: 0, button_l: 0, digital_buttons: 0xFFFF, transfer_state: NeGconTransferState::Idle }
    }

    pub fn set_twist(&mut self, value: u8)
        ensures
            *final(self) == (NeGcon { twist: value, ..*old(self) }),
    {
        self.twist = value;
    }

    pub fn set_button_i(&mut self, value: u8)
        ensures
            *final(self) == (NeGcon { button_i: value, ..*old(self) }),
    {
        self.button_i = value;
    }

    pub fn set_button_ii(&mut self, value: u8)
        ensures
            *final(self) == (NeGcon { button_ii: value, ..*old(self) }),
    {
        self.button_ii = value;
    }

    pub fn set_button_l(&mut self, value: u8)
        ensures
            *final(self) == (NeGcon { button_l: value, ..*old(self) }),
    {
        self.button_l = value;
    }

    pub fn press_button(&mut self, button: NeGconButton)
        ensures
            *final(self) == (NeGcon { digital_buttons: old(self).digital_buttons & !negcon_mask(button), ..*old(self) }),
    {
        self.digital_buttons = self.digital_buttons & !button.mask();
    }

    pub fn release_button(&mut self, button: NeGconButton)
        ensures
            *final(self) == (NeGcon { digital_buttons: old(self).digital_buttons | negcon_mask(button), ..*old(self) }),
    {
        self.digital_buttons = self.digital_buttons | button.mask();
    }
}

/// The number of a neGcon transfer state, in the order of the protocol.
pub open spec fn negcon_code(s: NeGconTransferState) -> int {
    match s {
        NeGconTransferState::Idle => 0,
        NeGconTransferState::Connected => 1,
        NeGconTransferState::SendId1 => 2,
        NeGconTransferState::SendId2 => 3,
        NeGconTransferState::SendTwist => 4,
        NeGconTransferState::SendButtonI => 5,
        NeGconTransferState::SendButtonII => 6,
        NeGconTransferState::SendButtonL => 7,
        NeGconTransferState::SendButtons1 => 8,
        NeGconTransferState::SendButtons2 => 9,
    }
}

/// The state of a neGcon: its kind, its transfer state and its fields.
pub open spec fn negcon_state_of(m: NeGcon) -> Seq<int> {
    seq![3, negcon_code(m.transfer_state), m.twist as int, m.button_i as int, m.button_ii as int, m.button_l as int, m.digital_buttons as int]
}

impl NeGcon {
    /// A boxed copy of the device.
    pub fn clone_box(&self) -> (r: Box<dyn Peripheral>) {
        Box::new(*self)
    }
}

impl Peripheral for NeGcon {
    open spec fn state(&self) -> Seq<int> {
        negcon_state_of(*self)
    }

    open spec fn next_state(&self, cmd: u8, target_device: bool) -> Seq<int> {
        let s = negcon_step(*self, cmd);
        negcon_state_of(NeGcon { transfer_state: s.1, ..*self })
    }

    open spec fn reply(&self, cmd: u8, target_device: bool) -> Response {
        let s = negcon_step(*self, cmd);
        Response { data: s.0, request_dsr: s.2 }
    }

    /// Poll sequence: 0xFF, 0x23, 0x23, twist, I, II, L, buttons low, buttons high.
    fn send_byte(&mut self, cmd: u8, target_device: bool) -> (r: Response)
        ensures
            ({
                let s = negcon_step(*old(self), cmd);
                &&& r == (Response { data: s.0, request_dsr: s.2 })
                &&& *final(self) == (NeGcon { transfer_state: s.1, ..*old(self) })
            }),
    {
        let (response, next_state, request_dsr): (u8, NeGconTransferState, bool) = match self.transfer_state {
            NeGconTransferState::Idle => if cmd == 0x01 { (0xFF, NeGconTransferState::Connected, true) } else { (0xFF, NeGconTransferState::Idle, false) },
            NeGconTransferState::Connected => if cmd == 0x42 { (0x23, NeGconTransferState::SendId1, true) } else { (0xFF, NeGconTransferState::Idle, false) },
            NeGconTransferState::SendId1 => (0x23, NeGconTransferState::SendId2, true),
            NeGconTransferState::SendId2 => (self.twist, NeGconTransferState::SendTwist, true),
            NeGconTransferState::SendTwist => (self.button_i, NeGconTransferState::SendButtonI, true),
            NeGconTransferState::SendButtonI => (self.button_ii, NeGconTransferState::SendButtonII, true),
            NeGconTransferState::SendButtonII => (self.button_l, NeGconTransferState::SendButtonL, true),
            NeGconTransferState::SendButtonL => (self.digital_buttons as u8, NeGconTransferState::SendButtons1, true),
            NeGconTransferState::SendButtons1 => ((self.digital_buttons >> 8) as u8, NeGconTransferState::SendButtons2, false),
            NeGconTransferState::SendButtons2 => (0xFF, NeGconTransferState::Idle, false),
        };
        self.transfer_state = next_state;
        Response { data: response, request_dsr }
    }

    /// Button 0 is A, 1 is B, 7 is Start.
    fn set_button(&mut self, button: usize, pressed: bool)
        ensures
            button == 0 ==> final(self).digital_buttons == (if pressed { old(self).digital_buttons & !0x0400u16 } else { old(self).digital_buttons | 0x0400u16 }),
            button == 1 ==> final(self).digital_buttons == (if pressed { old(self).digital_buttons & !0x0200u16 } else { old(self).digital_buttons | 0x0200u16 }),
            button == 7 ==> final(self).digital_buttons == (if pressed { old(self).digital_buttons & !0x0008u16 } else { old(self).digital_buttons | 0x0008u16 }),
            button != 0 && button != 1 && button != 7 ==> final(self).digital_buttons == old(self).digital_buttons,
            *final(self) == (NeGcon { digital_buttons: final(self).digital_buttons, ..*old(self) }),
    {
        if button == 0 {
            if pressed { self.press_button(NeGconButton::A); } else { self.release_button(NeGconButton::A); }
        } else if button == 1 {
            if pressed { self.press_button(NeGconButton::B); } else { self.release_button(NeGconButton::B); }
        } else if button == 7 {
            if pressed { self.press_button(NeGconButton::Start); } else { self.release_button(NeGconButton::Start); }
        }
    }
}

/// A boxed neGcon.
pub fn negcon() -> (r: Box<dyn Peripheral>) {
    Box::new(NeGcon::new())
}

} // verus!
