//! The PlayStation mouse.

use vstd::prelude::*;
use super::peripheral_trait::{Peripheral, Response};

verus! {

/// Where a mouse transfer stands.
#[derive(Debug, Clone, Copy, PartialEq, Eq, Structural)]
pub enum MouseTransferState {
    Idle,
    Connected,
    SendId1,
    SendId2,
    SendButtons,
    SendDeltaX,
    SendDeltaY,
}

/// Mouse buttons.
#[derive(Debug, Clone, Copy, PartialEq, Eq, Structural)]
pub enum MouseButton {
    Left,
    Right,
}

/// The bit of a button in the (active low) button byte.
pub open spec fn mouse_mask(b: MouseButton) -> u8 {
    match b {
        MouseButton::Left => 0x08,
        MouseButton::Right => 0x04,
    }
}

impl MouseButton {
    pub fn mask(self) -> (r: u8)
        ensures
            r == mouse_mask(self),
    {
        match self {
            MouseButton::Left => 0x08,
            MouseButton::Right => 0x04,
        }
    }
}

/// A PlayStation mouse.
#[derive(Debug, Clone, Copy, PartialEq, Eq, Structural)]
pub struct Mouse {
    pub delta_x: i8,
    pub delta_y: i8,
    /// Button bits, active low.
    pub buttons: u8,
    pub transfer_state: MouseTransferState,
    pub sensitivity: u8,
}

/// `v` clamped to the range of `i8`.
pub open spec fn clamp_i8(v: int) -> i8 {
    if v < -128 { -128i8 } else if v > 127 { 127i8 } else { v as i8 }
}

/// One byte of a mouse transfer: (reply, next state, acknowledge).
pub open spec fn mouse_step(m: Mouse, cmd: u8) -> (u8, MouseTransferState, bool) {
    match m.transfer_state {
        MouseTransferState::Idle => if cmd == 0x01 { (0xFF, MouseTransferState::Connected, true) } else { (0xFF, MouseTransferState::Idle, false) },
        MouseTransferState::Connected => if cmd == 0x42 { (0x12, MouseTransferState::SendId1, true) } else { (0xFF, MouseTransferState::Idle, false) },
        MouseTransferState::SendId1 => (0x5A, MouseTransferState::SendId2, true),
        MouseTransferState::SendId2 => (m.buttons, MouseTransferState::SendButtons, true),
        MouseTransferState::SendButtons => (m.delta_x as u8, MouseTransferState::SendDeltaX, true),
        MouseTransferState::SendDeltaX => (m.delta_y as u8, MouseTransferState::SendDeltaY, false),
        MouseTransferState::SendDeltaY => (0xFF, MouseTransferState::Idle, false),
    }
}

impl Mouse {
    /// No movement, no buttons pressed, sensitivity 1.
    pub fn new() -> (r: Self)
        ensures
            r == (Mouse { delta_x: 0, delta_y: 0, buttons: 0xFF, transfer_state: MouseTransferState::Idle, sensitivity: 1 }),
    {
        Mouse { delta_x: 0, delta_y: 0, buttons: 0xFF, transfer_state: MouseTransferState::Idle, sensitivity: 1 }
    }

    /// Add a movement to the pending deltas, each clamped to -128..=127.
    pub fn move_mouse(&mut self, dx: i32, dy: i32)
        requires
            i32::MIN <= old(self).delta_x + dx <= i32::MAX,
            i32::MIN <= old(self).delta_y + dy <= i32::MAX,
        ensures
            *final(self) == (Mouse {
                delta_x: clamp_i8(old(self).delta_x + dx),
                delta_y: clamp_i8(old(self).delta_y + dy),
                ..*old(self)
            }),
    {
        let new_x = (self.delta_x as i32) + dx;
        let new_y = (self.delta_y as i32) + dy;
        self.delta_x = if new_x < -128 { -128 } else if new_x > 127 { 127 } else { new_x as i8 };
        self.delta_y = if new_y < -128 { -128 } else if new_y > 127 { 127 } else { new_y as i8 };
    }

    pub fn press_button(&mut self, button: MouseButton)
        ensures
            *final(self) == (Mouse { buttons: old(self).buttons & !mouse_mask(button), ..*old(self) }),
    {
        self.buttons = self.buttons & !button.mask();
    }

    pub fn release_button(&mut self, button: MouseButton)
        ensures
            *final(self) == (Mouse { buttons: old(self).buttons | mouse_mask(button), ..*old(self) }),
    {
        self.buttons = self.buttons | button.mask();
    }

    /// Set the sensitivity, clamped to 1..=3.
    pub fn set_sensitivity(&mut self, sens: u8)
        ensures
            *final(self) == (Mouse { sensitivity: if sens < 1 { 1 } else if sens > 3 { 3 } else { sens }, ..*old(self) }),
    {
        self.sensitivity = if sens < 1 { 1 } else if sens > 3 { 3 } else { sens };
    }

    fn clear_deltas(&mut self)
        ensures
            *final(self) == (Mouse { delta_x: 0, delta_y: 0, ..*old(self) }),
    {
        self.delta_x = 0;
        self.delta_y = 0;
    }
}

/// The number of a mouse transfer state, in the order of the protocol.
pub open spec fn mouse_code(s: MouseTransferState) -> int {
    match s {
        MouseTransferState::Idle => 0,
        MouseTransferState::Connected => 1,
        MouseTransferState::SendId1 => 2,
        MouseTransferState::SendId2 => 3,
        MouseTransferState::SendButtons => 4,
        MouseTransferState::SendDeltaX => 5,
        MouseTransferState::SendDeltaY => 6,
    }
}

/// The state of a mouse: its kind, its transfer state and its fields.
pub open spec fn mouse_state_of(m: Mouse) -> Seq<int> {
    seq![1, mouse_code(m.transfer_state), m.delta_x as int, m.delta_y as int, m.buttons as int, m.sensitivity as int]
}

impl Mouse {
    /// A boxed copy of the device.
    pub fn clone_box(&self) -> (r: Box<dyn Peripheral>) {
        Box::new(*self)
    }
}

impl Peripheral for Mouse {
    open spec fn state(&self) -> Seq<int> {
        mouse_state_of(*self)
    }

    open spec fn next_state(&self, cmd: u8, target_device: bool) -> Seq<int> {
        let s = mouse_step(*self, cmd);
        let cleared = self.transfer_state == MouseTransferState::SendDeltaY;
        mouse_state_of(Mouse {
            transfer_state: s.1,
            delta_x: if cleared { 0i8 } else { self.delta_x },
            delta_y: if cleared { 0i8 } else { self.delta_y },
            ..*self
        })
    }

    open spec fn reply(&self, cmd: u8, target_device: bool) -> Response {
        let s = mouse_step(*self, cmd);
        Response { data: s.0, request_dsr: s.2 }
    }

    /// Poll sequence: 0xFF, ID 0x12, 0x5A, buttons, X delta, Y delta; the deltas are
    /// cleared on the byte after the last.
    fn send_byte(&mut self, cmd: u8, target_device: bool) -> (r: Response)
        ensures
            ({
                let s = mouse_step(*old(self), cmd);
                &&& r == (Response { data: s.0, request_dsr: s.2 })
                &&& final(self).transfer_state == s.1
                &&& old(self).transfer_state == MouseTransferState::SendDeltaY ==> final(self).delta_x == 0 && final(self).delta_y == 0
                &&& old(self).transfer_state != MouseTransferState::SendDeltaY ==> final(self).delta_x == old(self).delta_x && final(self).delta_y == old(self).delta_y
                &&& final(self).buttons == old(self).buttons
                &&& final(self).sensitivity == old(self).sensitivity
            }),
    {
        let (response, next_state, request_dsr): (u8, MouseTransferState, bool) = match self.transfer_state {
            MouseTransferState::Idle => if cmd == 0x01 { (0xFF, MouseTransferState::Connected, true) } else { (0xFF, MouseTransferState::Idle, false) },
            MouseTransferState::Connected => if cmd == 0x42 { (0x12, MouseTransferState::SendId1, true) } else { (0xFF, MouseTransferState::Idle, false) },
            MouseTransferState::SendId1 => (0x5A, MouseTransferState::SendId2, true),
            MouseTransferState::SendId2 => (self.buttons, MouseTransferState::SendButtons, true),
            MouseTransferState::SendButtons => (self.delta_x as u8, MouseTransferState::SendDeltaX, true),
            MouseTransferState::SendDeltaX => (self.delta_y as u8, MouseTransferState::SendDeltaY, false),
            MouseTransferState::SendDeltaY => {
                self.clear_deltas();
                (0xFF, MouseTransferState::Idle, false)
            },
        };
        self.transfer_state = next_state;
        Response { data: response, request_dsr }
    }

    /// Button 0 is the left button, 1 the right one.
    fn set_button(&mut self, button: usize, pressed: bool)
        ensures
            button == 0 ==> final(self).buttons == (if pressed { old(self).buttons & !0x08u8 } else { old(self).buttons | 0x08u8 }),
            button == 1 ==> final(self).buttons == (if pressed { old(self).buttons & !0x04u8 } else { old(self).buttons | 0x04u8 }),
            button > 1 ==> final(self).buttons == old(self).buttons,
            final(self).transfer_state == old(self).transfer_state,
    {
        if button == 0 {
            if pressed { self.press_button(MouseButton::Left); } else { self.release_button(MouseButton::Left); }
        } else if button == 1 {
            if pressed { self.press_button(MouseButton::Right); } else { self.release_button(MouseButton::Right); }
        }
    }

    /// Axis 0 moves in X, axis 1 in Y, by the value over 256 (rounded toward zero).
    fn set_axis(&mut self, axis: usize, value: i16)
        ensures
            axis == 0 ==> final(self).delta_x == clamp_i8(old(self).delta_x + value / 256 + (if value < 0 && value % 256 != 0 { 1int } else { 0 }))
                && final(self).delta_y == clamp_i8(old(self).delta_y as int),
            axis == 1 ==> final(self).delta_y == clamp_i8(old(self).delta_y + value / 256 + (if value < 0 && value % 256 != 0 { 1int } else { 0 }))
                && final(self).delta_x == clamp_i8(old(self).delta_x as int),
            axis > 1 ==> *final(self) == *old(self),
    {
        if axis == 0 {
            let movement = (value / 256) as i32;
            self.move_mouse(movement, 0);
        } else if axis == 1 {
            let movement = (value / 256) as i32;
            self.move_mouse(0, movement);
        }
    }
}

/// A boxed mouse.
pub fn mouse() -> (r: Box<dyn Peripheral>) {
    Box::new(Mouse::new())
}

} // verus!
