//! The fishing controller: a rod with a motion sensor, a reel with a rotation sensor,
//! a tilt sensor and menu buttons. The analog readings are set by the host, which
//! turns its input into sensor bytes.

use vstd::prelude::*;
use super::peripheral_trait::{Peripheral, Response};

verus! {

/// Where a fishing controller transfer stands.
#[derive(Debug, Clone, Copy, PartialEq, Eq, Structural)]
pub enum FishingTransferState {
    Idle,
    Connected,
    SendId1,
    SendId2,
    SendButtons1,
    SendButtons2,
    SendRodMotion,
    SendReelPosition,
    SendReelSpeed,
    SendTiltX,
    SendTiltY,
}

/// Fishing controller buttons.
#[derive(Debug, Clone, Copy, PartialEq, Eq, Structural)]
pub enum FishingButton {
    Cast,
    Reel,
    Select,
    Start,
    Up,
    Right,
    Down,
    Left,
}

/// The bit of a button in the (active low) button word.
pub open spec fn fishing_mask(b: FishingButton) -> u16 {
    match b {
        FishingButton::Cast => 0x0001,
        FishingButton::Reel => 0x0002,
        FishingButton::Select => 0x0100,
        FishingButton::Start => 0x0800,
        FishingButton::Up => 0x1000,
        FishingButton::Right => 0x2000,
        FishingButton::Down => 0x4000,
        FishingButton::Left => 0x8000,
    }
}

impl FishingButton {
    pub fn mask(self) -> (r: u16)
        ensures
            r == fishing_mask(self),
    {
        match self {
            FishingButton::Cast => 0x0001,
            FishingButton::Reel => 0x0002,
            FishingButton::Select => 0x0100,
            FishingButton::Start => 0x0800,
            FishingButton::Up => 0x1000,
            FishingButton::Right => 0x2000,
            FishingButton::Down => 0x4000,
            FishingButton::Left => 0x8000,
        }
    }
}

/// The button a button number stands for: 0 cast, 1 reel, 2 select, 3 start, then up,
/// right, down, left.
pub open spec fn fishing_button_of(n: usize) -> Option<FishingButton> {
    if n == 0 {
        Some(FishingButton::Cast)
    } else if n == 1 {
        Some(FishingButton::Reel)
    } else if n == 2 {
        Some(FishingButton::Select)
    } else if n == 3 {
        Some(FishingButton::Start)
    } else if n == 4 {
        Some(FishingButton::Up)
    } else if n == 5 {
        Some(FishingButton::Right)
    } else if n == 6 {
        Some(FishingButton::Down)
    } else if n == 7 {
        Some(FishingButton::Left)
    } else {
        None
    }
}

/// A fishing controller.
#[derive(Debug, Clone, Copy, PartialEq, Eq, Structural)]
pub struct FishingController {
    /// Button bits, active low.
    pub buttons: u16,
    /// Rod motion sensor, 128 at rest.
    pub rod_motion: u8,
    /// Reel rotation, growing clockwise.
    pub reel_position: u8,
    /// Reel speed, 128 at rest.
    pub reel_speed: u8,
    pub tilt_x: u8,
    pub tilt_y: u8,
    pub transfer_state: FishingTransferState,
}

/// One byte of a fishing controller transfer: (reply, next state, acknowledge).
pub open spec fn fishing_step(c: FishingController, cmd: u8) -> (u8, FishingTransferState, bool) {
    match c.transfer_state {
        FishingTransferState::Idle => if cmd == 0x01 {
            (0xFF, FishingTransferState::Connected, true)
        } else {
            (0xFF, FishingTransferState::Idle, false)
        },
        FishingTransferState::Connected => if cmd == 0x42 {
            (0x5E, FishingTransferState::SendId1, true)
        } else {
            (0xFF, FishingTransferState::Idle, false)
        },
        FishingTransferState::SendId1 => (0x5A, FishingTransferState::SendId2, true),
        FishingTransferState::SendId2 => (c.buttons as u8, FishingTransferState::SendButtons1, true),
        FishingTransferState::SendButtons1 => ((c.buttons >> 8u16) as u8, FishingTransferState::SendButtons2, true),
        FishingTransferState::SendButtons2 => (c.rod_motion, FishingTransferState::SendRodMotion, true),
        FishingTransferState::SendRodMotion => (c.reel_position, FishingTransferState::SendReelPosition, true),
        FishingTransferState::SendReelPosition => (c.reel_speed, FishingTransferState::SendReelSpeed, true),
        FishingTransferState::SendReelSpeed => (c.tilt_x, FishingTransferState::SendTiltX, true),
        FishingTransferState::SendTiltX => (c.tilt_y, FishingTransferState::SendTiltY, false),
        FishingTransferState::SendTiltY => (0xFF, FishingTransferState::Idle, false),
    }
}

/// A sensor reading moved one step back toward its rest value of 128.
pub open spec fn toward_rest(v: u8) -> u8 {
    if v > 128 { (v - 1) as u8 } else if v < 128 { (v + 1) as u8 } else { v }
}

impl FishingController {
    /// At rest, nothing pressed.
    pub fn new() -> (r: Self)
        ensures
            r == (FishingController {
                buttons: 0xFFFF,
                rod_motion: 128,
                reel_position: 0,
                reel_speed: 0,
                tilt_x: 128,
                tilt_y: 128,
                transfer_state: FishingTransferState::Idle,
            }),
    {
        FishingController {
            buttons: 0xFFFF,
            rod_motion: 128,
            reel_position: 0,
            reel_speed: 0,
            tilt_x: 128,
            tilt_y: 128,
            transfer_state: FishingTransferState::Idle,
        }
    }

    /// One frame of the rod and reel settling: each moves one step toward rest.
    pub fn update_physics(&mut self)
        ensures
            *final(self) == (FishingController {
                rod_motion: toward_rest(old(self).rod_motion),
                reel_speed: toward_rest(old(self).reel_speed),
                ..*old(self)
            }),
    {
        if self.rod_motion > 128 {
            self.rod_motion = self.rod_motion - 1;
        } else if self.rod_motion < 128 {
            self.rod_motion = self.rod_motion + 1;
        }
        if self.reel_speed > 128 {
            self.reel_speed = self.reel_speed - 1;
        } else if self.reel_speed < 128 {
            self.reel_speed = self.reel_speed + 1;
        }
    }

    pub fn press_button(&mut self, button: FishingButton)
        ensures
            *final(self) == (FishingController { buttons: old(self).buttons & !fishing_mask(button), ..*old(self) }),
    {
        self.buttons = self.buttons & !button.mask();
    }

    pub fn release_button(&mut self, button: FishingButton)
        ensures
            *final(self) == (FishingController { buttons: old(self).buttons | fishing_mask(button), ..*old(self) }),
    {
        self.buttons = self.buttons | button.mask();
    }

}

/// The number of a fishing controller transfer state, in the order of the protocol.
pub open spec fn fishing_code(s: FishingTransferState) -> int {
    match s {
        FishingTransferState::Idle => 0,
        FishingTransferState::Connected => 1,
        FishingTransferState::SendId1 => 2,
        FishingTransferState::SendId2 => 3,
        FishingTransferState::SendButtons1 => 4,
        FishingTransferState::SendButtons2 => 5,
        FishingTransferState::SendRodMotion => 6,
        FishingTransferState::SendReelPosition => 7,
        FishingTransferState::SendReelSpeed => 8,
        FishingTransferState::SendTiltX => 9,
        FishingTransferState::SendTiltY => 10,
    }
}

/// The state of a fishing controller: its kind, its transfer state and its fields.
pub open spec fn fishing_state_of(m: FishingController) -> Seq<int> {
    seq![5, fishing_code(m.transfer_state), m.buttons as int, m.rod_motion as int, m.reel_position as int, m.reel_speed as int, m.tilt_x as int, m.tilt_y as int]
}

impl FishingController {
    /// A boxed copy of the device.
    pub fn clone_box(&self) -> (r: Box<dyn Peripheral>) {
        Box::new(*self)
    }
}

impl Peripheral for FishingController {
    open spec fn state(&self) -> Seq<int> {
        fishing_state_of(*self)
    }

    open spec fn next_state(&self, cmd: u8, target_device: bool) -> Seq<int> {
        let s = fishing_step(*self, cmd);
        fishing_state_of(FishingController { transfer_state: s.1, ..*self })
    }

    open spec fn reply(&self, cmd: u8, target_device: bool) -> Response {
        let s = fishing_step(*self, cmd);
        Response { data: s.0, request_dsr: s.2 }
    }

    /// Poll sequence: 0xFF, 0x5E, 0x5A, buttons low, buttons high, rod motion, reel
    /// position, reel speed, tilt X, tilt Y.
    fn send_byte(&mut self, cmd: u8, target_device: bool) -> (r: Response)
        ensures
            ({
                let s = fishing_step(*old(self), cmd);
                &&& r == (Response { data: s.0, request_dsr: s.2 })
                &&& *final(self) == (FishingController { transfer_state: s.1, ..*old(self) })
            }),
    {
        let (response, next_state, request_dsr): (u8, FishingTransferState, bool) = match self.transfer_state {
            FishingTransferState::Idle => if cmd == 0x01 {
                (0xFF, FishingTransferState::Connected, true)
            } else {
                (0xFF, FishingTransferState::Idle, false)
            },
            FishingTransferState::Connected => if cmd == 0x42 {
                (0x5E, FishingTransferState::SendId1, true)
            } else {
                (0xFF, FishingTransferState::Idle, false)
            },
            FishingTransferState::SendId1 => (0x5A, FishingTransferState::SendId2, true),
            FishingTransferState::SendId2 => (self.buttons as u8, FishingTransferState::SendButtons1, true),
            FishingTransferState::SendButtons1 => ((self.buttons >> 8u16) as u8, FishingTransferState::SendButtons2, true),
            FishingTransferState::SendButtons2 => (self.rod_motion, FishingTransferState::SendRodMotion, true),
            FishingTransferState::SendRodMotion => (self.reel_position, FishingTransferState::SendReelPosition, true),
            FishingTransferState::SendReelPosition => (self.reel_speed, FishingTransferState::SendReelSpeed, true),
            FishingTransferState::SendReelSpeed => (self.tilt_x, FishingTransferState::SendTiltX, true),
            FishingTransferState::SendTiltX => (self.tilt_y, FishingTransferState::SendTiltY, false),
            FishingTransferState::SendTiltY => (0xFF, FishingTransferState::Idle, false),
        };
        self.transfer_state = next_state;
        Response { data: response, request_dsr }
    }

    /// Buttons 0 to 7 are cast, reel, select, start, up, right, down, left; other
    /// numbers are ignored.
    fn set_button(&mut self, button: usize, pressed: bool)
        ensures
            match fishing_button_of(button) {
                Some(b) => *final(self) == (FishingController {
                    buttons: if pressed { old(self).buttons & !fishing_mask(b) } else { old(self).buttons | fishing_mask(b) },
                    ..*old(self)
                }),
                None => *final(self) == *old(self),
            },
    {
        let b = if button == 0 {
            FishingButton::Cast
        } else if button == 1 {
            FishingButton::Reel
        } else if button == 2 {
            FishingButton::Select
        } else if button == 3 {
            FishingButton::Start
        } else if button == 4 {
            FishingButton::Up
        } else if button == 5 {
            FishingButton::Right
        } else if button == 6 {
            FishingButton::Down
        } else if button == 7 {
            FishingButton::Left
        } else {
            return;
        };
        if pressed {
            self.press_button(b);
        } else {
            self.release_button(b);
        }
    }

    fn new_frame(&mut self)
        ensures
            *final(self) == (FishingController {
                rod_motion: toward_rest(old(self).rod_motion),
                reel_speed: toward_rest(old(self).reel_speed),
                ..*old(self)
            }),
    {
        self.update_physics();
    }
}

/// A boxed fishing controller.
pub fn fishing_controller() -> (r: Box<dyn Peripheral>) {
    Box::new(FishingController::new())
}

} // verus!
