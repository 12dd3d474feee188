//! The GunCon light gun.

use vstd::prelude::*;
use super::peripheral_trait::{Peripheral, Response};

verus! {

/// Where a GunCon transfer stands.
#[derive(Debug, Clone, Copy, PartialEq, Eq, Structural)]
pub enum GunTransferState {
    Idle,
    Connected,
    SendId1,
    SendId2,
    SendButtons,
    SendXLow,
    SendXHigh,
    SendYLow,
    SendYHigh,
}

/// The video standard the gun's coordinates refer to.
#[derive(Debug, Clone, Copy, PartialEq, Eq, Structural)]
pub enum VideoStandard {
    NTSC,
    PAL,
}

/// GunCon buttons.
#[derive(Debug, Clone, Copy, PartialEq, Eq, Structural)]
pub enum GunConButton {
    Trigger,
    A,
    B,
}

/// The bit of a button in the (active low) button byte.
pub open spec fn gun_mask(b: GunConButton) -> u8 {
    match b {
        GunConButton::Trigger => 0x20,
        GunConButton::A => 0x08,
        GunConButton::B => 0x40,
    }
}

impl GunConButton {
    pub fn mask(self) -> (r: u8)
        ensures
            r == gun_mask(self),
    {
        match self {
            GunConButton::Trigger => 0x20,
            GunConButton::A => 0x08,
            GunConButton::B => 0x40,
        }
    }
}

/// A GunCon.
#[derive(Debug, Clone, Copy, PartialEq, Eq, Structural)]
pub struct GunCon {
    pub x_position: u16,
    pub y_position: u16,
    /// Button bits, active low.
    pub buttons: u8,
    pub transfer_state: GunTransferState,
    pub on_screen: bool,
    pub video_standard: VideoStandard,
}

/// One byte of a GunCon transfer: (reply, next state, acknowledge).
pub open spec fn gun_step(g: GunCon, cmd: u8) -> (u8, GunTransferState, bool) {
    match g.transfer_state {
        GunTransferState::Idle => if cmd == 0x01 { (0x63, GunTransferState::Connected, true) } else { (0xFF, GunTransferState::Idle, false) },
        GunTransferState::Connected => if cmd == 0x42 { (0x5A, GunTransferState::SendId1, true) } else { (0xFF, GunTransferState::Idle, false) },
        GunTransferState::SendId1 => (g.buttons, GunTransferState::SendButtons, true),
        GunTransferState::SendButtons => (g.x_position as u8, GunTransferState::SendXLow, true),
        GunTransferState::SendXLow => ((g.x_position >> 8u16) as u8, GunTransferState::SendXHigh, true),
        GunTransferState::SendXHigh => (g.y_position as u8, GunTransferState::SendYLow, true),
        GunTransferState::SendYLow => ((g.y_position >> 8u16) as u8, GunTransferState::SendYHigh, false),
        _ => (0xFF, GunTransferState::Idle, false),
    }
}

/// The last scanline the gun can report.
pub open spec fn y_max(vs: VideoStandard) -> u16 {
    if vs == VideoStandard::NTSC { 262 } else { 312 }
}

impl GunCon {
    /// Aimed at the centre, nothing pressed, off screen.
    pub fn new(video_standard: VideoStandard) -> (r: Self)
        ensures
            r == (GunCon {
                x_position: 0x100,
                y_position: 0x80,
                buttons: 0xFF,
                transfer_state: GunTransferState::Idle,
                on_screen: false,
                video_standard: video_standard,
            }),
    {
        GunCon {
            x_position: 0x100,
            y_position: 0x80,
            buttons: 0xFF,
            transfer_state: GunTransferState::Idle,
            on_screen: false,
            video_standard,
        }
    }

    /// Aim at (x, y), clamped to the screen: x to 1023, y to the last scanline.
    pub fn set_position(&mut self, x: u16, y: u16)
        ensures
            *final(self) == (GunCon {
                x_position: if x < 1023 { x } else { 1023 },
                y_position: if y < y_max(old(self).video_standard) { y } else { y_max(old(self).video_standard) },
                on_screen: true,
                ..*old(self)
            }),
    {
        self.x_position = if x < 1023 { x } else { 1023 };
        let ym: u16 = match self.video_standard {
            VideoStandard::NTSC => 262,
            VideoStandard::PAL => 312,
        };
        self.y_position = if y < ym { y } else { ym };
        self.on_screen = true;
    }

    /// Point on or off the screen; off screen reports the off-screen coordinates.
    pub fn set_on_screen(&mut self, on_screen: bool)
        ensures
            on_screen ==> *final(self) == (GunCon { on_screen: true, ..*old(self) }),
            !on_screen ==> *final(self) == (GunCon {
                on_screen: false,
                x_position: 0x3FF,
                y_position: if old(self).video_standard == VideoStandard::NTSC { 0x106 } else { 0x138 },
                ..*old(self)
            }),
    {
        self.on_screen = on_screen;
        if !on_screen {
            self.x_position = 0x3FF;
            self.y_position = match self.video_standard {
                VideoStandard::NTSC => 0x106,
                VideoStandard::PAL => 0x138,
            };
        }
    }

    pub fn press_button(&mut self, button: GunConButton)
        ensures
            *final(self) == (GunCon { buttons: old(self).buttons & !gun_mask(button), ..*old(self) }),
    {
        self.buttons = self.buttons & !button.mask();
    }

    pub fn release_button(&mut self, button: GunConButton)
        ensures
            *final(self) == (GunCon { buttons: old(self).buttons | gun_mask(button), ..*old(self) }),
    {
        self.buttons = self.buttons | button.mask();
    }

    pub fn pull_trigger(&mut self)
        ensures
            *final(self) == (GunCon { buttons: old(self).buttons & !0x20u8, ..*old(self) }),
    {
        self.press_button(GunConButton::Trigger);
    }

    pub fn release_trigger(&mut self)
        ensures
            *final(self) == (GunCon { buttons: old(self).buttons | 0x20u8, ..*old(self) }),
    {
        self.release_button(GunConButton::Trigger);
    }
}

/// The number of a light gun transfer state, in the order of the protocol.
pub open spec fn gun_code(s: GunTransferState) -> int {
    match s {
        GunTransferState::Idle => 0,
        GunTransferState::Connected => 1,
        GunTransferState::SendId1 => 2,
        GunTransferState::SendId2 => 3,
        GunTransferState::SendButtons => 4,
        GunTransferState::SendXLow => 5,
        GunTransferState::SendXHigh => 6,
        GunTransferState::SendYLow => 7,
        GunTransferState::SendYHigh => 8,
    }
}

/// The state of a light gun: its kind, its transfer state and its fields.
pub open spec fn gun_state_of(m: GunCon) -> Seq<int> {
    seq![2, gun_code(m.transfer_state), m.x_position as int, m.y_position as int, m.buttons as int, if m.on_screen { 1int } else { 0int }, if m.video_standard == VideoStandard::PAL { 1int } else { 0int }]
}

impl GunCon {
    /// A boxed copy of the device.
    pub fn clone_box(&self) -> (r: Box<dyn Peripheral>) {
        Box::new(*self)
    }
}

impl Peripheral for GunCon {
    open spec fn state(&self) -> Seq<int> {
        gun_state_of(*self)
    }

    open spec fn next_state(&self, cmd: u8, target_device: bool) -> Seq<int> {
        let s = gun_step(*self, cmd);
        gun_state_of(GunCon { transfer_state: s.1, ..*self })
    }

    open spec fn reply(&self, cmd: u8, target_device: bool) -> Response {
        let s = gun_step(*self, cmd);
        Response { data: s.0, request_dsr: s.2 }
    }

    /// Poll sequence: 0x63, 0x5A, buttons, X low, X high, Y low, Y high.
    fn send_byte(&mut self, cmd: u8, target_device: bool) -> (r: Response)
        ensures
            ({
                let s = gun_step(*old(self), cmd);
                &&& r == (Response { data: s.0, request_dsr: s.2 })
                &&& *final(self) == (GunCon { transfer_state: s.1, ..*old(self) })
            }),
    {
        let (response, next_state, request_dsr): (u8, GunTransferState, bool) = match self.transfer_state {
            GunTransferState::Idle => if cmd == 0x01 { (0x63, GunTransferState::Connected, true) } else { (0xFF, GunTransferState::Idle, false) },
            GunTransferState::Connected => if cmd == 0x42 { (0x5A, GunTransferState::SendId1, true) } else { (0xFF, GunTransferState::Idle, false) },
            GunTransferState::SendId1 => (self.buttons, GunTransferState::SendButtons, true),
            GunTransferState::SendButtons => (self.x_position as u8, GunTransferState::SendXLow, true),
            GunTransferState::SendXLow => ((self.x_position >> 8) as u8, GunTransferState::SendXHigh, true),
            GunTransferState::SendXHigh => (self.y_position as u8, GunTransferState::SendYLow, true),
            GunTransferState::SendYLow => ((self.y_position >> 8) as u8, GunTransferState::SendYHigh, false),
            _ => (0xFF, GunTransferState::Idle, false),
        };
        self.transfer_state = next_state;
        Response { data: response, request_dsr }
    }

    /// Button 0 is the trigger, 1 is A, 2 is B.
    fn set_button(&mut self, button: usize, pressed: bool)
        ensures
            button == 0 ==> final(self).buttons == (if pressed { old(self).buttons & !0x20u8 } else { old(self).buttons | 0x20u8 }),
            button == 1 ==> final(self).buttons == (if pressed { old(self).buttons & !0x08u8 } else { old(self).buttons | 0x08u8 }),
            button == 2 ==> final(self).buttons == (if pressed { old(self).buttons & !0x40u8 } else { old(self).buttons | 0x40u8 }),
            button > 2 ==> final(self).buttons == old(self).buttons,
            *final(self) == (GunCon { buttons: final(self).buttons, ..*old(self) }),
    {
        if button == 0 {
            if pressed { self.pull_trigger(); } else { self.release_trigger(); }
        } else if button == 1 {
            if pressed { self.press_button(GunConButton::A); } else { self.release_button(GunConButton::A); }
        } else if button == 2 {
            if pressed { self.press_button(GunConButton::B); } else { self.release_button(GunConButton::B); }
        }
    }
}

/// A boxed GunCon.
pub fn guncon(video_standard: VideoStandard) -> (r: Box<dyn Peripheral>) {
    Box::new(GunCon::new(video_standard))
}

} // verus!
