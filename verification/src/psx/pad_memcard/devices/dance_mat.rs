//! Dance mat controllers: a digital pad laid out as a 3x3 grid of pads plus Start, and
//! a variant that counts combos.

use vstd::prelude::*;
use vstd::string::StringExecFns;
use super::peripheral_trait::{Peripheral, Response};

verus! {

/// Where a dance mat transfer stands.
#[derive(Debug, Clone, Copy, PartialEq, Eq, Structural)]
pub enum DanceTransferState {
    Idle,
    Connected,
    SendId1,
    SendId2,
    SendButtons1,
    SendButtons2,
}

/// The pads of the mat.
#[derive(Debug, Clone, Copy, PartialEq, Eq, Structural)]
pub enum DancePad {
    Up,
    Down,
    Left,
    Right,
    UpLeft,
    UpRight,
    DownLeft,
    DownRight,
    Center,
    Start,
}

/// The bit of a pad in the (active low) button word.
pub open spec fn pad_mask(p: DancePad) -> u16 {
    match p {
        DancePad::Up => 0x1000,
        DancePad::Right => 0x2000,
        DancePad::Down => 0x4000,
        DancePad::Left => 0x8000,
        DancePad::UpLeft => 0x0010,
        DancePad::UpRight => 0x0020,
        DancePad::DownLeft => 0x0040,
        DancePad::DownRight => 0x0080,
        DancePad::Center => 0x0100,
        DancePad::Start => 0x0800,
    }
}

/// The pad's place in the 3x3 grid (Start lies outside it, at 9).
pub open spec fn pad_index(p: DancePad) -> usize {
    match p {
        DancePad::UpLeft => 0,
        DancePad::Up => 1,
        DancePad::UpRight => 2,
        DancePad::Left => 3,
        DancePad::Center => 4,
        DancePad::Right => 5,
        DancePad::DownLeft => 6,
        DancePad::Down => 7,
        DancePad::DownRight => 8,
        DancePad::Start => 9,
    }
}

impl DancePad {
    pub fn mask(self) -> (r: u16)
        ensures
            r == pad_mask(self),
    {
        match self {
            DancePad::Up => 0x1000,
            DancePad::Right => 0x2000,
            DancePad::Down => 0x4000,
            DancePad::Left => 0x8000,
            DancePad::UpLeft => 0x0010,
            DancePad::UpRight => 0x0020,
            DancePad::DownLeft => 0x0040,
            DancePad::DownRight => 0x0080,
            DancePad::Center => 0x0100,
            DancePad::Start => 0x0800,
        }
    }

    pub fn index(self) -> (r: usize)
        ensures
            r == pad_index(self),
    {
        match self {
            DancePad::UpLeft => 0,
            DancePad::Up => 1,
            DancePad::UpRight => 2,
            DancePad::Left => 3,
            DancePad::Center => 4,
            DancePad::Right => 5,
            DancePad::DownLeft => 6,
            DancePad::Down => 7,
            DancePad::DownRight => 8,
            DancePad::Start => 9,
        }
    }
}

/// The pad a button number stands for, as the pad is mapped onto a controller.
pub open spec fn pad_of_button(b: usize) -> Option<DancePad> {
    if b == 0 { Some(DancePad::Down) }
    else if b == 1 { Some(DancePad::Right) }
    else if b == 2 { Some(DancePad::Left) }
    else if b == 3 { Some(DancePad::Up) }
    else if b == 4 { Some(DancePad::UpLeft) }
    else if b == 5 { Some(DancePad::UpRight) }
    else if b == 6 { Some(DancePad::DownLeft) }
    else if b == 7 { Some(DancePad::DownRight) }
    else if b == 8 { Some(DancePad::Center) }
    else if b == 9 { Some(DancePad::Start) }
    else { None }
}

/// A dance mat.
#[derive(Debug, Clone, Copy)]
pub struct DanceMat {
    /// Button bits, active low.
    pub buttons: u16,
    pub transfer_state: DanceTransferState,
    /// Pressure of each pad of the grid.
    pub pad_pressure: [u8; 9],
}

/// One byte of a dance mat transfer: (reply, next state, acknowledge).
pub open spec fn dance_step(state: DanceTransferState, buttons: u16, cmd: u8) -> (u8, DanceTransferState, bool) {
    match state {
        DanceTransferState::Idle => if cmd == 0x01 { (0xFF, DanceTransferState::Connected, true) } else { (0xFF, DanceTransferState::Idle, false) },
        DanceTransferState::Connected => if cmd == 0x42 { (0x41, DanceTransferState::SendId1, true) } else { (0xFF, DanceTransferState::Idle, false) },
        DanceTransferState::SendId1 => (0x5A, DanceTransferState::SendId2, true),
        DanceTransferState::SendId2 => (buttons as u8, DanceTransferState::SendButtons1, true),
        DanceTransferState::SendButtons1 => ((buttons >> 8u16) as u8, DanceTransferState::SendButtons2, false),
        DanceTransferState::SendButtons2 => (0xFF, DanceTransferState::Idle, false),
    }
}

/// A pressure after one frame: partial pressures fade by 10, full and zero ones stay.
pub open spec fn faded(p: u8) -> u8 {
    if 0 < p < 255 { if p >= 10 { (p - 10) as u8 } else { 0 } } else { p }
}

impl DanceMat {
    /// Nothing pressed.
    pub fn new() -> (r: Self)
        ensures
            r.buttons == 0xFFFF,
            r.transfer_state == DanceTransferState::Idle,
            r.pad_pressure@ == Seq::new(9, |i: int| 0u8),
    {
        let r = DanceMat { buttons: 0xFFFF, transfer_state: DanceTransferState::Idle, pad_pressure: [0; 9] };
        assert(r.pad_pressure@ =~= Seq::new(9, |i: int| 0u8));
        r
    }

    /// Press a pad: its bit goes low and, on the grid, its pressure goes to full.
    pub fn press_pad(&mut self, pad: DancePad)
        ensures
            final(self).buttons == old(self).buttons & !pad_mask(pad),
            final(self).pad_pressure@ == (if pad_index(pad) < 9 {
                old(self).pad_pressure@.update(pad_index(pad) as int, 255)
            } else {
                old(self).pad_pressure@
            }),
            final(self).transfer_state == old(self).transfer_state,
    {
        self.buttons = self.buttons & !pad.mask();
        let index = pad.index();
        if index < 9 {
            self.pad_pressure.set(index, 255);
        }
    }

    /// Release a pad: its bit goes high and, on the grid, its pressure to zero.
    pub fn release_pad(&mut self, pad: DancePad)
        ensures
            final(self).buttons == old(self).buttons | pad_mask(pad),
            final(self).pad_pressure@ == (if pad_index(pad) < 9 {
                old(self).pad_pressure@.update(pad_index(pad) as int, 0)
            } else {
                old(self).pad_pressure@
            }),
            final(self).transfer_state == old(self).transfer_state,
    {
        self.buttons = self.buttons | pad.mask();
        let index = pad.index();
        if index < 9 {
            self.pad_pressure.set(index, 0);
        }
    }

    /// Whether a pad is held.
    pub fn is_pressed(&self, pad: DancePad) -> (r: bool)
        ensures
            r == (self.buttons & pad_mask(pad) == 0),
    {
        (self.buttons & pad.mask()) == 0
    }

    /// A pad's pressure (0 for Start).
    pub fn get_pressure(&self, pad: DancePad) -> (r: u8)
        ensures
            r == (if pad_index(pad) < 9 { self.pad_pressure@[pad_index(pad) as int] } else { 0 }),
    {
        let index = pad.index();
        if index < 9 { self.pad_pressure[index] } else { 0 }
    }

    /// Let partial pressures fade.
    pub fn update_pressure(&mut self)
        ensures
            final(self).pad_pressure@ == Seq::new(9, |i: int| faded(old(self).pad_pressure@[i])),
            final(self).buttons == old(self).buttons,
            final(self).transfer_state == old(self).transfer_state,
    {
        let mut i: usize = 0;
        while i < 9
            invariant
                i <= 9,
                self.buttons == old(self).buttons,
                self.transfer_state == old(self).transfer_state,
                forall|j: int| 0 <= j < 9 ==> #[trigger] self.pad_pressure@[j] == (if j < i { faded(old(self).pad_pressure@[j]) } else { old(self).pad_pressure@[j] }),
            decreases 9 - i,
        {
            let p = self.pad_pressure[i];
            if p > 0 && p < 255 {
                self.pad_pressure.set(i, if p >= 10 { p - 10 } else { 0 });
            }
            i = i + 1;
        }
        assert(self.pad_pressure@ =~= Seq::new(9, |i: int| faded(old(self).pad_pressure@[i])));
    }
}

/// The number of a dance mat transfer state, in the order of the protocol.
pub open spec fn dance_code(s: DanceTransferState) -> int {
    match s {
        DanceTransferState::Idle => 0,
        DanceTransferState::Connected => 1,
        DanceTransferState::SendId1 => 2,
        DanceTransferState::SendId2 => 3,
        DanceTransferState::SendButtons1 => 4,
        DanceTransferState::SendButtons2 => 5,
    }
}

/// The state of a dance mat: its kind, its transfer state, its buttons and the pressure
/// of each pad.
pub open spec fn dance_state_of(ts: DanceTransferState, buttons: u16, pads: Seq<u8>) -> Seq<int> {
    seq![4, dance_code(ts), buttons as int] + pads.map_values(|p: u8| p as int)
}

impl DanceMat {
    /// A boxed copy of the device.
    pub fn clone_box(&self) -> (r: Box<dyn Peripheral>) {
        Box::new(*self)
    }
}

impl Peripheral for DanceMat {
    open spec fn state(&self) -> Seq<int> {
        dance_state_of(self.transfer_state, self.buttons, self.pad_pressure@)
    }

    open spec fn next_state(&self, cmd: u8, target_device: bool) -> Seq<int> {
        dance_state_of(dance_step(self.transfer_state, self.buttons, cmd).1, self.buttons, self.pad_pressure@)
    }

    open spec fn reply(&self, cmd: u8, target_device: bool) -> Response {
        let s = dance_step(self.transfer_state, self.buttons, cmd);
        Response { data: s.0, request_dsr: s.2 }
    }

    /// Poll sequence of a digital pad: 0xFF, ID 0x41, 0x5A, buttons low, buttons high.
    fn send_byte(&mut self, cmd: u8, target_device: bool) -> (r: Response)
        ensures
            ({
                let s = dance_step(old(self).transfer_state, old(self).buttons, cmd);
                &&& r == (Response { data: s.0, request_dsr: s.2 })
                &&& final(self).transfer_state == s.1
                &&& final(self).buttons == old(self).buttons
                &&& final(self).pad_pressure == old(self).pad_pressure
            }),
    {
        let (response, next_state, request_dsr): (u8, DanceTransferState, bool) = match self.transfer_state {
            DanceTransferState::Idle => if cmd == 0x01 { (0xFF, DanceTransferState::Connected, true) } else { (0xFF, DanceTransferState::Idle, false) },
            DanceTransferState::Connected => if cmd == 0x42 { (0x41, DanceTransferState::SendId1, true) } else { (0xFF, DanceTransferState::Idle, false) },
            DanceTransferState::SendId1 => (0x5A, DanceTransferState::SendId2, true),
            DanceTransferState::SendId2 => (self.buttons as u8, DanceTransferState::SendButtons1, true),
            DanceTransferState::SendButtons1 => ((self.buttons >> 8) as u8, DanceTransferState::SendButtons2, false),
            DanceTransferState::SendButtons2 => (0xFF, DanceTransferState::Idle, false),
        };
        self.transfer_state = next_state;
        Response { data: response, request_dsr }
    }

    /// Buttons 0 to 9 press or release the mapped pad; others are ignored.
    fn set_button(&mut self, button: usize, pressed: bool)
        ensures
            match pad_of_button(button) {
                Some(p) => final(self).buttons == (if pressed { old(self).buttons & !pad_mask(p) } else { old(self).buttons | pad_mask(p) }),
                None => final(self).buttons == old(self).buttons,
            },
            final(self).transfer_state == old(self).transfer_state,
    {
        let pad = if button == 0 { DancePad::Down }
            else if button == 1 { DancePad::Right }
            else if button == 2 { DancePad::Left }
            else if button == 3 { DancePad::Up }
            else if button == 4 { DancePad::UpLeft }
            else if button == 5 { DancePad::UpRight }
            else if button == 6 { DancePad::DownLeft }
            else if button == 7 { DancePad::DownRight }
            else if button == 8 { DancePad::Center }
            else if button == 9 { DancePad::Start }
            else { return; };
        if pressed {
            self.press_pad(pad);
        } else {
            self.release_pad(pad);
        }
    }

    /// Each frame the partial pressures fade.
    fn new_frame(&mut self)
        ensures
            final(self).pad_pressure@ == Seq::new(9, |i: int| faded(old(self).pad_pressure@[i])),
            final(self).buttons == old(self).buttons,
    {
        self.update_pressure();
    }

    fn description(&self) -> (r: String)
        ensures
            r@ == "Dance Mat Controller"@,
    {
        String::from_str("Dance Mat Controller")
    }
}

/// A boxed dance mat.
pub fn dance_mat() -> (r: Box<dyn Peripheral>) {
    Box::new(DanceMat::new())
}

/// A dance mat that counts combos: different pads hit within the combo window.
#[derive(Debug, Clone, Copy)]
pub struct DanceMatPro {
    pub base: DanceMat,
    pub combo: u32,
    pub last_pad: Option<DancePad>,
    /// Frames a combo stays open after a hit.
    pub combo_window: u8,
    pub combo_timer: u8,
}

impl DanceMatPro {
    /// No combo, a 30-frame window.
    pub fn new() -> (r: Self)
        ensures
            r.base.buttons == 0xFFFF,
            r.combo == 0 && r.last_pad.is_none() && r.combo_window == 30 && r.combo_timer == 0,
    {
        DanceMatPro { base: DanceMat::new(), combo: 0, last_pad: None, combo_window: 30, combo_timer: 0 }
    }

    /// Press a pad and count it: inside the window a different pad than the last adds to
    /// the combo, outside it the combo restarts at 0.
    pub fn press_pad_with_timing(&mut self, pad: DancePad)
        requires
            old(self).combo < u32::MAX,
        ensures
            final(self).base.buttons == old(self).base.buttons & !pad_mask(pad),
            final(self).combo == (if old(self).combo_timer > 0 {
                match old(self).last_pad {
                    Some(last) => if last != pad { (old(self).combo + 1) as u32 } else { old(self).combo },
                    None => old(self).combo,
                }
            } else {
                0
            }),
            final(self).last_pad == Some(pad),
            final(self).combo_timer == old(self).combo_window,
            final(self).combo_window == old(self).combo_window,
    {
        self.base.press_pad(pad);
        if self.combo_timer > 0 {
            match self.last_pad {
                Some(last) => {
                    if last != pad {
                        self.combo = self.combo + 1;
                    }
                },
                None => {},
            }
        } else {
            self.combo = 0;
        }
        self.last_pad = Some(pad);
        self.combo_timer = self.combo_window;
    }

    /// A frame went by: the window runs down, a combo ends when it closes, and
    /// pressures fade.
    pub fn update(&mut self)
        ensures
            final(self).combo_timer == (if old(self).combo_timer > 0 { (old(self).combo_timer - 1) as u8 } else { 0 }),
            old(self).combo_timer == 1 && old(self).combo > 0 ==> final(self).combo == 0 && final(self).last_pad.is_none(),
            !(old(self).combo_timer == 1 && old(self).combo > 0) ==> final(self).combo == old(self).combo && final(self).last_pad == old(self).last_pad,
            final(self).base.pad_pressure@ == Seq::new(9, |i: int| faded(old(self).base.pad_pressure@[i])),
            final(self).base.buttons == old(self).base.buttons,
    {
        if self.combo_timer > 0 {
            self.combo_timer = self.combo_timer - 1;
            if self.combo_timer == 0 && self.combo > 0 {
                self.combo = 0;
                self.last_pad = None;
            }
        }
        self.base.update_pressure();
    }
}

} // verus!
