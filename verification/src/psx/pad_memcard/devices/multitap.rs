//! The Multitap (SCPH-1070): four controllers and four memory cards on one port.

use vstd::prelude::*;
use super::peripheral_trait::{Peripheral, Response};

verus! {

/// An empty slot: answers every byte with 0xFF and no acknowledge.
#[derive(Debug, Clone, Copy)]
pub struct DisconnectedPeripheral;

impl DisconnectedPeripheral {
    /// A boxed copy of the device.
    pub fn clone_box(&self) -> (r: Box<dyn Peripheral>) {
        Box::new(*self)
    }
}

impl Peripheral for DisconnectedPeripheral {
    open spec fn reply(&self, cmd: u8, target_device: bool) -> Response {
        Response { data: 0xFF, request_dsr: false }
    }

    open spec fn state(&self) -> Seq<int> {
        seq![0]
    }

    open spec fn next_state(&self, cmd: u8, target_device: bool) -> Seq<int> {
        seq![0]
    }

    fn send_byte(&mut self, cmd: u8, target_device: bool) -> (r: Response)
        ensures
            r == (Response { data: 0xFF, request_dsr: false }),
    {
        Response { data: 0xFF, request_dsr: false }
    }
}

/// The number of a multitap transfer state, in the order of the protocol.
pub open spec fn transfer_code(s: TransferState) -> int {
    match s {
        TransferState::Idle => 0,
        TransferState::SelectSlot => 1,
        TransferState::ForwardCommand => 2,
        TransferState::RelayData => 3,
    }
}

/// The multitap's own state: its kind, the selected slot, whether memory cards are
/// selected, the transfer state and the buffer position. The devices in its slots
/// have states of their own.
pub open spec fn multitap_state_of(slot: u8, cards: bool, ts: TransferState, pos: usize) -> Seq<int> {
    seq![6, slot as int, if cards { 1int } else { 0int }, transfer_code(ts), pos as int]
}

/// Where a multitap transfer stands.
#[derive(Debug, Clone, Copy, PartialEq, Eq, Structural)]
pub enum TransferState {
    Idle,
    SelectSlot,
    ForwardCommand,
    RelayData,
}

/// The multitap adapter: controller slots A to D, memory card slots A to D.
pub struct Multitap {
    pub controller_a: Box<dyn Peripheral>,
    pub controller_b: Box<dyn Peripheral>,
    pub controller_c: Box<dyn Peripheral>,
    pub controller_d: Box<dyn Peripheral>,
    pub memory_card_a: Box<dyn Peripheral>,
    pub memory_card_b: Box<dyn Peripheral>,
    pub memory_card_c: Box<dyn Peripheral>,
    pub memory_card_d: Box<dyn Peripheral>,
    pub current_slot: u8,
    pub accessing_memory_cards: bool,
    pub transfer_state: TransferState,
    pub data_buffer: Vec<u8>,
    pub buffer_position: usize,
}

/// The effect of a byte on the multitap's own state, before anything is forwarded:
/// (response, next state, slot, memory cards selected).
pub open spec fn idle_step(cmd: u8, target_device: bool, slot: u8, cards: bool) -> (Response, TransferState, u8, bool) {
    if cmd == 0x01 {
        (Response { data: 0xFF, request_dsr: true }, TransferState::SelectSlot, slot, target_device)
    } else if 0x11 <= cmd <= 0x14 {
        (Response { data: 0x80, request_dsr: true }, TransferState::ForwardCommand, (cmd - 0x11) as u8, false)
    } else if 0x21 <= cmd <= 0x24 {
        (Response { data: 0x80, request_dsr: true }, TransferState::ForwardCommand, (cmd - 0x21) as u8, true)
    } else {
        (Response { data: 0xFF, request_dsr: false }, TransferState::Idle, slot, cards)
    }
}

impl Multitap {
    /// The answer of the device in the selected slot.
    pub open spec fn selected_reply(&self, cmd: u8, target_device: bool) -> Response {
        if self.accessing_memory_cards {
            if self.current_slot == 0 {
                self.memory_card_a.reply(cmd, target_device)
            } else if self.current_slot == 1 {
                self.memory_card_b.reply(cmd, target_device)
            } else if self.current_slot == 2 {
                self.memory_card_c.reply(cmd, target_device)
            } else {
                self.memory_card_d.reply(cmd, target_device)
            }
        } else {
            if self.current_slot == 0 {
                self.controller_a.reply(cmd, target_device)
            } else if self.current_slot == 1 {
                self.controller_b.reply(cmd, target_device)
            } else if self.current_slot == 2 {
                self.controller_c.reply(cmd, target_device)
            } else {
                self.controller_d.reply(cmd, target_device)
            }
        }
    }

    /// The eight slot devices of `self` and `other` are the same.
    pub open spec fn same_devices(&self, other: &Multitap) -> bool {
        &&& self.controller_a == other.controller_a && self.controller_b == other.controller_b
        &&& self.controller_c == other.controller_c && self.controller_d == other.controller_d
        &&& self.memory_card_a == other.memory_card_a && self.memory_card_b == other.memory_card_b
        &&& self.memory_card_c == other.memory_card_c && self.memory_card_d == other.memory_card_d
    }

    /// Every slot device but the one selected in `self` is the same in `self` and `other`.
    pub open spec fn same_unselected_devices(&self, other: &Multitap) -> bool {
        &&& self.accessing_memory_cards || self.current_slot != 0 ==> other.controller_a == self.controller_a
        &&& self.accessing_memory_cards || self.current_slot != 1 ==> other.controller_b == self.controller_b
        &&& self.accessing_memory_cards || self.current_slot != 2 ==> other.controller_c == self.controller_c
        &&& self.accessing_memory_cards || self.current_slot < 3 ==> other.controller_d == self.controller_d
        &&& !self.accessing_memory_cards || self.current_slot != 0 ==> other.memory_card_a == self.memory_card_a
        &&& !self.accessing_memory_cards || self.current_slot != 1 ==> other.memory_card_b == self.memory_card_b
        &&& !self.accessing_memory_cards || self.current_slot != 2 ==> other.memory_card_c == self.memory_card_c
        &&& !self.accessing_memory_cards || self.current_slot < 3 ==> other.memory_card_d == self.memory_card_d
    }

    /// The device selected in `self` has, in `new`, the state it moves to on `cmd`.
    pub open spec fn selected_stepped(&self, new: &Multitap, cmd: u8, target_device: bool) -> bool {
        if self.accessing_memory_cards {
            if self.current_slot == 0 {
                new.memory_card_a.state() == self.memory_card_a.next_state(cmd, target_device)
            } else if self.current_slot == 1 {
                new.memory_card_b.state() == self.memory_card_b.next_state(cmd, target_device)
            } else if self.current_slot == 2 {
                new.memory_card_c.state() == self.memory_card_c.next_state(cmd, target_device)
            } else {
                new.memory_card_d.state() == self.memory_card_d.next_state(cmd, target_device)
            }
        } else {
            if self.current_slot == 0 {
                new.controller_a.state() == self.controller_a.next_state(cmd, target_device)
            } else if self.current_slot == 1 {
                new.controller_b.state() == self.controller_b.next_state(cmd, target_device)
            } else if self.current_slot == 2 {
                new.controller_c.state() == self.controller_c.next_state(cmd, target_device)
            } else {
                new.controller_d.state() == self.controller_d.next_state(cmd, target_device)
            }
        }
    }

    /// The current slot is one of the four.
    pub open spec fn wf(&self) -> bool {
        self.current_slot < 4
    }

    /// Every slot empty, controller slot A selected, idle.
    pub fn new() -> (r: Self)
        ensures
            r.wf(),
            r.current_slot == 0,
            !r.accessing_memory_cards,
            r.transfer_state == TransferState::Idle,
            r.data_buffer@.len() == 0,
            r.buffer_position == 0,
            forall|cmd: u8, t: bool| #[trigger] r.controller_a.reply(cmd, t) == (Response { data: 0xFF, request_dsr: false }),
            forall|cmd: u8, t: bool| #[trigger] r.controller_b.reply(cmd, t) == (Response { data: 0xFF, request_dsr: false }),
            forall|cmd: u8, t: bool| #[trigger] r.controller_c.reply(cmd, t) == (Response { data: 0xFF, request_dsr: false }),
            forall|cmd: u8, t: bool| #[trigger] r.controller_d.reply(cmd, t) == (Response { data: 0xFF, request_dsr: false }),
            forall|cmd: u8, t: bool| #[trigger] r.memory_card_a.reply(cmd, t) == (Response { data: 0xFF, request_dsr: false }),
            forall|cmd: u8, t: bool| #[trigger] r.memory_card_b.reply(cmd, t) == (Response { data: 0xFF, request_dsr: false }),
            forall|cmd: u8, t: bool| #[trigger] r.memory_card_c.reply(cmd, t) == (Response { data: 0xFF, request_dsr: false }),
            forall|cmd: u8, t: bool| #[trigger] r.memory_card_d.reply(cmd, t) == (Response { data: 0xFF, request_dsr: false }),
    {
        Multitap {
            controller_a: Box::new(DisconnectedPeripheral),
            controller_b: Box::new(DisconnectedPeripheral),
            controller_c: Box::new(DisconnectedPeripheral),
            controller_d: Box::new(DisconnectedPeripheral),
            memory_card_a: Box::new(DisconnectedPeripheral),
            memory_card_b: Box::new(DisconnectedPeripheral),
            memory_card_c: Box::new(DisconnectedPeripheral),
            memory_card_d: Box::new(DisconnectedPeripheral),
            current_slot: 0,
            accessing_memory_cards: false,
            transfer_state: TransferState::Idle,
            data_buffer: Vec::with_capacity(256),
            buffer_position: 0,
        }
    }

    /// Plug a controller into `slot` (0 to 3); other slot numbers are ignored.
    pub fn connect_controller(&mut self, slot: usize, controller: Box<dyn Peripheral>)
        ensures
            *final(self) == (if slot == 0 {
                Multitap { controller_a: controller, ..*old(self) }
            } else if slot == 1 {
                Multitap { controller_b: controller, ..*old(self) }
            } else if slot == 2 {
                Multitap { controller_c: controller, ..*old(self) }
            } else if slot == 3 {
                Multitap { controller_d: controller, ..*old(self) }
            } else {
                *old(self)
            }),
    {
        if slot == 0 {
            self.controller_a = controller;
        } else if slot == 1 {
            self.controller_b = controller;
        } else if slot == 2 {
            self.controller_c = controller;
        } else if slot == 3 {
            self.controller_d = controller;
        }
    }

    /// Plug a memory card into `slot` (0 to 3); other slot numbers are ignored.
    pub fn connect_memory_card(&mut self, slot: usize, memory_card: Box<dyn Peripheral>)
        ensures
            *final(self) == (if slot == 0 {
                Multitap { memory_card_a: memory_card, ..*old(self) }
            } else if slot == 1 {
                Multitap { memory_card_b: memory_card, ..*old(self) }
            } else if slot == 2 {
                Multitap { memory_card_c: memory_card, ..*old(self) }
            } else if slot == 3 {
                Multitap { memory_card_d: memory_card, ..*old(self) }
            } else {
                *old(self)
            }),
    {
        if slot == 0 {
            self.memory_card_a = memory_card;
        } else if slot == 1 {
            self.memory_card_b = memory_card;
        } else if slot == 2 {
            self.memory_card_c = memory_card;
        } else if slot == 3 {
            self.memory_card_d = memory_card;
        }
    }

    /// Send a byte to the selected device.
    fn forward(&mut self, cmd: u8, target_device: bool) -> (r: Response)
        ensures
            r == old(self).selected_reply(cmd, target_device),
            final(self).current_slot == old(self).current_slot,
            final(self).accessing_memory_cards == old(self).accessing_memory_cards,
            final(self).transfer_state == old(self).transfer_state,
            final(self).data_buffer == old(self).data_buffer,
            final(self).buffer_position == old(self).buffer_position,
            old(self).same_unselected_devices(&*final(self)),
            old(self).selected_stepped(&*final(self), cmd, target_device),
    {
        if self.accessing_memory_cards {
            if self.current_slot == 0 {
                self.memory_card_a.send_byte(cmd, target_device)
            } else if self.current_slot == 1 {
                self.memory_card_b.send_byte(cmd, target_device)
            } else if self.current_slot == 2 {
                self.memory_card_c.send_byte(cmd, target_device)
            } else {
                self.memory_card_d.send_byte(cmd, target_device)
            }
        } else {
            if self.current_slot == 0 {
                self.controller_a.send_byte(cmd, target_device)
            } else if self.current_slot == 1 {
                self.controller_b.send_byte(cmd, target_device)
            } else if self.current_slot == 2 {
                self.controller_c.send_byte(cmd, target_device)
            } else {
                self.controller_d.send_byte(cmd, target_device)
            }
        }
    }
}

impl Peripheral for Multitap {
    open spec fn reply(&self, cmd: u8, target_device: bool) -> Response {
        match self.transfer_state {
            TransferState::Idle => idle_step(cmd, target_device, self.current_slot, self.accessing_memory_cards).0,
            TransferState::SelectSlot => if cmd < 4 {
                Response { data: 0x5A, request_dsr: true }
            } else {
                Response { data: 0xFF, request_dsr: false }
            },
            _ => self.selected_reply(cmd, target_device),
        }
    }

    open spec fn state(&self) -> Seq<int> {
        multitap_state_of(self.current_slot, self.accessing_memory_cards, self.transfer_state, self.buffer_position)
    }

    open spec fn next_state(&self, cmd: u8, target_device: bool) -> Seq<int> {
        let pos = self.buffer_position;
        match self.transfer_state {
            TransferState::Idle => {
                let s = idle_step(cmd, target_device, self.current_slot, self.accessing_memory_cards);
                multitap_state_of(s.2, s.3, s.1, pos)
            },
            TransferState::SelectSlot => if cmd < 4 {
                multitap_state_of(cmd, self.accessing_memory_cards, TransferState::ForwardCommand, pos)
            } else {
                multitap_state_of(self.current_slot, self.accessing_memory_cards, TransferState::Idle, pos)
            },
            _ => multitap_state_of(
                self.current_slot,
                self.accessing_memory_cards,
                if self.selected_reply(cmd, target_device).request_dsr { TransferState::RelayData } else { TransferState::Idle },
                pos,
            ),
        }
    }

    /// Idle: 0x01 starts a slot selection, 0x11..0x14 and 0x21..0x24 pick a controller
    /// or memory card slot directly (answered with the multitap ID 0x80). Selecting: a
    /// slot below 4 is taken and acknowledged with 0x5A, anything else aborts. Then bytes
    /// go to the selected device until it stops asking for an acknowledge.
    fn send_byte(&mut self, cmd: u8, target_device: bool) -> (r: Response)
        ensures
            old(self).transfer_state == TransferState::Idle ==> {
                let s = idle_step(cmd, target_device, old(self).current_slot, old(self).accessing_memory_cards);
                &&& r == s.0
                &&& final(self).transfer_state == s.1
                &&& final(self).current_slot == s.2
                &&& final(self).accessing_memory_cards == s.3
            },
            old(self).transfer_state == TransferState::SelectSlot ==> {
                &&& cmd < 4 ==> r == (Response { data: 0x5A, request_dsr: true })
                    && final(self).current_slot == cmd
                    && final(self).transfer_state == TransferState::ForwardCommand
                &&& cmd >= 4 ==> r == (Response { data: 0xFF, request_dsr: false })
                    && final(self).current_slot == old(self).current_slot
                    && final(self).transfer_state == TransferState::Idle
                &&& final(self).accessing_memory_cards == old(self).accessing_memory_cards
            },
            old(self).transfer_state == TransferState::Idle || old(self).transfer_state == TransferState::SelectSlot
                ==> final(self).same_devices(&*old(self)),
            old(self).transfer_state == TransferState::ForwardCommand || old(self).transfer_state == TransferState::RelayData
                ==> old(self).same_unselected_devices(&*final(self)) && old(self).selected_stepped(&*final(self), cmd, target_device),
            final(self).data_buffer == old(self).data_buffer,
            final(self).buffer_position == old(self).buffer_position,
            old(self).transfer_state == TransferState::ForwardCommand ==> {
                &&& final(self).transfer_state == (if r.request_dsr { TransferState::RelayData } else { TransferState::Idle })
                &&& final(self).current_slot == old(self).current_slot
                &&& final(self).accessing_memory_cards == old(self).accessing_memory_cards
            },
            old(self).transfer_state == TransferState::RelayData ==> {
                &&& final(self).transfer_state == (if r.request_dsr { TransferState::RelayData } else { TransferState::Idle })
                &&& final(self).current_slot == old(self).current_slot
                &&& final(self).accessing_memory_cards == old(self).accessing_memory_cards
            },
    {
        match self.transfer_state {
            TransferState::Idle => {
                if cmd == 0x01 {
                    self.accessing_memory_cards = target_device;
                    self.transfer_state = TransferState::SelectSlot;
                    Response { data: 0xFF, request_dsr: true }
                } else if cmd >= 0x11 && cmd <= 0x14 {
                    proof { assert(0x11 <= cmd <= 0x14 ==> cmd & 0x0f == cmd - 0x10) by (bit_vector); }
                    self.current_slot = (cmd & 0x0F) - 1;
                    self.accessing_memory_cards = false;
                    self.transfer_state = TransferState::ForwardCommand;
                    Response { data: 0x80, request_dsr: true }
                } else if cmd >= 0x21 && cmd <= 0x24 {
                    proof { assert(0x21 <= cmd <= 0x24 ==> cmd & 0x0f == cmd - 0x20) by (bit_vector); }
                    self.current_slot = (cmd & 0x0F) - 1;
                    self.accessing_memory_cards = true;
                    self.transfer_state = TransferState::ForwardCommand;
                    Response { data: 0x80, request_dsr: true }
                } else {
                    Response { data: 0xFF, request_dsr: false }
                }
            },
            TransferState::SelectSlot => {
                if cmd < 4 {
                    self.current_slot = cmd;
                    self.transfer_state = TransferState::ForwardCommand;
                    Response { data: 0x5A, request_dsr: true }
                } else {
                    self.transfer_state = TransferState::Idle;
                    Response { data: 0xFF, request_dsr: false }
                }
            },
            TransferState::ForwardCommand => {
                let response = self.forward(cmd, target_device);
                if response.request_dsr {
                    self.transfer_state = TransferState::RelayData;
                } else {
                    self.transfer_state = TransferState::Idle;
                }
                response
            },
            TransferState::RelayData => {
                let response = self.forward(cmd, target_device);
                if !response.request_dsr {
                    self.transfer_state = TransferState::Idle;
                }
                response
            },
        }
    }

    /// Pass a button to all four controllers.
    fn set_button(&mut self, button: usize, pressed: bool) {
        self.controller_a.set_button(button, pressed);
        self.controller_b.set_button(button, pressed);
        self.controller_c.set_button(button, pressed);
        self.controller_d.set_button(button, pressed);
    }

    /// Pass an axis to all four controllers.
    fn set_axis(&mut self, axis: usize, value: i16) {
        self.controller_a.set_axis(axis, value);
        self.controller_b.set_axis(axis, value);
        self.controller_c.set_axis(axis, value);
        self.controller_d.set_axis(axis, value);
    }
}

/// A boxed multitap with nothing plugged in.
pub fn multitap() -> (r: Box<dyn Peripheral>) {
    Box::new(Multitap::new())
}

/// A boxed multitap with `controllers` in slots A to D and no memory cards.
pub fn multitap_with_controllers(
    a: Box<dyn Peripheral>,
    b: Box<dyn Peripheral>,
    c: Box<dyn Peripheral>,
    d: Box<dyn Peripheral>,
) -> (r: Box<dyn Peripheral>) {
    let mut tap = Multitap::new();
    tap.controller_a = a;
    tap.controller_b = b;
    tap.controller_c = c;
    tap.controller_d = d;
    Box::new(tap)
}

} // verus!
