//! What every controller-port device offers.

use vstd::prelude::*;
use vstd::string::StringExecFns;
use super::super::DsrState;

verus! {

/// A device's answer to one byte.
#[derive(Debug, Clone, Copy, PartialEq, Eq, Structural)]
pub struct Response {
    /// The byte sent back.
    pub data: u8,
    /// Whether the device asks for an acknowledge pulse (more bytes to come).
    pub request_dsr: bool,
}

impl Response {
    /// The response as a byte and a DSR state: an acknowledge is due after 100 cycles.
    pub fn to_tuple(self) -> (r: (u8, DsrState))
        ensures
            r.0 == self.data,
            r.1 == (if self.request_dsr { DsrState::Pending(100) } else { DsrState::Idle }),
    {
        let dsr = if self.request_dsr { DsrState::Pending(100) } else { DsrState::Idle };
        (self.data, dsr)
    }
}

/// A device on a controller port.
pub trait Peripheral {
    /// The answer the device gives to `cmd` in its present state.
    spec fn reply(&self, cmd: u8, target_device: bool) -> Response;

    /// The device's state as the proofs see it: a number for the kind of device, then
    /// its fields. A device that shows nothing of itself has the empty state.
    open spec fn state(&self) -> Seq<int> {
        Seq::empty()
    }

    /// The state the device moves to when it takes `cmd`.
    open spec fn next_state(&self, cmd: u8, target_device: bool) -> Seq<int> {
        Seq::empty()
    }

    /// Send a byte and take the device's answer; the device moves to its next state.
    fn send_byte(&mut self, cmd: u8, target_device: bool) -> (r: Response)
        ensures
            r == old(self).reply(cmd, target_device),
            final(self).state() == old(self).next_state(cmd, target_device),
    ;

    /// Press or release a button.
    fn set_button(&mut self, button: usize, pressed: bool) {
    }

    /// Move an analog axis.
    fn set_axis(&mut self, axis: usize, value: i16) {
    }

    /// Rumble motor strengths.
    fn get_rumble(&self) -> (u8, u8) {
        (0, 0)
    }

    /// The device was selected.
    fn select(&mut self) {
    }

    /// A frame went by.
    fn new_frame(&mut self) {
    }

    /// A description of the device.
    fn description(&self) -> String {
        String::from_str("Generic Peripheral")
    }
}

} // verus!
