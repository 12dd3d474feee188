use rustation_ng::psx::pad_memcard::devices::multitap::{
    multitap, multitap_with_controllers, DisconnectedPeripheral, Multitap, TransferState,
};
use rustation_ng::psx::pad_memcard::devices::{Peripheral, Response};
use rustation_ng::psx::pad_memcard::DsrState;

#[derive(Clone)]
struct MockController {
    id: u8,
    button_pressed: bool,
    axis_value: i16,
}

impl Peripheral for MockController {
    fn reply(&self, cmd: u8, _target_device: bool) -> Response {
        match cmd {
            0x01 => Response { data: 0xFF, request_dsr: true },
            0x42 => Response { data: self.id, request_dsr: true },
            _ => Response { data: 0xFF, request_dsr: false },
        }
    }

    fn send_byte(&mut self, cmd: u8, target_device: bool) -> Response {
        self.reply(cmd, target_device)
    }

    fn set_button(&mut self, _button: usize, pressed: bool) {
        self.button_pressed = pressed;
    }

    fn set_axis(&mut self, _axis: usize, value: i16) {
        self.axis_value = value;
    }
}

#[test]
fn test_multitap_creation() {
    let multitap = Multitap::new();
    assert_eq!(multitap.current_slot, 0);
    assert_eq!(multitap.accessing_memory_cards, false);
    assert_eq!(multitap.transfer_state, TransferState::Idle);
}

#[test]
fn test_multitap_slot_selection() {
    let mut multitap = Multitap::new();

    let response = multitap.send_byte(0x01, false);
    assert_eq!(response.data, 0xFF);
    assert_eq!(response.request_dsr, true);
    assert_eq!(multitap.transfer_state, TransferState::SelectSlot);

    let response = multitap.send_byte(2, false);
    assert_eq!(response.data, 0x5A);
    assert_eq!(response.request_dsr, true);
    assert_eq!(multitap.current_slot, 2);
    assert_eq!(multitap.transfer_state, TransferState::ForwardCommand);
}

#[test]
fn test_direct_slot_access() {
    let mut multitap = Multitap::new();

    let response = multitap.send_byte(0x12, false);
    assert_eq!(response.data, 0x80);
    assert_eq!(response.request_dsr, true);
    assert_eq!(multitap.current_slot, 1);
    assert_eq!(multitap.accessing_memory_cards, false);

    multitap.transfer_state = TransferState::Idle;

    let response = multitap.send_byte(0x23, false);
    assert_eq!(response.data, 0x80);
    assert_eq!(response.request_dsr, true);
    assert_eq!(multitap.current_slot, 2);
    assert_eq!(multitap.accessing_memory_cards, true);
}

#[test]
fn test_connect_controller() {
    let mut multitap = Multitap::new();
    let controller = Box::new(MockController { id: 0x41, button_pressed: false, axis_value: 0 });

    multitap.connect_controller(2, controller);

    multitap.current_slot = 2;
    multitap.accessing_memory_cards = false;
    multitap.transfer_state = TransferState::ForwardCommand;

    let response = multitap.send_byte(0x42, false);
    assert_eq!(response.data, 0x41);
}

#[test]
fn test_button_routing() {
    let mut multitap = Multitap::new();
    for i in 0..4 {
        let controller = Box::new(MockController {
            id: 0x40 + i as u8,
            button_pressed: false,
            axis_value: 0,
        });
        multitap.connect_controller(i, controller);
    }
    multitap.set_button(0, true);
}

#[test]
fn test_axis_routing() {
    let mut multitap = Multitap::new();
    for i in 0..4 {
        let controller = Box::new(MockController {
            id: 0x40 + i as u8,
            button_pressed: false,
            axis_value: 0,
        });
        multitap.connect_controller(i, controller);
    }
    multitap.set_axis(0, 12345);
}

#[test]
fn test_invalid_slot_selection() {
    let mut multitap = Multitap::new();
    multitap.send_byte(0x01, false);

    let response = multitap.send_byte(5, false);
    assert_eq!(response.data, 0xFF);
    assert_eq!(response.request_dsr, false);
    assert_eq!(multitap.transfer_state, TransferState::Idle);
}

#[test]
fn test_forward_command_to_peripheral() {
    let mut multitap = Multitap::new();
    let controller = Box::new(MockController { id: 0x73, button_pressed: false, axis_value: 0 });
    multitap.connect_controller(1, controller);

    multitap.send_byte(0x12, false);

    let response = multitap.send_byte(0x01, false);
    assert_eq!(response.data, 0xFF);
    assert_eq!(response.request_dsr, true);
    assert_eq!(multitap.transfer_state, TransferState::RelayData);

    let response = multitap.send_byte(0x42, false);
    assert_eq!(response.data, 0x73);
}

#[test]
fn test_disconnected_peripheral() {
    let mut peripheral = DisconnectedPeripheral;

    let response = peripheral.send_byte(0x42, false);
    assert_eq!(response.data, 0xFF);
    assert_eq!(response.request_dsr, false);

    let mut cloned = peripheral.clone_box();
    let response = cloned.send_byte(0x01, true);
    assert_eq!(response.data, 0xFF);
    assert_eq!(response.request_dsr, false);
}

#[test]
fn test_memory_card_access() {
    let mut multitap = Multitap::new();
    let memory_card = Box::new(MockController { id: 0x5A, button_pressed: false, axis_value: 0 });
    multitap.connect_memory_card(1, memory_card);

    let response = multitap.send_byte(0x22, false);
    assert_eq!(response.data, 0x80);
    assert_eq!(multitap.current_slot, 1);
    assert_eq!(multitap.accessing_memory_cards, true);

    let response = multitap.send_byte(0x42, false);
    assert_eq!(response.data, 0x5A);
}

#[test]
fn connecting_to_a_slot_out_of_range_changes_nothing() {
    let mut multitap = Multitap::new();
    multitap.connect_controller(7, Box::new(MockController { id: 0x99, button_pressed: false, axis_value: 0 }));
    multitap.transfer_state = TransferState::ForwardCommand;
    for slot in 0..4u8 {
        multitap.current_slot = slot;
        multitap.transfer_state = TransferState::ForwardCommand;
        assert_eq!(multitap.send_byte(0x42, false), Response { data: 0xFF, request_dsr: false });
    }
}

#[test]
fn unknown_first_byte_is_refused() {
    let mut multitap = Multitap::new();
    let response = multitap.send_byte(0x55, false);
    assert_eq!(response, Response { data: 0xFF, request_dsr: false });
    assert_eq!(multitap.transfer_state, TransferState::Idle);
}

#[test]
fn factory_functions_give_an_idle_adapter() {
    let mut tap = multitap();
    assert_eq!(tap.send_byte(0x14, false), Response { data: 0x80, request_dsr: true });
    let mut tap = multitap_with_controllers(
        Box::new(MockController { id: 1, button_pressed: false, axis_value: 0 }),
        Box::new(MockController { id: 2, button_pressed: false, axis_value: 0 }),
        Box::new(MockController { id: 3, button_pressed: false, axis_value: 0 }),
        Box::new(MockController { id: 4, button_pressed: false, axis_value: 0 }),
    );
    assert_eq!(tap.send_byte(0x13, false).data, 0x80);
    assert_eq!(tap.send_byte(0x42, false).data, 3);
}

#[test]
fn response_to_tuple_schedules_an_acknowledge() {
    assert_eq!(Response { data: 7, request_dsr: true }.to_tuple(), (7, DsrState::Pending(100)));
    assert_eq!(Response { data: 9, request_dsr: false }.to_tuple(), (9, DsrState::Idle));
}
