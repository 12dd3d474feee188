use rustation_ng::psx::pad_memcard::devices::fishing::{fishing_controller, FishingController};
use rustation_ng::psx::pad_memcard::devices::Peripheral;

fn poll(dev: &mut dyn Peripheral) -> Vec<(u8, bool)> {
    let cmds = [0x01u8, 0x42, 0, 0, 0, 0, 0, 0, 0, 0];
    cmds.iter().map(|&c| {
        let r = dev.send_byte(c, true);
        (r.data, r.request_dsr)
    }).collect()
}

#[test]
fn fishing_poll_sequence() {
    let mut f = FishingController::new();
    f.rod_motion = 200;
    f.reel_position = 7;
    f.reel_speed = 130;
    f.tilt_x = 10;
    f.tilt_y = 250;
    f.set_button(0, true); // cast
    f.set_button(7, true); // left
    let r = poll(&mut f);
    assert_eq!(
        r,
        vec![
            (0xFF, true),
            (0x5E, true),
            (0x5A, true),
            (0xFE, true),
            (0x7F, true),
            (200, true),
            (7, true),
            (130, true),
            (10, true),
            (250, false),
        ]
    );
    assert_eq!(f.send_byte(0, true).data, 0xFF);
}

#[test]
fn fishing_wrong_command_goes_idle() {
    let mut f = FishingController::new();
    assert_eq!(f.send_byte(0x01, true).data, 0xFF);
    let r = f.send_byte(0x43, true);
    assert_eq!((r.data, r.request_dsr), (0xFF, false));
    // a new transfer starts cleanly
    assert_eq!(f.send_byte(0x01, true).request_dsr, true);
    assert_eq!(f.send_byte(0x42, true).data, 0x5E);
}

#[test]
fn fishing_buttons_and_settling() {
    let mut f = FishingController::new();
    f.set_button(3, true);
    assert_eq!(f.buttons, 0xFFFF & !0x0800);
    f.set_button(3, false);
    f.set_button(9, true);
    assert_eq!(f.buttons, 0xFFFF);
    f.rod_motion = 130;
    f.reel_speed = 126;
    f.new_frame();
    assert_eq!((f.rod_motion, f.reel_speed), (129, 127));
    f.new_frame();
    f.new_frame();
    assert_eq!((f.rod_motion, f.reel_speed), (128, 128));
}

#[test]
fn fishing_boxed_device_starts_at_rest() {
    let mut dev = fishing_controller();
    let r = poll(dev.as_mut());
    assert_eq!(r[5], (128, true));
    assert_eq!(r[9], (128, false));
}
