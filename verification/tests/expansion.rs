use rustation_ng::psx::expansion::ExpansionPort;
use rustation_ng::psx_complete::Psx;

#[test]
fn cheat_codes_are_written_to_ram() {
    let mut port = ExpansionPort::new();
    port.add_cheat_code(0x100, 0x1234_5678);
    port.add_cheat_code(0x1F_FFF0, 0xDEAD_BEEF);
    port.add_cheat_code(0x20_0000, 0xFFFF_FFFF);
    let mut psx = Psx::new().unwrap();
    let before = psx.ram.clone();
    port.apply_cheats(&mut psx);
    assert_eq!(&psx.ram[0x100..0x104], &[0x78, 0x56, 0x34, 0x12]);
    assert_eq!(&psx.ram[0x1F_FFF0..0x1F_FFF4], &[0xEF, 0xBE, 0xAD, 0xDE]);
    assert_eq!(psx.ram.len(), before.len());
    for (i, (a, b)) in psx.ram.iter().zip(before.iter()).enumerate() {
        if !(0x100..0x104).contains(&i) && !(0x1F_FFF0..0x1F_FFF4).contains(&i) {
            assert_eq!(a, b);
        }
    }
}

#[test]
fn no_cheat_codes_leave_ram_unchanged() {
    let port = ExpansionPort::new();
    let mut psx = Psx::new().unwrap();
    let before = psx.ram.clone();
    port.apply_cheats(&mut psx);
    assert_eq!(psx.ram, before);
}
