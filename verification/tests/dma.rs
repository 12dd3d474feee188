use rustation_ng::psx_complete::dma::DmaChannel;
use rustation_ng::psx_complete::Psx;
use rustation_ng::templates::critical_fixes::handle_otc_dma;

#[test]
fn test_dma_otc_mode() {
    let mut psx = Psx::new().unwrap();
    let mut channel = DmaChannel { base: 0x8010_0100, block_control: 0x0000_0010, control: 0x1100_0002 };
    handle_otc_dma(&mut psx, &mut channel);
    assert_eq!(psx.load32(0x8010_0100).unwrap(), 0x8010_00fc, "First entry should point to previous");
    assert_eq!(psx.load32(0x8010_00c4).unwrap(), 0x00ff_ffff, "Last entry should be terminator");
    assert!(!channel.is_active());
    assert_eq!(channel.control, 0x1000_0002);
}

#[test]
fn otc_dma_entries_link_downward() {
    let mut psx = Psx::new().unwrap();
    let mut channel = DmaChannel { base: 0x0000_0010, block_control: 0x0000_0003, control: 0 };
    let before = psx.cycle_counter;
    handle_otc_dma(&mut psx, &mut channel);
    assert_eq!(psx.cycle_counter, before + 3 * (1 + 4));
    assert_eq!(psx.load32(0x10).unwrap(), 0x0c);
    assert_eq!(psx.load32(0x0c).unwrap(), 0x08);
    assert_eq!(psx.load32(0x08).unwrap(), 0x00ff_ffff);
    assert_eq!(psx.load32(0x04).unwrap(), 0);
}

#[test]
fn otc_dma_with_empty_block_writes_nothing() {
    let mut psx = Psx::new().unwrap();
    let mut channel = DmaChannel { base: 0x100, block_control: 0x0001_0000, control: 0x0100_0000 };
    let ram = psx.ram.clone();
    handle_otc_dma(&mut psx, &mut channel);
    assert_eq!(psx.ram, ram);
    assert!(!channel.is_active());
}
