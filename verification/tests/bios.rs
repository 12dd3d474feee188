use rustation_ng::psx::bios::BiosPatches;

#[test]
fn bios_patches_default_to_none() {
    let p = BiosPatches::default();
    assert!(!p.skip_copyright && !p.skip_logo && !p.region_free && !p.debug_uart);
}
