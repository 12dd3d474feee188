use rustation_ng::cd_stub::{Bcd, Msf, StubDisc};
use rustation_ng::error::PsxError;
use rustation_ng::psx::cd::disc::{
    extract_system_region, parse_serial_number_from_system_cnf, Disc, Region, SerialNumber, VideoStandard,
};

#[test]
fn parse_sn() {
    fn tst(conf: &[u8], expected: SerialNumber) {
        assert_eq!(parse_serial_number_from_system_cnf(conf).unwrap(), expected);
    }

    tst(
        br#"BOOT = cdrom:\SLPS_007.70;1
TCB = 4
EVENT = 16
STACK = 801fff00
"#,
        SerialNumber(*b"SLPS-00770"),
    );

    tst(
        br#"BOOT= cdrom:\SCPS_100.59
TCB= 4
EVENT= 10
STACK= 801FFFFC
        "#,
        SerialNumber(*b"SCPS-10059"),
    );

    tst(
        br#"BOOT=cdrom:\SLUS_012.51;1
TCB=4
EVENT=16
STACK=801fff00"#,
        SerialNumber(*b"SLUS-01251"),
    );
}

#[test]
fn system_cnf_without_boot_line_has_no_serial() {
    let r = parse_serial_number_from_system_cnf(b"TCB = 4\nEVENT = 16\n");
    assert!(matches!(r, Err(PsxError::NoSerialNumber)));
    let r = parse_serial_number_from_system_cnf(b"BOOT = cdrom:\\PSX.EXE;1\n");
    assert!(matches!(r, Err(PsxError::NoSerialNumber)));
}

#[test]
fn bin_names_give_serials_in_upper_case() {
    assert_eq!(SerialNumber::from_bin_name(b"slus_012.51").unwrap(), SerialNumber(*b"SLUS-01251"));
    assert_eq!(SerialNumber::from_bin_name(b"SCES-003.44").unwrap(), SerialNumber(*b"SCES-00344"));
    assert!(matches!(SerialNumber::from_bin_name(b"SLUS_01251"), Err(PsxError::NoSerialNumber)));
    assert!(matches!(SerialNumber::from_bin_name(b"SLUSX012.51"), Err(PsxError::NoSerialNumber)));
}

#[test]
fn serial_prefixes_name_regions() {
    assert_eq!(SerialNumber(*b"SLPS-00770").region(), Some(Region::Japan));
    assert_eq!(SerialNumber(*b"SLUS-01251").region(), Some(Region::NorthAmerica));
    assert_eq!(SerialNumber(*b"SCES-00344").region(), Some(Region::Europe));
    assert_eq!(SerialNumber(*b"ABCD-00001").region(), None);
    assert_eq!(Region::Japan.video_standard(), VideoStandard::Ntsc);
    assert_eq!(Region::NorthAmerica.video_standard(), VideoStandard::Ntsc);
    assert_eq!(Region::Europe.video_standard(), VideoStandard::Pal);
}

#[test]
fn disc_is_identified_by_its_system_cnf() {
    let disc = Disc::new(StubDisc::new(), b"BOOT = cdrom:\\SCES_003.44;1\n").unwrap();
    assert_eq!(disc.serial_number(), SerialNumber(*b"SCES-00344"));
    assert_eq!(disc.region(), Region::Europe);
    assert!(matches!(Disc::new(StubDisc::new(), b"nothing here"), Err(PsxError::NoSerialNumber)));
}

#[test]
fn bcd_round_trips_below_one_hundred() {
    for v in 0..100u8 {
        assert_eq!(Bcd::from_binary(v).to_binary(), v);
    }
    assert_eq!(Bcd::from_binary(42).0, 0x42);
    assert_eq!(Bcd::new(0x99).to_binary(), 99);
}

#[test]
fn msf_sector_index() {
    assert_eq!(Msf::new(0, 2, 0).to_sector_index(), 0);
    assert_eq!(Msf::new(0, 1, 74).to_sector_index(), 0);
    assert_eq!(Msf::new(0, 2, 16).to_sector_index(), 16);
    assert_eq!(Msf::new(1, 0, 0).to_sector_index(), 4350);
    assert_eq!(Msf::from_bcd(Bcd(0x12)).m, 0x12);
}

fn license_payload(text: &[u8]) -> Vec<u8> {
    let mut p = text.to_vec();
    p.resize(2048, b' ');
    p
}

#[test]
fn region_from_license_text() {
    let na = license_payload(b"          Licensed  by          Sony Computer Entertainment Amer  ica ");
    assert_eq!(extract_system_region(&na).unwrap(), Region::NorthAmerica);
    let eu = license_payload(b"          Licensed  by          Sony Computer Entertainment Euro pe   ");
    assert_eq!(extract_system_region(&eu).unwrap(), Region::Europe);
    let jp = license_payload(b"          Licensed  by          Sony Computer Entertainment Inc.");
    assert_eq!(extract_system_region(&jp).unwrap(), Region::Japan);
    let other = license_payload(b"Hello, world");
    match extract_system_region(&other) {
        Err(PsxError::BadDiscFormat { reason }) => {
            assert_eq!(reason, "Couldn't identify disc region string: Helloworld")
        }
        _ => panic!("expected a bad disc format"),
    }
}
