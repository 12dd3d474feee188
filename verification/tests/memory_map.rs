use rustation_ng::psx::memory_map::{
    get_segment, is_kseg0, is_kseg1, is_kseg2, is_kuseg, to_physical_address, MemorySegment,
};

#[test]
fn test_physical_address_conversion() {
    assert_eq!(to_physical_address(0x80001234), 0x00001234);
    assert_eq!(to_physical_address(0xa0001234), 0x00001234);
    assert_eq!(to_physical_address(0x00001234), 0x00001234);
}

#[test]
fn test_segment_detection() {
    assert!(is_kuseg(0x00001234));
    assert!(is_kseg0(0x80001234));
    assert!(is_kseg1(0xa0001234));
    assert!(is_kseg2(0xc0001234));
}

#[test]
fn test_segment_enum() {
    assert_eq!(get_segment(0x00001234), MemorySegment::Kuseg);
    assert_eq!(get_segment(0x80001234), MemorySegment::Kseg0);
    assert_eq!(get_segment(0xa0001234), MemorySegment::Kseg1);
    assert_eq!(get_segment(0xc0001234), MemorySegment::Kseg2);
}

#[test]
fn segment_boundaries_belong_to_one_segment_each() {
    assert_eq!(get_segment(0x7fffffff), MemorySegment::Kuseg);
    assert_eq!(get_segment(0x80000000), MemorySegment::Kseg0);
    assert_eq!(get_segment(0x9fffffff), MemorySegment::Kseg0);
    assert_eq!(get_segment(0xa0000000), MemorySegment::Kseg1);
    assert_eq!(get_segment(0xbfffffff), MemorySegment::Kseg1);
    assert_eq!(get_segment(0xc0000000), MemorySegment::Kseg2);
    assert!(!is_kseg0(0xa0000000));
    assert!(!is_kseg1(0x9fffffff));
}

#[test]
fn physical_address_of_mirrors_is_equal() {
    for a in [0u32, 0x1234, 0x1fc00000, 0x1fffffff] {
        assert_eq!(to_physical_address(a | 0x80000000), to_physical_address(a | 0xa0000000));
        assert_eq!(to_physical_address(to_physical_address(a | 0xc0000000)), to_physical_address(a));
    }
}
