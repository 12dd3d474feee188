use rustation_ng::psx_complete::Psx;
use rustation_ng::templates::retroachievements::{
    calculate_hash, validate_hardcore_requirements, Achievement, AddressOperand, CompiledAchievement,
    ComparisonOperator, Condition, ConditionGroup, GroupType, MemoryInterface, MemorySize, Operand, RAConfig,
    RARuntime, RAState, RetroAchievementsManager,
};

fn cond(address: u32, size: MemorySize, op: ComparisonOperator, value: u32, hit_count: u32, group: GroupType) -> Condition {
    Condition {
        left: Operand::Address(AddressOperand { address, size }),
        operator: op,
        right: Operand::Value(value),
        hit_count,
        current_hits: 0,
        group_type: group,
    }
}

#[test]
fn memory_interface_reads_little_endian() {
    let mut m = MemoryInterface::new();
    m.ram[0x10] = 0x78;
    m.ram[0x11] = 0x56;
    m.ram[0x12] = 0x34;
    m.ram[0x13] = 0x12;
    m.vram[4] = 0xaa;
    m.spu_ram[2] = 0xbb;
    assert_eq!(m.read_u8(0x10), 0x78);
    assert_eq!(m.read_u16(0x10), 0x5678);
    assert_eq!(m.read_u32(0x10), 0x1234_5678);
    assert_eq!(m.read_u8(0x1f00_0004), 0xaa);
    assert_eq!(m.read_u8(0x1f80_0002), 0xbb);
    assert_eq!(m.read_u8(0x0030_0000), 0);
}

#[test]
fn address_operand_sizes() {
    let mut m = MemoryInterface::new();
    m.ram[0x20] = 0b1010_0110;
    let op = |size| AddressOperand { address: 0x20, size }.read(&m);
    assert_eq!(op(MemorySize::Bit0), 0);
    assert_eq!(op(MemorySize::Bit1), 1);
    assert_eq!(op(MemorySize::Bit7), 1);
    assert_eq!(op(MemorySize::Lower4), 0x6);
    assert_eq!(op(MemorySize::Upper4), 0xa);
    assert_eq!(op(MemorySize::Byte), 0xa6);
    assert_eq!(Operand::Value(9).evaluate(&m), 9);
    assert_eq!(Operand::Delta(Box::new(Operand::Value(9))).evaluate(&m), 0);
}

#[test]
fn condition_counts_consecutive_hits() {
    let mut m = MemoryInterface::new();
    m.ram[0] = 5;
    let mut c = cond(0, MemorySize::Byte, ComparisonOperator::GreaterEqual, 5, 2, GroupType::Core);
    assert!(!c.test(&m));
    assert_eq!(c.current_hits, 1);
    assert!(c.test(&m));
    m.ram[0] = 4;
    assert!(!c.test(&m));
    assert_eq!(c.current_hits, 0);
}

#[test]
fn group_stops_at_first_unmet_condition() {
    let mut m = MemoryInterface::new();
    m.ram[1] = 1;
    let mut g = ConditionGroup::new();
    g.add(cond(0, MemorySize::Byte, ComparisonOperator::Equal, 7, 1, GroupType::Core));
    g.add(cond(1, MemorySize::Byte, ComparisonOperator::Equal, 1, 1, GroupType::Core));
    assert!(!g.test(&m));
    assert_eq!(g.conditions[1].current_hits, 0);
    m.ram[0] = 7;
    assert!(g.test(&m));
    assert_eq!(g.conditions[1].current_hits, 1);
}

#[test]
fn compiled_achievement_with_alternatives() {
    let conditions = vec![
        cond(0, MemorySize::Byte, ComparisonOperator::Equal, 1, 1, GroupType::Core),
        cond(1, MemorySize::Byte, ComparisonOperator::Equal, 2, 1, GroupType::Alt(0)),
        cond(2, MemorySize::Byte, ComparisonOperator::Equal, 3, 1, GroupType::Alt(2)),
    ];
    let mut a = CompiledAchievement::compile(&conditions).unwrap();
    assert_eq!(a.core_group.conditions.len(), 1);
    assert_eq!(a.alt_groups.len(), 3);
    assert_eq!(a.alt_groups[1].conditions.len(), 0);
    let mut m = MemoryInterface::new();
    m.ram[0] = 1;
    // the empty alternative passes
    assert_eq!(a.test(&m), Ok(true));
    m.ram[0] = 0;
    assert_eq!(a.test(&m), Ok(false));
    assert_eq!(a.current_hits, 0);
}

fn achievement(id: u32, address: u32, value: u32) -> Achievement {
    Achievement {
        id,
        title: "Title".to_string(),
        description: "Desc".to_string(),
        points: 10,
        badge_url: String::new(),
        conditions: vec![cond(address, MemorySize::Byte, ComparisonOperator::Equal, value, 1, GroupType::Core)],
        flags: vec![],
    }
}

#[test]
fn runtime_tests_only_with_memory() {
    let mut rt = RARuntime::new();
    let m = MemoryInterface::new();
    rt.add_achievement(&achievement(5, 0, 0)).unwrap();
    assert_eq!(rt.test_achievement(5, &m), Ok(false));
    rt.set_memory_interface(&m);
    assert_eq!(rt.test_achievement(5, &m), Ok(true));
    assert_eq!(rt.test_achievement(6, &m), Ok(false));
}

#[test]
fn rom_hash_is_sha256_of_first_512k() {
    assert_eq!(calculate_hash(b"abc"), "ba7816bf8f01cfea414140de5dae2223b00361a396177a9cb410ff61f20015ad");
    let big = vec![0u8; 600 * 1024];
    assert_eq!(calculate_hash(&big), calculate_hash(&big[..512 * 1024]));
}

#[test]
fn manager_unlocks_met_achievements() {
    let mut mgr = RetroAchievementsManager::new(RAConfig::default()).unwrap();
    assert_eq!(mgr.state, RAState::Disabled);
    let mut psx = Psx::new().unwrap();
    // disabled: nothing happens
    mgr.process_frame(&psx).unwrap();
    assert_eq!(mgr.frame_counter, 0);
    mgr.init_game(b"game image").unwrap();
    assert_eq!(mgr.state, RAState::Active);
    assert_eq!(mgr.game_id, Some(1));
    let a = achievement(42, 0x100, 0x99);
    mgr.runtime.add_achievement(&a).unwrap();
    mgr.achievements.push(a);
    mgr.process_frame(&psx).unwrap();
    assert_eq!(mgr.frame_counter, 1);
    assert!(!mgr.unlocked_achievements.contains(&42));
    psx.store8(0x100, 0x99).unwrap();
    mgr.process_frame(&psx).unwrap();
    assert!(mgr.unlocked_achievements.contains(&42));
    assert_eq!(mgr.frame_counter, 2);
}

#[test]
fn unlock_only_known_achievements() {
    let mut mgr = RetroAchievementsManager::new(RAConfig::default()).unwrap();
    mgr.achievements.push(achievement(7, 0, 0));
    mgr.unlock_achievement(8).unwrap();
    assert!(mgr.unlocked_achievements.is_empty());
    mgr.unlock_achievement(7).unwrap();
    assert!(mgr.unlocked_achievements.contains(&7));
    assert!(mgr.submit_leaderboard_score(1, 100).is_ok());
}

#[test]
fn hardcore_requirements() {
    assert!(validate_hardcore_requirements(false, false, true));
    assert!(!validate_hardcore_requirements(true, false, true));
    assert!(!validate_hardcore_requirements(false, true, true));
    assert!(!validate_hardcore_requirements(false, false, false));
}

#[test]
fn unlocked_achievements_are_not_tested_again() {
    let mut mgr = RetroAchievementsManager::new(RAConfig::default()).unwrap();
    let mut psx = Psx::new().unwrap();
    mgr.init_game(b"game image").unwrap();
    let a = achievement(42, 0x100, 0x99);
    let b = achievement(43, 0x100, 0x99);
    mgr.runtime.add_achievement(&a).unwrap();
    mgr.runtime.add_achievement(&b).unwrap();
    mgr.achievements.push(a);
    mgr.achievements.push(b);
    mgr.unlocked_achievements.insert(42);
    psx.store8(0x100, 0x99).unwrap();
    mgr.process_frame(&psx).unwrap();
    assert_eq!(mgr.runtime.achievements[&42].current_hits, 0);
    assert_eq!(mgr.runtime.achievements[&43].current_hits, 1);
    assert!(mgr.unlocked_achievements.contains(&43));
    assert_eq!(mgr.unlocked_achievements.len(), 2);
}
