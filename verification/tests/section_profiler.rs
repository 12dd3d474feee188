use rustation_ng::templates::performance_monitor::{ProfileSection, Profiler};

#[test]
fn sections_accumulate_calls_and_extremes() {
    let mut p = Profiler::new(true);
    p.begin_section("frame", 100);
    p.end_section("frame", 400);
    assert_eq!(p.get_sections().len(), 1);
    assert_eq!(p.get_sections()[0].0, "frame");
    assert_eq!(p.get_sections()[0].1, ProfileSection { total_time: 300, call_count: 1, min_time: 300, max_time: 300 });
    p.begin_section("frame", 1000);
    p.end_section("frame", 1100);
    assert_eq!(p.get_sections()[0].1, ProfileSection { total_time: 400, call_count: 2, min_time: 100, max_time: 300 });
    p.begin_section("gpu", 0);
    p.end_section("gpu", 0);
    assert_eq!(p.get_sections().len(), 2);
    assert_eq!(p.get_sections()[1].1, ProfileSection { total_time: 0, call_count: 1, min_time: 0, max_time: 0 });
}

#[test]
fn mismatched_or_disabled_sections_record_nothing() {
    let mut p = Profiler::new(true);
    p.begin_section("a", 0);
    p.end_section("b", 50);
    assert!(p.get_sections().is_empty());
    assert!(p.call_stack.is_empty());
    let mut q = Profiler::new(false);
    q.begin_section("a", 0);
    q.end_section("a", 50);
    assert!(q.get_sections().is_empty());
}
