use rustation_ng::performance_monitor::{Component, ComponentTiming, MemoryTracker};

#[test]
fn component_time_adds_to_component_and_total() {
    let mut t = ComponentTiming::default();
    t.add_time(Component::Cpu, 1_000);
    t.add_time(Component::Gpu, 250);
    t.add_time(Component::Cpu, 500);
    t.add_time(Component::Controller, 5);
    assert_eq!(t.cpu_time, 1_500);
    assert_eq!(t.gpu_time, 250);
    assert_eq!(t.spu_time, 0);
    assert_eq!(t.dma_time, 0);
    assert_eq!(t.controller_time, 5);
    assert_eq!(t.total_time, 1_755);
}

#[test]
fn memory_peak_keeps_largest_total() {
    let mut m = MemoryTracker::new();
    m.update_memory_usage(2 * 1024 * 1024, 1024 * 1024, 512 * 1024);
    assert_eq!(m.total_allocated, 3_670_016);
    assert_eq!(m.peak_usage, 3_670_016);
    m.update_memory_usage(1024, 0, 0);
    assert_eq!(m.total_allocated, 1024);
    assert_eq!(m.peak_usage, 3_670_016);
    assert_eq!((m.main_ram_usage, m.vram_usage, m.spu_ram_usage), (1024, 0, 0));
}
