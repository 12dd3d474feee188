use rustation_ng::debugging_tools::cpu::{Cpu, CpuDebugger, StepMode};
use rustation_ng::debugging_tools::disasm::disassemble_word;
use rustation_ng::debugging_tools::gpu::{vram_pixel_rgb, GpuCommand, GpuDebugger, LineData, TriangleData};
use rustation_ng::debugging_tools::memory::{
    BreakCondition, MemoryAccess, MemoryInspector, SearchSize, WatchSize, RAM_BYTES,
};
use rustation_ng::debugging_tools::profiler::{
    order_by_key_desc, CallGraph, FunctionTiming, PerformanceProfiler, SamplingProfiler,
};
use rustation_ng::debugging_tools::save_state::{
    calculate_checksum, Cop0, CpuState, GpuState, SaveState, SaveStateAnalyzer,
};

#[test]
fn disassembles_each_instruction_format() {
    assert_eq!(disassemble_word(0x00221821), "addu $3, $1, $2");
    assert_eq!(disassemble_word(0x00021080), "sll $2, $2, 2");
    assert_eq!(disassemble_word(0x03e00008), "jr $31");
    assert_eq!(disassemble_word(0x0040f809), "jalr $31, $2");
    assert_eq!(disassemble_word(0x3c010001), "lui $1, 0x0001");
    assert_eq!(disassemble_word(0x34210234), "ori $1, $1, 0x0234");
    assert_eq!(disassemble_word(0x8c22fffc), "lw $2, 0xfffc($1)");
    assert_eq!(disassemble_word(0x1022000a), "beq $1, $2, 0x000a");
    assert_eq!(disassemble_word(0x0c000100), "jal 0x00000400");
    assert_eq!(disassemble_word(0x0000003f), "unknown R-type 0x3f");
    assert_eq!(disassemble_word(0xfc000000), "unknown opcode 0x3f");
}

fn ram_with(bytes: &[(usize, u8)]) -> Vec<u8> {
    let mut ram = vec![0u8; RAM_BYTES];
    for &(i, b) in bytes {
        ram[i] = b;
    }
    ram
}

#[test]
fn search_then_refine_narrows_the_results() {
    let mut ram = ram_with(&[(0x10, 0x42), (0x20, 0x42), (0x30, 0x42)]);
    let mut inspector = MemoryInspector::new();
    let found = inspector.search_memory(&ram, 0x42, SearchSize::Byte);
    assert_eq!(found, vec![0x80000010, 0x80000020, 0x80000030]);
    ram[0x20] = 0x43;
    let kept = inspector.refine_search(&ram, 0x42, SearchSize::Byte);
    assert_eq!(kept, vec![0x80000010, 0x80000030]);
    assert_eq!(inspector.search_results, kept);
    let words = inspector.search_memory(&ram_with(&[(8, 0x78), (9, 0x56), (10, 0x34), (11, 0x12)]), 0x12345678, SearchSize::Word);
    assert_eq!(words, vec![0x80000008]);
}

#[test]
fn breakpoints_fire_on_their_condition_and_count_hits() {
    let mut inspector = MemoryInspector::new();
    inspector.set_breakpoint(0x100, BreakCondition::Write);
    inspector.set_breakpoint(0x100, BreakCondition::ValueEqual(7));
    assert!(!inspector.check_breakpoints(0x100, 5, false));
    assert!(inspector.check_breakpoints(0x100, 7, false));
    assert_eq!(inspector.breakpoints[1].hit_count, 1);
    assert!(inspector.check_breakpoints(0x100, 7, true));
    assert_eq!(inspector.breakpoints[0].hit_count, 1);
    assert_eq!(inspector.breakpoints[1].hit_count, 1);
    assert!(!inspector.check_breakpoints(0x104, 7, true));
}

#[test]
fn watches_record_changes_only() {
    let mut inspector = MemoryInspector::new();
    inspector.add_watch("lives", 0x80000004, WatchSize::Half);
    let ram = ram_with(&[(4, 0x34), (5, 0x12)]);
    inspector.update_watches(&ram, 10);
    inspector.update_watches(&ram, 20);
    assert_eq!(inspector.watches[0].last_value, 0x1234);
    assert_eq!(inspector.watches[0].history.iter().copied().collect::<Vec<_>>(), vec![(10, 0x1234)]);
    for k in 0..150u32 {
        let ram = ram_with(&[(4, (k % 200) as u8 + 1)]);
        inspector.update_watches(&ram, k as u64);
    }
    assert_eq!(inspector.watches[0].history.len(), 100);
}

#[test]
fn access_log_keeps_the_latest_ten_thousand() {
    let mut inspector = MemoryInspector::new();
    for i in 0..10005u32 {
        inspector.log_access(MemoryAccess { address: i, value: 0, is_write: false, pc: 0, cycle: 0 });
    }
    assert_eq!(inspector.access_log.len(), 10000);
    assert_eq!(inspector.access_log[0].address, 5);
    assert!(inspector.visualize_memory_map().starts_with("PlayStation Memory Map:\n"));
    assert_eq!(inspector.get_last_value(0x1234), 0);
}

#[test]
fn cpu_debugger_traces_and_reports() {
    let mut d = CpuDebugger::new();
    assert_eq!(d.step_mode, StepMode::Disabled);
    let mut regs = vec![0u32; 32];
    d.trace_execution(&Cpu { pc: 0x80010000, current_instruction: 0x00221821, registers: regs.clone(), cycle_count: 1 });
    regs[3] = 9;
    d.trace_execution(&Cpu { pc: 0x80010004, current_instruction: 0x3c010001, registers: regs.clone(), cycle_count: 2 });
    d.trace_execution(&Cpu { pc: 0x80010008, current_instruction: 0x3c010001, registers: regs.clone(), cycle_count: 3 });
    assert_eq!(d.register_history[3].iter().copied().collect::<Vec<_>>(), vec![0, 9]);
    assert_eq!(d.register_history[4].iter().copied().collect::<Vec<_>>(), vec![0]);
    assert_eq!(d.trace_buffer.len(), 3);
    assert_eq!(d.trace_buffer[1].registers, regs);
    assert_eq!(d.trace_buffer[1].cycle_count, 2);
    assert_eq!(d.trace_buffer[0].registers, vec![0u32; 32]);
    let report = d.generate_trace_report();
    assert!(report.starts_with("CPU Execution Trace (last 3 instructions):\n"));
    assert!(report.contains("│ 0x80010008 │ 0x3c010001 │ lui $1, 0x0001       │\n"));
    let first = report.find("0x80010008").unwrap();
    let last = report.find("0x80010000").unwrap();
    assert!(first < last);
    assert_eq!(d.disassemble(0x100, 0x00221821), "addu $3, $1, $2");
    assert_eq!(d.disassemble(0x100, 0x3c010001), "addu $3, $1, $2");
    d.track_call(1, 2, false);
    d.track_call(3, 4, false);
    d.track_call(0, 0, true);
    assert_eq!(d.call_stack.len(), 1);
    assert_eq!(d.call_stack[0].to_address, 2);
}

#[test]
fn gpu_debugger_counts_draws_and_converts_pixels() {
    let mut g = GpuDebugger::new();
    g.log_command(GpuCommand::DrawTriangle(TriangleData));
    g.log_command(GpuCommand::DrawLine(LineData));
    g.log_command(GpuCommand::DrawTriangle(TriangleData));
    assert_eq!((g.draw_stats.triangles, g.draw_stats.lines, g.draw_stats.rectangles), (2, 1, 0));
    let mut vram = vec![0u8; 1024 * 512 * 2];
    vram[2] = 0xff;
    vram[3] = 0x7f;
    assert_eq!(vram_pixel_rgb(&vram, 1, 0), (0xf8, 0xf8, 0xf8));
    vram[4] = 0x1f;
    assert_eq!(vram_pixel_rgb(&vram, 2, 0), (0xf8, 0, 0));
    g.snapshot_vram(&vram[..16], String::from("boot"), 42);
    assert_eq!(g.vram_snapshots[0].data.len(), 16);
    assert_eq!(g.vram_snapshots[0].timestamp, 42);
}

#[test]
fn ordering_is_stable_and_descending() {
    assert_eq!(order_by_key_desc(&vec![3, 9, 3, 1, 9]), vec![1, 4, 0, 2, 3]);
    assert_eq!(order_by_key_desc(&vec![]), Vec::<usize>::new());
}

#[test]
fn function_timing_and_call_graph() {
    let mut t = FunctionTiming::new("f");
    t.enter(100);
    t.exit(160);
    t.enter(200);
    t.exit(220);
    assert_eq!((t.call_count, t.total_time, t.min_time, t.max_time), (2, 80, 20, 60));
    assert_eq!(t.to_summary().average_time, 40);
    t.exit(500);
    assert_eq!(t.call_count, 2);

    let mut g = CallGraph::new();
    g.enter("main");
    g.enter("update");
    g.exit();
    g.enter("update");
    assert_eq!(g.to_dot(), "digraph CallGraph {\n  \"main\"\n  \"update\"\n  \"main\" -> \"update\"\n  \"main\" -> \"update\"\n}\n");
}

#[test]
fn profiler_reports_top_functions_and_histogram() {
    let mut p = PerformanceProfiler::new();
    p.enter_function("a", 0);
    p.exit_function("a", 10);
    p.enter_function("b", 10);
    p.exit_function("b", 40);
    p.sample(0x10, Some("a"));
    p.sample(0x20, None);
    p.sample(0x20, Some("b"));
    let report = p.generate_report();
    assert_eq!(report.top_functions.len(), 2);
    assert_eq!(report.top_functions[0].name, "b");
    assert_eq!(report.top_functions[0].total_time, 30);
    assert_eq!(report.sampling_histogram, vec![(0x20, 2), (0x10, 1)]);
    let mut s = SamplingProfiler::new(5);
    s.add_sample(1, Some("x"));
    s.add_sample(1, Some("x"));
    assert_eq!(s.function_samples.len(), 1);
    assert_eq!(s.function_samples[0].1, 2);
}

#[test]
fn save_states_compare_registers_and_gpu() {
    let mut a = SaveStateAnalyzer::new();
    let mut regs = vec![0u32; 32];
    let s1 = SaveState {
        version: 1,
        cpu: CpuState { pc: 0x80010000, registers: regs.clone(), in_delay_slot: false, cop0: Cop0 },
        gpu: GpuState { display_mode: 0, drawing_area: (0, 0, 320, 240), texture_window: 0, command_fifo: vec![1, 2] },
        ram: vec![],
    };
    regs[5] = 0xdeadbeef;
    let s2 = SaveState {
        version: 1,
        cpu: CpuState { pc: 0x80010004, registers: regs, in_delay_slot: true, cop0: Cop0 },
        gpu: GpuState { display_mode: 1, drawing_area: (0, 0, 320, 240), texture_window: 0, command_fifo: vec![] },
        ram: vec![],
    };
    let info = a.analyze_state(&s1, 100, String::from("one"), 7);
    assert_eq!(info.gpu_state.pending_commands, 2);
    a.analyze_state(&s2, 100, String::from("two"), 8);
    let c = a.compare_states(0, 1);
    assert_eq!(c.cpu_differences, vec!["PC: 0x80010000 -> 0x80010004", "R5: 0x00000000 -> 0xdeadbeef"]);
    assert_eq!(c.gpu_differences, vec!["Display mode changed"]);
    assert!(!c.memory_different);
    assert_eq!(calculate_checksum(&[1, 2, 3]), 0);
}

#[test]
fn profiler_counts_calls_and_samples() {
    let mut p = PerformanceProfiler::new();
    p.enter_function("f", 100);
    p.enter_function("g", 110);
    p.exit_function("g", 130);
    p.exit_function("f", 200);
    p.enter_function("f", 300);
    p.exit_function("f", 310);
    p.exit_function("h", 400);
    let f = &p.function_timings[0];
    assert_eq!((f.call_count, f.total_time, f.min_time, f.max_time, f.current_start), (2, 110, 10, 100, None));
    let g = &p.function_timings[1];
    assert_eq!((g.call_count, g.total_time, g.min_time, g.max_time), (1, 20, 20, 20));
    assert_eq!(p.function_timings.len(), 2);
    assert_eq!(p.call_graph.nodes, vec!["f".to_string(), "g".to_string()]);
    assert_eq!(p.call_graph.edges, vec![("f".to_string(), "g".to_string())]);
    assert!(p.call_graph.stack.is_empty());
    p.sample(0x80, Some("f"));
    p.sample(0x80, Some("f"));
    p.sample(0x84, None);
    assert_eq!(p.sampling_profiler.samples, vec![(0x80, 2), (0x84, 1)]);
    assert_eq!(p.sampling_profiler.function_samples, vec![("f".to_string(), 2)]);
}

#[test]
fn search_over_blank_ram_and_repeated_refinement() {
    let mut inspector = MemoryInspector::new();
    let ram = vec![0u8; 0x20_0000];
    let all = inspector.search_memory(&ram, 0, SearchSize::Word);
    assert_eq!(all.len(), 0x80000);
    assert_eq!(all[0], 0x8000_0000);
    assert!(all.windows(2).all(|w| w[0] + 4 == w[1]));
    assert!(inspector.search_memory(&ram, 1, SearchSize::Word).is_empty());
    let mut ram2 = ram.clone();
    ram2[0x10] = 7;
    inspector.search_memory(&ram2, 7, SearchSize::Byte);
    let once = inspector.refine_search(&ram2, 7, SearchSize::Byte);
    let twice = inspector.refine_search(&ram2, 7, SearchSize::Byte);
    assert_eq!(once, vec![0x8000_0010]);
    assert_eq!(once, twice);
    assert!(inspector.access_log.is_empty());
}
