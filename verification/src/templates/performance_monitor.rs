//! Performance counters for the CPU, GPU and memory, and a section profiler that the
//! host drives with timestamps.

use vstd::prelude::*;
use vstd::string::StringExecFns;

verus! {

/// Emulator components that are timed.
#[derive(Debug, Clone, Copy, PartialEq, Eq, Hash, Structural)]
pub enum ComponentId {
    Cpu,
    Gpu,
    Spu,
    Dma,
    CdRom,
    Timers,
    GTE,
    Memory,
    Controllers,
}

/// Instruction classes that are counted.
#[derive(Debug, Clone, Copy, PartialEq, Eq, Hash, Structural)]
pub enum InstructionType {
    Arithmetic,
    Logic,
    Branch,
    Load,
    Store,
    Multiply,
    Divide,
    Coprocessor,
}

/// The counter slot of an instruction class.
pub open spec fn itype_index(t: InstructionType) -> int {
    match t {
        InstructionType::Arithmetic => 0,
        InstructionType::Logic => 1,
        InstructionType::Branch => 2,
        InstructionType::Load => 3,
        InstructionType::Store => 4,
        InstructionType::Multiply => 5,
        InstructionType::Divide => 6,
        InstructionType::Coprocessor => 7,
    }
}

impl InstructionType {
    pub fn index(self) -> (r: usize)
        ensures
            r == itype_index(self),
    {
        match self {
            InstructionType::Arithmetic => 0,
            InstructionType::Logic => 1,
            InstructionType::Branch => 2,
            InstructionType::Load => 3,
            InstructionType::Store => 4,
            InstructionType::Multiply => 5,
            InstructionType::Divide => 6,
            InstructionType::Coprocessor => 7,
        }
    }
}

/// CPU counters.
pub struct CpuMonitor {
    pub emulated_cycles: u64,
    pub host_cycles: u64,
    /// Executed instructions per class.
    pub instruction_counts: [u64; 8],
    pub pipeline_stalls: u64,
    pub cache_hits: u64,
    pub cache_misses: u64,
}

impl CpuMonitor {
    /// All counters at zero.
    pub fn new() -> (r: Self)
        ensures
            r.emulated_cycles == 0 && r.host_cycles == 0 && r.pipeline_stalls == 0,
            r.cache_hits == 0 && r.cache_misses == 0,
            forall|i: int| 0 <= i < 8 ==> #[trigger] r.instruction_counts@[i] == 0,
    {
        CpuMonitor { emulated_cycles: 0, host_cycles: 0, instruction_counts: [0; 8], pipeline_stalls: 0, cache_hits: 0, cache_misses: 0 }
    }

    /// Count one instruction of a class.
    pub fn record_instruction(&mut self, instruction: InstructionType)
        requires
            old(self).instruction_counts@[itype_index(instruction)] < u64::MAX,
        ensures
            final(self).instruction_counts@ == old(self).instruction_counts@.update(
                itype_index(instruction),
                (old(self).instruction_counts@[itype_index(instruction)] + 1) as u64,
            ),
            final(self).cache_hits == old(self).cache_hits && final(self).cache_misses == old(self).cache_misses,
            final(self).emulated_cycles == old(self).emulated_cycles,
    {
        let i = instruction.index();
        let c = self.instruction_counts[i];
        self.instruction_counts.set(i, c + 1);
    }

    /// Count a cache hit or miss.
    pub fn record_cache_access(&mut self, hit: bool)
        requires
            hit ==> old(self).cache_hits < u64::MAX,
            !hit ==> old(self).cache_misses < u64::MAX,
        ensures
            final(self).cache_hits == old(self).cache_hits + (if hit { 1int } else { 0 }),
            final(self).cache_misses == old(self).cache_misses + (if hit { 0int } else { 1 }),
            final(self).instruction_counts == old(self).instruction_counts,
            final(self).emulated_cycles == old(self).emulated_cycles,
    {
        if hit {
            self.cache_hits = self.cache_hits + 1;
        } else {
            self.cache_misses = self.cache_misses + 1;
        }
    }
}

/// GPU counters.
pub struct GpuMonitor {
    pub draw_calls: u64,
    pub triangles_rendered: u64,
    pub pixels_drawn: u64,
    pub texture_uploads: u64,
    pub vram_reads: u64,
    pub vram_writes: u64,
    /// Time spent rendering, in nanoseconds.
    pub render_time_ns: u64,
}

impl GpuMonitor {
    /// All counters at zero.
    pub fn new() -> (r: Self)
        ensures
            r.draw_calls == 0 && r.triangles_rendered == 0 && r.pixels_drawn == 0,
            r.texture_uploads == 0 && r.vram_reads == 0 && r.vram_writes == 0 && r.render_time_ns == 0,
    {
        GpuMonitor { draw_calls: 0, triangles_rendered: 0, pixels_drawn: 0, texture_uploads: 0, vram_reads: 0, vram_writes: 0, render_time_ns: 0 }
    }

    /// Count a draw call with its primitives and pixels.
    pub fn record_draw_call(&mut self, primitive_count: u64, pixel_count: u64)
        requires
            old(self).draw_calls < u64::MAX,
            old(self).triangles_rendered + primitive_count <= u64::MAX,
            old(self).pixels_drawn + pixel_count <= u64::MAX,
        ensures
            final(self).draw_calls == old(self).draw_calls + 1,
            final(self).triangles_rendered == old(self).triangles_rendered + primitive_count,
            final(self).pixels_drawn == old(self).pixels_drawn + pixel_count,
            final(self).texture_uploads == old(self).texture_uploads,
            final(self).render_time_ns == old(self).render_time_ns,
    {
        self.draw_calls = self.draw_calls + 1;
        self.triangles_rendered = self.triangles_rendered + primitive_count;
        self.pixels_drawn = self.pixels_drawn + pixel_count;
    }
}

/// Memory usage counters.
pub struct MemoryMonitor {
    pub ram_usage: usize,
    pub vram_usage: usize,
    pub spu_ram_usage: usize,
    pub texture_cache_size: usize,
    pub allocation_count: u64,
    pub deallocation_count: u64,
}

impl MemoryMonitor {
    /// All counters at zero.
    pub fn new() -> (r: Self)
        ensures
            r.ram_usage == 0 && r.vram_usage == 0 && r.spu_ram_usage == 0 && r.texture_cache_size == 0,
            r.allocation_count == 0 && r.deallocation_count == 0,
    {
        MemoryMonitor { ram_usage: 0, vram_usage: 0, spu_ram_usage: 0, texture_cache_size: 0, allocation_count: 0, deallocation_count: 0 }
    }
}

/// Timing totals of one profiled section, in nanoseconds.
#[derive(Debug, Clone, Copy, PartialEq, Eq, Structural)]
pub struct ProfileSection {
    pub total_time: u64,
    pub call_count: u64,
    pub min_time: u64,
    pub max_time: u64,
}

/// A section profiler: sections are opened and closed with the host's timestamps.
pub struct Profiler {
    pub enabled: bool,
    /// Sections by name, each name once.
    pub sections: Vec<(String, ProfileSection)>,
    /// Open sections with their start times.
    pub call_stack: Vec<(String, u64)>,
}

/// The totals of a section after one more call of `elapsed` nanoseconds.
pub open spec fn section_after(s: ProfileSection, elapsed: u64) -> ProfileSection {
    ProfileSection {
        total_time: (s.total_time + elapsed) as u64,
        call_count: (s.call_count + 1) as u64,
        min_time: if elapsed < s.min_time { elapsed } else { s.min_time },
        max_time: if elapsed > s.max_time { elapsed } else { s.max_time },
    }
}

/// A section's totals before its first call.
pub open spec fn fresh_section() -> ProfileSection {
    ProfileSection { total_time: 0, call_count: 0, min_time: u64::MAX, max_time: 0 }
}

impl Profiler {
    /// No sections yet.
    pub fn new(enabled: bool) -> (r: Self)
        ensures
            r.enabled == enabled,
            r.sections@.len() == 0,
            r.call_stack@.len() == 0,
    {
        Profiler { enabled, sections: Vec::new(), call_stack: Vec::new() }
    }

    /// Open section `name` at time `now_ns`.
    pub fn begin_section(&mut self, name: &str, now_ns: u64)
        ensures
            old(self).enabled ==> final(self).call_stack@.len() == old(self).call_stack@.len() + 1
                && final(self).call_stack@.last().0@ == name@ && final(self).call_stack@.last().1 == now_ns
                && final(self).call_stack@.drop_last() == old(self).call_stack@,
            !old(self).enabled ==> final(self).call_stack@ == old(self).call_stack@,
            final(self).sections@ == old(self).sections@,
            final(self).enabled == old(self).enabled,
    {
        if !self.enabled {
            return;
        }
        let ghost before = self.call_stack@;
        self.call_stack.push((String::from_str(name), now_ns));
        assert(self.call_stack@.drop_last() =~= before);
    }

    /// The index of section `name`, if it has one.
    fn find_section(&self, name: &String) -> (r: Option<usize>)
        ensures
            match r {
                Some(i) => i < self.sections@.len() && self.sections@[i as int].0@ == name@
                    && forall|j: int| 0 <= j < i ==> (#[trigger] self.sections@[j]).0@ != name@,
                None => forall|i: int| 0 <= i < self.sections@.len() ==> (#[trigger] self.sections@[i]).0@ != name@,
            },
    {
        let mut i: usize = 0;
        while i < self.sections.len()
            invariant
                i <= self.sections@.len(),
                forall|j: int| 0 <= j < i ==> (#[trigger] self.sections@[j]).0@ != name@,
            decreases self.sections@.len() - i,
        {
            if string_eq(&self.sections[i].0, name) {
                return Some(i);
            }
            i = i + 1;
        }
        None
    }

    /// Close the innermost open section at time `now_ns`; when it is `name`, add the
    /// elapsed time to its totals.
    pub fn end_section(&mut self, name: &str, now_ns: u64)
        requires
            forall|i: int| 0 <= i < old(self).sections@.len() ==> (#[trigger] old(self).sections@[i]).1.call_count < u64::MAX
                && old(self).sections@[i].1.total_time <= u64::MAX - now_ns,
        ensures
            !old(self).enabled ==> final(self).call_stack@ == old(self).call_stack@ && final(self).sections@ == old(self).sections@,
            old(self).enabled && old(self).call_stack@.len() > 0 ==> final(self).call_stack@ == old(self).call_stack@.drop_last(),
            old(self).enabled && old(self).call_stack@.len() == 0 ==> final(self).call_stack@ == old(self).call_stack@
                && final(self).sections@ == old(self).sections@,
            old(self).enabled && old(self).call_stack@.len() > 0 && old(self).call_stack@.last().0@ != name@
                ==> final(self).sections@ == old(self).sections@,
            old(self).enabled && old(self).call_stack@.len() > 0 && old(self).call_stack@.last().0@ == name@ ==> {
                let old_sections = old(self).sections@;
                let start = old(self).call_stack@.last().1;
                let elapsed: u64 = if now_ns >= start { (now_ns - start) as u64 } else { 0 };
                if exists|i: int| 0 <= i < old_sections.len() && (#[trigger] old_sections[i]).0@ == name@ {
                    exists|i: int|
                        0 <= i < old_sections.len() && (#[trigger] old_sections[i]).0@ == name@
                        && (forall|j: int| 0 <= j < i ==> (#[trigger] old_sections[j]).0@ != name@)
                        && final(self).sections@ == old_sections.update(i, (old_sections[i].0, section_after(old_sections[i].1, elapsed)))
                } else {
                    &&& final(self).sections@.drop_last() == old_sections
                    &&& final(self).sections@.len() == old_sections.len() + 1
                    &&& final(self).sections@.last().0@ == name@
                    &&& final(self).sections@.last().1 == section_after(fresh_section(), elapsed)
                }
            },
            final(self).enabled == old(self).enabled,
    {
        if !self.enabled {
            return;
        }
        match self.call_stack.pop() {
            Some((section_name, start_time)) => {
                if string_eq(&section_name, &String::from_str(name)) {
                    let elapsed: u64 = if now_ns >= start_time { now_ns - start_time } else { 0 };
                    match self.find_section(&section_name) {
                        Some(i) => {
                            let (n, s) = self.sections.remove(i);
                            let updated = ProfileSection {
                                total_time: s.total_time + elapsed,
                                call_count: s.call_count + 1,
                                min_time: if elapsed < s.min_time { elapsed } else { s.min_time },
                                max_time: if elapsed > s.max_time { elapsed } else { s.max_time },
                            };
                            self.sections.insert(i, (n, updated));
                            assert(self.sections@ =~= old(self).sections@.update(i as int, (old(self).sections@[i as int].0, section_after(old(self).sections@[i as int].1, elapsed))));
                        },
                        None => {
                            let s = ProfileSection { total_time: elapsed, call_count: 1, min_time: elapsed, max_time: elapsed };
                            self.sections.push((section_name, s));
                            assert(self.sections@.drop_last() =~= old(self).sections@);
                        },
                    }
                }
            },
            None => {},
        }
    }

    /// The sections and their totals.
    pub fn get_sections(&self) -> (r: &Vec<(String, ProfileSection)>)
        ensures
            r@ == self.sections@,
    {
        &self.sections
    }
}

/// Whether two strings are equal, character by character.
fn string_eq(a: &String, b: &String) -> (r: bool)
    ensures
        r == (a@ == b@),
{
    a.eq(b)
}

/// Monitor settings.
#[derive(Debug, Clone, Copy, PartialEq, Eq, Structural)]
pub struct OverlayConfig {
    pub show_fps: bool,
    pub show_frame_time: bool,
    pub show_cpu_usage: bool,
    pub show_gpu_usage: bool,
    pub show_memory: bool,
    pub show_graph: bool,
    pub show_breakdown: bool,
    pub show_hotspots: bool,
}

impl Default for OverlayConfig {
    fn default() -> (r: Self)
        ensures
            r == (OverlayConfig {
                show_fps: true,
                show_frame_time: true,
                show_cpu_usage: true,
                show_gpu_usage: true,
                show_memory: true,
                show_graph: false,
                show_breakdown: false,
                show_hotspots: false,
            }),
    {
        OverlayConfig {
            show_fps: true,
            show_frame_time: true,
            show_cpu_usage: true,
            show_gpu_usage: true,
            show_memory: true,
            show_graph: false,
            show_breakdown: false,
            show_hotspots: false,
        }
    }
}

/// Monitor settings.
#[derive(Debug, Clone, Copy, PartialEq, Eq, Structural)]
pub struct MonitorConfig {
    pub overlay_enabled: bool,
    pub detailed_timing: bool,
    pub profiling_enabled: bool,
    pub hotspot_detection: bool,
    pub overlay_config: OverlayConfig,
}

impl Default for MonitorConfig {
    fn default() -> (r: Self)
        ensures
            r.overlay_enabled && !r.detailed_timing && !r.profiling_enabled && !r.hotspot_detection,
            r.overlay_config.show_fps && !r.overlay_config.show_graph,
    {
        MonitorConfig {
            overlay_enabled: true,
            detailed_timing: false,
            profiling_enabled: false,
            hotspot_detection: false,
            overlay_config: OverlayConfig::default(),
        }
    }
}

/// An RGBA colour.
#[derive(Debug, Clone, Copy, PartialEq, Eq, Structural)]
pub struct Color {
    pub r: u8,
    pub g: u8,
    pub b: u8,
    pub a: u8,
}

impl Color {
    pub fn white() -> (r: Color)
        ensures
            r == (Color { r: 255, g: 255, b: 255, a: 255 }),
    {
        Color { r: 255, g: 255, b: 255, a: 255 }
    }

    pub fn green() -> (r: Color)
        ensures
            r == (Color { r: 0, g: 255, b: 0, a: 255 }),
    {
        Color { r: 0, g: 255, b: 0, a: 255 }
    }

    pub fn yellow() -> (r: Color)
        ensures
            r == (Color { r: 255, g: 255, b: 0, a: 255 }),
    {
        Color { r: 255, g: 255, b: 0, a: 255 }
    }

    pub fn red() -> (r: Color)
        ensures
            r == (Color { r: 255, g: 0, b: 0, a: 255 }),
    {
        Color { r: 255, g: 0, b: 0, a: 255 }
    }

    pub fn orange() -> (r: Color)
        ensures
            r == (Color { r: 255, g: 128, b: 0, a: 255 }),
    {
        Color { r: 255, g: 128, b: 0, a: 255 }
    }

    pub fn gray() -> (r: Color)
        ensures
            r == (Color { r: 128, g: 128, b: 128, a: 255 }),
    {
        Color { r: 128, g: 128, b: 128, a: 255 }
    }
}

} // verus!
