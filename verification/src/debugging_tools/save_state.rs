//! Save-state analysis: a summary of the CPU and GPU state of each analysed save state,
//! and the differences between two of them as text.

use vstd::prelude::*;
use vstd::string::StringExecFns;
use crate::text::{append_dec, append_hex_digits, dec_str, hex_digits};

verus! {

/// Coprocessor 0 as stored in a save state.
#[derive(Debug, Clone, Copy, PartialEq, Eq, Structural)]
pub struct Cop0;

impl Cop0 {
    /// Whether an exception is waiting; save states do not record one.
    pub fn exception_pending(&self) -> (r: bool)
        ensures
            !r,
    {
        false
    }
}

/// The CPU part of a save state.
pub struct CpuState {
    pub pc: u32,
    pub registers: Vec<u32>,
    pub in_delay_slot: bool,
    pub cop0: Cop0,
}

/// The GPU part of a save state.
pub struct GpuState {
    pub display_mode: u32,
    pub drawing_area: (u32, u32, u32, u32),
    pub texture_window: u32,
    pub command_fifo: Vec<u32>,
}

/// A decoded save state.
pub struct SaveState {
    pub version: u32,
    pub cpu: CpuState,
    pub gpu: GpuState,
    pub ram: Vec<u8>,
}

/// The checksum recorded for a memory image; save states carry none, so it is 0.
pub fn calculate_checksum(data: &[u8]) -> (r: u32)
    ensures
        r == 0,
{
    0
}

/// Summary of a CPU state.
pub struct CpuStateAnalysis {
    pub pc: u32,
    pub register_values: Vec<u32>,
    pub in_delay_slot: bool,
    pub exception_pending: bool,
}

/// Summary of a GPU state.
#[derive(Debug, Clone, Copy)]
pub struct GpuStateAnalysis {
    pub display_mode: u32,
    pub drawing_area: (u32, u32, u32, u32),
    pub texture_window: u32,
    pub pending_commands: usize,
}

/// An analysed save state.
pub struct SaveStateInfo {
    pub label: String,
    pub size: usize,
    pub version: u32,
    pub cpu_state: CpuStateAnalysis,
    pub gpu_state: GpuStateAnalysis,
    pub memory_checksum: u32,
    /// When it was analysed (seconds, from the host clock).
    pub timestamp: u64,
}

/// The differences between two save states.
pub struct StateComparison {
    pub label1: String,
    pub label2: String,
    pub cpu_differences: Vec<String>,
    pub gpu_differences: Vec<String>,
    pub memory_different: bool,
}

/// The analyser.
pub struct SaveStateAnalyzer {
    pub states: Vec<SaveStateInfo>,
    pub comparisons: Vec<StateComparison>,
}

/// "PC: 0xAAAAAAAA -> 0xBBBBBBBB".
pub open spec fn pc_change(a: u32, b: u32) -> Seq<char> {
    "PC"@ + ": 0x"@ + hex_digits(a, 8) + " -> 0x"@ + hex_digits(b, 8)
}

/// "Rn: 0xAAAAAAAA -> 0xBBBBBBBB".
pub open spec fn reg_change(i: nat, a: u32, b: u32) -> Seq<char> {
    "R"@ + dec_str(i) + ": 0x"@ + hex_digits(a, 8) + " -> 0x"@ + hex_digits(b, 8)
}

/// The register differences among the first `n` registers, in register order.
pub open spec fn reg_diffs(r1: Seq<u32>, r2: Seq<u32>, n: nat) -> Seq<Seq<char>>
    decreases n,
{
    if n == 0 {
        Seq::empty()
    } else {
        let i = (n - 1) as nat;
        reg_diffs(r1, r2, i) + if r1[i as int] != r2[i as int] { seq![reg_change(i, r1[i as int], r2[i as int])] } else { Seq::empty() }
    }
}

/// The CPU differences: the PC, then each of the 32 registers that differs.
pub open spec fn cpu_diffs(s1: CpuStateAnalysis, s2: CpuStateAnalysis) -> Seq<Seq<char>> {
    (if s1.pc != s2.pc { seq![pc_change(s1.pc, s2.pc)] } else { Seq::empty() })
        + reg_diffs(s1.register_values@, s2.register_values@, 32)
}

/// The GPU differences.
pub open spec fn gpu_diffs(s1: GpuStateAnalysis, s2: GpuStateAnalysis) -> Seq<Seq<char>> {
    (if s1.display_mode != s2.display_mode { seq!["Display mode changed"@] } else { Seq::empty() })
        + (if s1.drawing_area != s2.drawing_area { seq!["Drawing area changed"@] } else { Seq::empty() })
}

/// The text of a list of strings.
pub open spec fn texts(v: Seq<String>) -> Seq<Seq<char>> {
    v.map_values(|s: String| s@)
}

fn change_text(prefix: &str, a: u32, b: u32) -> (r: String)
    ensures
        r@ == prefix@ + ": 0x"@ + hex_digits(a, 8) + " -> 0x"@ + hex_digits(b, 8),
{
    let mut s = String::from_str(prefix);
    s.append(": 0x");
    append_hex_digits(&mut s, a, 8);
    s.append(" -> 0x");
    append_hex_digits(&mut s, b, 8);
    s
}

impl SaveStateAnalyzer {
    /// No states.
    pub fn new() -> (r: Self)
        ensures
            r.states@.len() == 0,
            r.comparisons@.len() == 0,
    {
        SaveStateAnalyzer { states: Vec::new(), comparisons: Vec::new() }
    }

    /// Record a decoded save state of `size` bytes under `label`, analysed at
    /// `timestamp`, and return its summary.
    pub fn analyze_state(&mut self, state: &SaveState, size: usize, label: String, timestamp: u64) -> (r: SaveStateInfo)
        ensures
            r.label == label,
            r.size == size,
            r.version == state.version,
            r.cpu_state.pc == state.cpu.pc,
            r.cpu_state.register_values@ == state.cpu.registers@,
            r.cpu_state.in_delay_slot == state.cpu.in_delay_slot,
            !r.cpu_state.exception_pending,
            r.gpu_state == (GpuStateAnalysis {
                display_mode: state.gpu.display_mode,
                drawing_area: state.gpu.drawing_area,
                texture_window: state.gpu.texture_window,
                pending_commands: state.gpu.command_fifo@.len() as usize,
            }),
            r.memory_checksum == 0,
            r.timestamp == timestamp,
            final(self).states@.len() == old(self).states@.len() + 1,
            forall|i: int| 0 <= i < old(self).states@.len() ==> final(self).states@[i] == old(self).states@[i],
            final(self).states@.last().label == label,
            final(self).states@.last().cpu_state.pc == r.cpu_state.pc,
            final(self).states@.last().cpu_state.register_values@ == r.cpu_state.register_values@,
            final(self).states@.last().gpu_state == r.gpu_state,
            final(self).states@.last().memory_checksum == 0,
    {
        let info = SaveStateInfo {
            label: label.clone(),
            size,
            version: state.version,
            cpu_state: self.analyze_cpu_state(&state.cpu),
            gpu_state: self.analyze_gpu_state(&state.gpu),
            memory_checksum: calculate_checksum(state.ram.as_slice()),
            timestamp,
        };
        let stored = SaveStateInfo {
            label,
            size,
            version: info.version,
            cpu_state: self.analyze_cpu_state(&state.cpu),
            gpu_state: info.gpu_state,
            memory_checksum: info.memory_checksum,
            timestamp,
        };
        self.states.push(stored);
        info
    }

    /// Compare analysed states `index1` and `index2`.
    pub fn compare_states(&mut self, index1: usize, index2: usize) -> (r: StateComparison)
        requires
            index1 < old(self).states@.len(),
            index2 < old(self).states@.len(),
            old(self).states@[index1 as int].cpu_state.register_values@.len() >= 32,
            old(self).states@[index2 as int].cpu_state.register_values@.len() >= 32,
        ensures
            r.label1@ == old(self).states@[index1 as int].label@,
            r.label2@ == old(self).states@[index2 as int].label@,
            texts(r.cpu_differences@) == cpu_diffs(old(self).states@[index1 as int].cpu_state, old(self).states@[index2 as int].cpu_state),
            texts(r.gpu_differences@) == gpu_diffs(old(self).states@[index1 as int].gpu_state, old(self).states@[index2 as int].gpu_state),
            r.memory_different == (old(self).states@[index1 as int].memory_checksum != old(self).states@[index2 as int].memory_checksum),
            final(self).states == old(self).states,
    {
        let state1 = &self.states[index1];
        let state2 = &self.states[index2];
        StateComparison {
            label1: state1.label.clone(),
            label2: state2.label.clone(),
            cpu_differences: self.compare_cpu_states(&state1.cpu_state, &state2.cpu_state),
            gpu_differences: self.compare_gpu_states(&state1.gpu_state, &state2.gpu_state),
            memory_different: state1.memory_checksum != state2.memory_checksum,
        }
    }

    /// Summarise a CPU state.
    pub fn analyze_cpu_state(&self, cpu: &CpuState) -> (r: CpuStateAnalysis)
        ensures
            r.pc == cpu.pc,
            r.register_values@ == cpu.registers@,
            r.in_delay_slot == cpu.in_delay_slot,
            !r.exception_pending,
    {
        CpuStateAnalysis {
            pc: cpu.pc,
            register_values: cpu.registers.clone(),
            in_delay_slot: cpu.in_delay_slot,
            exception_pending: cpu.cop0.exception_pending(),
        }
    }

    /// Summarise a GPU state.
    pub fn analyze_gpu_state(&self, gpu: &GpuState) -> (r: GpuStateAnalysis)
        ensures
            r == (GpuStateAnalysis {
                display_mode: gpu.display_mode,
                drawing_area: gpu.drawing_area,
                texture_window: gpu.texture_window,
                pending_commands: gpu.command_fifo@.len() as usize,
            }),
    {
        GpuStateAnalysis {
            display_mode: gpu.display_mode,
            drawing_area: gpu.drawing_area,
            texture_window: gpu.texture_window,
            pending_commands: gpu.command_fifo.len(),
        }
    }

    /// The CPU differences as text.
    pub fn compare_cpu_states(&self, s1: &CpuStateAnalysis, s2: &CpuStateAnalysis) -> (r: Vec<String>)
        requires
            s1.register_values@.len() >= 32,
            s2.register_values@.len() >= 32,
        ensures
            texts(r@) == cpu_diffs(*s1, *s2),
    {
        let mut diffs: Vec<String> = Vec::new();
        if s1.pc != s2.pc {
            diffs.push(change_text("PC", s1.pc, s2.pc));
        }
        let ghost head = texts(diffs@);
        assert(head =~= (if s1.pc != s2.pc { seq![pc_change(s1.pc, s2.pc)] } else { Seq::<Seq<char>>::empty() }));
        assert(head == (if s1.pc != s2.pc { seq![pc_change(s1.pc, s2.pc)] } else { Seq::<Seq<char>>::empty() }));
        let mut i: usize = 0;
        while i < 32
            invariant
                s1.register_values@.len() >= 32,
                s2.register_values@.len() >= 32,
                i <= 32,
                head == (if s1.pc != s2.pc { seq![pc_change(s1.pc, s2.pc)] } else { Seq::<Seq<char>>::empty() }),
                texts(diffs@) == head + reg_diffs(s1.register_values@, s2.register_values@, i as nat),
            decreases 32 - i,
        {
            let a = s1.register_values[i];
            let b = s2.register_values[i];
            let ghost prev = texts(diffs@);
            if a != b {
                let mut prefix = String::from_str("R");
                append_dec(&mut prefix, i as u64);
                let mut s = prefix;
                s.append(": 0x");
                append_hex_digits(&mut s, a, 8);
                s.append(" -> 0x");
                append_hex_digits(&mut s, b, 8);
                assert(s@ == reg_change(i as nat, a, b));
                diffs.push(s);
                assert(texts(diffs@) =~= prev.push(reg_change(i as nat, a, b)));
            }
            i = i + 1;
            assert(texts(diffs@) =~= head + reg_diffs(s1.register_values@, s2.register_values@, i as nat));
        }
        diffs
    }

    /// The GPU differences as text.
    pub fn compare_gpu_states(&self, s1: &GpuStateAnalysis, s2: &GpuStateAnalysis) -> (r: Vec<String>)
        ensures
            texts(r@) == gpu_diffs(*s1, *s2),
    {
        let mut diffs: Vec<String> = Vec::new();
        if s1.display_mode != s2.display_mode {
            diffs.push(String::from_str("Display mode changed"));
        }
        let (a0, a1, a2, a3) = s1.drawing_area;
        let (b0, b1, b2, b3) = s2.drawing_area;
        if a0 != b0 || a1 != b1 || a2 != b2 || a3 != b3 {
            diffs.push(String::from_str("Drawing area changed"));
        }
        assert(texts(diffs@) =~= gpu_diffs(*s1, *s2));
        diffs
    }
}

} // verus!
