//! CPU debugging: an execution trace with per-register change histories, a cached
//! disassembler, a call stack, and a text report of the latest instructions.

use vstd::prelude::*;
use vstd::string::{StrSliceExecFns, StringExecFns};
use std::collections::{HashMap, VecDeque};
use super::disasm::{disasm_text, disassemble_word};
use crate::text::{append_dec, append_hex_digits, dec_str, hex_digits};

verus! {

broadcast use vstd::std_specs::hash::group_hash_axioms;

/// The CPU state the tracer reads.
pub struct Cpu {
    pub pc: u32,
    pub current_instruction: u32,
    pub registers: Vec<u32>,
    pub cycle_count: u64,
}

/// One traced instruction.
pub struct CpuTraceEntry {
    pub pc: u32,
    pub instruction: u32,
    pub registers: Vec<u32>,
    pub cycle_count: u64,
}

/// A cached disassembly.
pub struct DisassembledInstruction {
    pub address: u32,
    pub instruction: u32,
    pub text: String,
}

/// How the debugger steps.
#[derive(Debug, Clone, Copy, PartialEq, Eq, Structural)]
pub enum StepMode {
    Disabled,
    StepInto,
    StepOver,
    StepOut,
}

/// A call on the call stack.
#[derive(Debug, Clone, Copy, PartialEq, Eq, Structural)]
pub struct CallStackEntry {
    pub from_address: u32,
    pub to_address: u32,
    pub stack_pointer: u32,
    pub cycle_count: u64,
}

/// The CPU debugger.
pub struct CpuDebugger {
    /// The latest traced instructions, oldest first, at most 10000.
    pub trace_buffer: VecDeque<CpuTraceEntry>,
    /// Disassembly by address.
    pub disassembly_cache: HashMap<u32, DisassembledInstruction>,
    pub step_mode: StepMode,
    pub call_stack: Vec<CallStackEntry>,
    /// For each of the 32 registers, its latest distinct values, oldest first, at most 100.
    pub register_history: Vec<VecDeque<u32>>,
}

/// A register history after the register was seen holding `v`: a new value is appended
/// and the oldest dropped beyond 100.
pub open spec fn history_after(h: Seq<u32>, v: u32) -> Seq<u32> {
    if h.len() > 0 && h.last() == v {
        h
    } else if h.len() + 1 > 100 {
        h.push(v).drop_first()
    } else {
        h.push(v)
    }
}

/// `s` padded with spaces to 20 characters.
pub open spec fn pad20(s: Seq<char>) -> Seq<char> {
    if s.len() >= 20 { s } else { s + Seq::new((20 - s.len()) as nat, |i: int| ' ') }
}

/// The report line of a traced instruction.
pub open spec fn trace_line(pc: u32, instruction: u32) -> Seq<char> {
    "│ 0x"@ + hex_digits(pc, 8) + " │ 0x"@ + hex_digits(instruction, 8) + " │ "@ + pad20(disasm_text(instruction)) + " │\n"@
}

/// The whole trace report over `entries`, oldest first: a header with the count, the
/// newest 20 lines, and a footer.
pub open spec fn trace_report(entries: Seq<(u32, u32)>) -> Seq<char> {
    let k = if entries.len() < 20 { entries.len() } else { 20 };
    "CPU Execution Trace (last "@ + dec_str(entries.len()) + " instructions):\n"@
        + "┌────────────┬────────────┬──────────────────────┐\n"@
        + "│     PC     │ Instruction│      Disassembly     │\n"@
        + "├────────────┼────────────┼──────────────────────┤\n"@
        + trace_lines_newest(entries, k)
        + "└────────────┴────────────┴──────────────────────┘\n"@
}

/// The report lines of the newest `k` entries, newest first.
pub open spec fn trace_lines_newest(entries: Seq<(u32, u32)>, k: nat) -> Seq<char>
    decreases k,
{
    if k == 0 || k > entries.len() {
        Seq::empty()
    } else {
        trace_lines_newest(entries, (k - 1) as nat) + trace_line(entries[entries.len() - k].0, entries[entries.len() - k].1)
    }
}

impl CpuDebugger {
    /// The (pc, instruction) pairs of the trace, oldest first.
    pub open spec fn trace_view(&self) -> Seq<(u32, u32)> {
        self.trace_buffer@.map_values(|e: CpuTraceEntry| (e.pc, e.instruction))
    }

    /// The trace as (pc, instruction, registers, cycle count), oldest first.
    #[verifier::opaque]
    pub open spec fn trace_entries(&self) -> Seq<(u32, u32, Seq<u32>, u64)> {
        self.trace_buffer@.map_values(|e: CpuTraceEntry| (e.pc, e.instruction, e.registers@, e.cycle_count))
    }

    /// An empty debugger with an empty history for each register.
    pub fn new() -> (r: Self)
        ensures
            r.trace_buffer@.len() == 0,
            r.disassembly_cache@ == Map::<u32, DisassembledInstruction>::empty(),
            r.step_mode == StepMode::Disabled,
            r.call_stack@.len() == 0,
            r.register_history@.len() == 32,
            forall|i: int| 0 <= i < 32 ==> (#[trigger] r.register_history@[i])@.len() == 0,
    {
        let mut register_history: Vec<VecDeque<u32>> = Vec::new();
        let mut i: usize = 0;
        while i < 32
            invariant
                i <= 32,
                register_history@.len() == i,
                forall|j: int| 0 <= j < i ==> (#[trigger] register_history@[j])@.len() == 0,
            decreases 32 - i,
        {
            register_history.push(VecDeque::new());
            i = i + 1;
        }
        CpuDebugger {
            trace_buffer: VecDeque::new(),
            disassembly_cache: HashMap::new(),
            step_mode: StepMode::Disabled,
            call_stack: Vec::new(),
            register_history,
        }
    }

    /// Record the instruction the CPU is at, keeping the latest 10000, and note each
    /// register whose value differs from the last one recorded for it.
    pub fn trace_execution(&mut self, cpu: &Cpu)
        requires
            cpu.registers@.len() >= 32,
            old(self).register_history@.len() == 32,
        ensures
            final(self).trace_entries() == (if old(self).trace_buffer@.len() + 1 > 10000 {
                old(self).trace_entries().push((cpu.pc, cpu.current_instruction, cpu.registers@, cpu.cycle_count)).drop_first()
            } else {
                old(self).trace_entries().push((cpu.pc, cpu.current_instruction, cpu.registers@, cpu.cycle_count))
            }),
            final(self).trace_view() == (if old(self).trace_buffer@.len() + 1 > 10000 {
                old(self).trace_view().push((cpu.pc, cpu.current_instruction)).drop_first()
            } else {
                old(self).trace_view().push((cpu.pc, cpu.current_instruction))
            }),
            final(self).register_history@.len() == 32,
            forall|i: int| 0 <= i < 32 ==> (#[trigger] final(self).register_history@[i])@
                == history_after(old(self).register_history@[i]@, cpu.registers@[i]),
            final(self).call_stack == old(self).call_stack,
            final(self).disassembly_cache == old(self).disassembly_cache,
            final(self).step_mode == old(self).step_mode,
    {
        let entry = CpuTraceEntry {
            pc: cpu.pc,
            instruction: cpu.current_instruction,
            registers: cpu.registers.clone(),
            cycle_count: cpu.cycle_count,
        };
        assert(entry.registers@ == cpu.registers@);
        reveal(CpuDebugger::trace_entries);
        let ghost tv = self.trace_view();
        let ghost te = self.trace_entries();
        let ghost item = (cpu.pc, cpu.current_instruction, cpu.registers@, cpu.cycle_count);
        self.trace_buffer.push_back(entry);
        assert(self.trace_view() =~= tv.push((cpu.pc, cpu.current_instruction)));
        assert(self.trace_entries() =~= te.push(item));
        if self.trace_buffer.len() > 10000 {
            self.trace_buffer.pop_front();
            assert(self.trace_view() =~= tv.push((cpu.pc, cpu.current_instruction)).drop_first());
            assert(self.trace_entries() =~= te.push(item).drop_first());
        }
        let ghost hist0 = self.register_history@;
        let ghost tb = self.trace_buffer;
        let mut i: usize = 0;
        while i < 32
            invariant
                cpu.registers@.len() >= 32,
                hist0.len() == 32,
                i <= 32,
                self.register_history@.len() == 32,
                forall|j: int| 0 <= j < i ==> (#[trigger] self.register_history@[j])@ == history_after(hist0[j]@, cpu.registers@[j]),
                forall|j: int| i <= j < 32 ==> #[trigger] self.register_history@[j] == hist0[j],
                self.call_stack == old(self).call_stack,
                self.disassembly_cache == old(self).disassembly_cache,
                self.step_mode == old(self).step_mode,
                self.trace_buffer == tb,
                self.trace_view() == (if old(self).trace_buffer@.len() + 1 > 10000 {
                    old(self).trace_view().push((cpu.pc, cpu.current_instruction)).drop_first()
                } else {
                    old(self).trace_view().push((cpu.pc, cpu.current_instruction))
                }),
            decreases 32 - i,
        {
            let v = cpu.registers[i];
            let mut h = self.register_history.remove(i);
            let n = h.len();
            if n == 0 || h[n - 1] != v {
                h.push_back(v);
                if h.len() > 100 {
                    h.pop_front();
                }
            }
            self.register_history.insert(i, h);
            i = i + 1;
        }
    }

    /// The disassembly of `instruction` at `address`; an address seen before gives the
    /// cached text.
    pub fn disassemble(&mut self, address: u32, instruction: u32) -> (r: String)
        ensures
            old(self).disassembly_cache@.contains_key(address) ==> r@ == old(self).disassembly_cache@[address].text@
                && final(self).disassembly_cache@ == old(self).disassembly_cache@,
            !old(self).disassembly_cache@.contains_key(address) ==> r@ == disasm_text(instruction)
                && final(self).disassembly_cache@.contains_key(address)
                && final(self).disassembly_cache@[address].text@ == r@
                && final(self).disassembly_cache@.dom() == old(self).disassembly_cache@.dom().insert(address),
            final(self).trace_buffer == old(self).trace_buffer,
            final(self).register_history == old(self).register_history,
    {
        match self.disassembly_cache.get(&address) {
            Some(cached) => {
                return cached.text.clone();
            },
            None => {},
        }
        let disasm = self.disassemble_mips(instruction);
        self.disassembly_cache.insert(address, DisassembledInstruction { address, instruction, text: disasm.clone() });
        disasm
    }

    /// Disassemble an instruction word.
    pub fn disassemble_mips(&self, instruction: u32) -> (r: String)
        ensures
            r@ == disasm_text(instruction),
    {
        disassemble_word(instruction)
    }

    /// Note a call (push) or a return (pop).
    pub fn track_call(&mut self, from: u32, to: u32, is_return: bool)
        ensures
            is_return ==> final(self).call_stack@ == (if old(self).call_stack@.len() > 0 {
                old(self).call_stack@.drop_last()
            } else {
                old(self).call_stack@
            }),
            !is_return ==> final(self).call_stack@ == old(self).call_stack@.push(CallStackEntry {
                from_address: from,
                to_address: to,
                stack_pointer: 0,
                cycle_count: 0,
            }),
            final(self).trace_buffer == old(self).trace_buffer,
    {
        if is_return {
            self.call_stack.pop();
        } else {
            self.call_stack.push(CallStackEntry { from_address: from, to_address: to, stack_pointer: 0, cycle_count: 0 });
        }
    }

    /// The report of the newest 20 traced instructions.
    #[verifier::rlimit(80)]
    pub fn generate_trace_report(&self) -> (r: String)
        ensures
            r@ == trace_report(self.trace_view()),
    {
        let n = self.trace_buffer.len();
        let ghost entries = self.trace_view();
        let mut report = String::from_str("CPU Execution Trace (last ");
        append_dec(&mut report, n as u64);
        report.append(" instructions):\n");
        report.append("┌────────────┬────────────┬──────────────────────┐\n");
        report.append("│     PC     │ Instruction│      Disassembly     │\n");
        report.append("├────────────┼────────────┼──────────────────────┤\n");
        let ghost head = report@;
        let k = if n < 20 { n } else { 20 };
        let mut j: usize = 0;
        while j < k
            invariant
                n == self.trace_buffer@.len(),
                entries == self.trace_view(),
                entries.len() == n,
                k <= n,
                k <= 20,
                j <= k,
                report@ == head + trace_lines_newest(entries, j as nat),
            decreases k - j,
        {
            let e = &self.trace_buffer[n - 1 - j];
            assert(entries[n - 1 - j] == (e.pc, e.instruction));
            let text = disassemble_word(e.instruction);
            report.append("│ 0x");
            append_hex_digits(&mut report, e.pc, 8);
            report.append(" │ 0x");
            append_hex_digits(&mut report, e.instruction, 8);
            report.append(" │ ");
            report.append(text.as_str());
            let len = text.as_str().unicode_len();
            let mut p: usize = len;
            let ghost before_pad = report@;
            while p < 20
                invariant
                    len == text@.len(),
                    len <= p <= 20 || (p == len && len >= 20),
                    report@ == before_pad + Seq::new((p - len) as nat, |i: int| ' '),
                decreases 20 - p,
            {
                proof { reveal_strlit(" "); }
                report.append(" ");
                p = p + 1;
                assert(report@ =~= before_pad + Seq::new((p - len) as nat, |i: int| ' '));
            }
            report.append(" │\n");
            j = j + 1;
            assert(report@ =~= head + trace_lines_newest(entries, j as nat));
        }
        report.append("└────────────┴────────────┴──────────────────────┘\n");
        report
    }
}

} // verus!
