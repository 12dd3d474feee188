//! CPU instructions as separate handlers: a decoded instruction word is turned into a
//! handler object, which executes against any CPU state that offers registers, PC,
//! memory and the delay-slot flag.

use vstd::prelude::*;
use vstd::string::StringExecFns;
use super::memory_map::{JUMP_TARGET_MASK, PC_SEGMENT_MASK};

verus! {

/// CPU exceptions that an instruction can raise.
#[derive(Debug, Clone, Copy, PartialEq, Eq, Structural)]
pub enum InstructionException {
    Overflow,
    AddressError(u32),
    BusError(u32),
    Syscall,
    Break,
    ReservedInstruction,
    CoprocessorUnusable,
    IntegerOverflow,
}

/// Result of executing an instruction.
pub type InstructionResult = Result<(), InstructionException>;

/// Memory access size.
#[derive(Debug, Clone, Copy, PartialEq, Eq, Structural)]
pub enum MemorySize {
    Byte,
    HalfWord,
    Word,
}

/// The CPU state that instructions execute against. Implementations keep register 0 at
/// zero: a write to it is dropped.
pub trait CpuState {
    /// General purpose register `i`.
    spec fn reg(&self, i: u32) -> u32;

    /// The program counter.
    spec fn pc(&self) -> u32;

    /// The next program counter.
    spec fn next_pc(&self) -> u32;

    /// Whether the next instruction is in a branch delay slot.
    spec fn delay(&self) -> bool;

    /// HI and LO.
    spec fn hi(&self) -> u32;

    spec fn lo(&self) -> u32;

    /// What a read of `size` at `addr` gives.
    spec fn read_result(&self, addr: u32, size: MemorySize) -> Result<u32, InstructionException>;

    /// What a write of `size` of `value` at `addr` reports.
    spec fn write_result(&self, addr: u32, value: u32, size: MemorySize) -> Result<(), InstructionException>;

    fn get_reg(&self, index: u32) -> (r: u32)
        ensures
            r == self.reg(index),
    ;

    fn set_reg(&mut self, index: u32, value: u32)
        ensures
            index != 0 && index < 32 ==> final(self).reg(index) == value,
            forall|j: u32| j != index ==> final(self).reg(j) == old(self).reg(j),
            final(self).pc() == old(self).pc(),
            final(self).next_pc() == old(self).next_pc(),
            final(self).delay() == old(self).delay(),
    ;

    fn get_pc(&self) -> (r: u32)
        ensures
            r == self.pc(),
    ;

    fn set_pc(&mut self, value: u32)
        ensures
            final(self).pc() == value,
    ;

    fn get_next_pc(&self) -> (r: u32)
        ensures
            r == self.next_pc(),
    ;

    fn set_next_pc(&mut self, value: u32)
        ensures
            final(self).next_pc() == value,
            forall|j: u32| final(self).reg(j) == old(self).reg(j),
            final(self).pc() == old(self).pc(),
            final(self).delay() == old(self).delay(),
    ;

    fn read_memory(&self, addr: u32, size: MemorySize) -> (r: Result<u32, InstructionException>)
        ensures
            r == self.read_result(addr, size),
    ;

    fn write_memory(&mut self, addr: u32, value: u32, size: MemorySize) -> (r: Result<(), InstructionException>)
        ensures
            r == old(self).write_result(addr, value, size),
    ;

    fn get_hi(&self) -> (r: u32)
        ensures
            r == self.hi(),
    ;

    fn set_hi(&mut self, value: u32)
        ensures
            final(self).hi() == value,
    ;

    fn get_lo(&self) -> (r: u32)
        ensures
            r == self.lo(),
    ;

    fn set_lo(&mut self, value: u32)
        ensures
            final(self).lo() == value,
    ;

    fn in_delay_slot(&self) -> (r: bool)
        ensures
            r == self.delay(),
    ;

    fn set_delay_slot(&mut self, value: bool)
        ensures
            final(self).delay() == value,
            forall|j: u32| final(self).reg(j) == old(self).reg(j),
            final(self).pc() == old(self).pc(),
            final(self).next_pc() == old(self).next_pc(),
    ;
}

/// What an instruction sees of a CPU: its registers, program counters, delay-slot flag,
/// HI and LO, and what a read or a write of memory reports.
pub struct CpuView {
    pub regs: Map<u32, u32>,
    pub pc: u32,
    pub next_pc: u32,
    pub delay: bool,
    pub hi: u32,
    pub lo: u32,
    pub reads: Map<(u32, MemorySize), Result<u32, InstructionException>>,
    pub writes: Map<(u32, u32, MemorySize), Result<(), InstructionException>>,
}

/// An executable instruction handler.
pub trait Instruction {
    /// What the handler needs of the program counter to execute without a machine fault.
    spec fn ready(&self, pc: u32) -> bool;

    /// Whether this is the handler that `decoded` selects, holding its fields.
    spec fn built_from(&self, decoded: DecodedInstruction) -> bool;

    /// Whether executing the handler on a CPU in state `before` may leave it in state
    /// `after` with result `r`.
    spec fn executes(&self, before: CpuView, after: CpuView, r: InstructionResult) -> bool;

    /// Execute against `cpu`.
    fn execute(&self, cpu: &mut dyn CpuState) -> (r: InstructionResult)
        requires
            self.ready(old(cpu).pc()),
        ensures
            self.executes(
                CpuView {
                regs: Map::new(|j: u32| true, |j: u32| old(cpu).reg(j)),
                pc: old(cpu).pc(),
                next_pc: old(cpu).next_pc(),
                delay: old(cpu).delay(),
                hi: old(cpu).hi(),
                lo: old(cpu).lo(),
                reads: Map::new(|k: (u32, MemorySize)| true, |k: (u32, MemorySize)| old(cpu).read_result(k.0, k.1)),
                writes: Map::new(|k: (u32, u32, MemorySize)| true, |k: (u32, u32, MemorySize)| old(cpu).write_result(k.0, k.1, k.2)),
            },
                CpuView {
                regs: Map::new(|j: u32| true, |j: u32| final(cpu).reg(j)),
                pc: final(cpu).pc(),
                next_pc: final(cpu).next_pc(),
                delay: final(cpu).delay(),
                hi: final(cpu).hi(),
                lo: final(cpu).lo(),
                reads: Map::new(|k: (u32, MemorySize)| true, |k: (u32, MemorySize)| final(cpu).read_result(k.0, k.1)),
                writes: Map::new(|k: (u32, u32, MemorySize)| true, |k: (u32, u32, MemorySize)| final(cpu).write_result(k.0, k.1, k.2)),
            },
                r,
            ),
    ;

    /// The mnemonic.
    fn mnemonic(&self) -> &'static str;

    /// The disassembly: the mnemonic.
    fn disassemble(&self) -> String {
        String::from_str(self.mnemonic())
    }
}

/// The fields of an instruction word.
#[derive(Debug, Clone, Copy, PartialEq, Eq, Structural)]
pub struct DecodedInstruction {
    pub opcode: u32,
    pub rs: u32,
    pub rt: u32,
    pub rd: u32,
    pub shamt: u32,
    pub funct: u32,
    pub immediate: u16,
    pub target: u32,
    pub raw: u32,
}

/// The fields of `w`.
pub open spec fn decoded_of(w: u32) -> DecodedInstruction {
    DecodedInstruction {
        opcode: (w >> 26u32) & 0x3f,
        rs: (w >> 21u32) & 0x1f,
        rt: (w >> 16u32) & 0x1f,
        rd: (w >> 11u32) & 0x1f,
        shamt: (w >> 6u32) & 0x1f,
        funct: w & 0x3f,
        immediate: w as u16,
        target: w & 0x03ffffff,
        raw: w,
    }
}

/// The immediate sign-extended to 32 bits.
pub open spec fn sext16(imm: u16) -> u32 {
    ((imm as i16) as i32) as u32
}

impl DecodedInstruction {
    /// Split an instruction word into its fields.
    pub fn decode(instruction: u32) -> (r: Self)
        ensures
            r == decoded_of(instruction),
    {
        DecodedInstruction {
            opcode: (instruction >> 26) & 0x3f,
            rs: (instruction >> 21) & 0x1f,
            rt: (instruction >> 16) & 0x1f,
            rd: (instruction >> 11) & 0x1f,
            shamt: (instruction >> 6) & 0x1f,
            funct: instruction & 0x3f,
            immediate: instruction as u16,
            target: instruction & JUMP_TARGET_MASK,
            raw: instruction,
        }
    }

    /// The immediate, sign-extended.
    pub fn sign_extend_immediate(&self) -> (r: u32)
        ensures
            r == sext16(self.immediate),
    {
        self.immediate as i16 as i32 as u32
    }
}

/// ADD: add with overflow trap.
pub struct Add {
    pub rd: u32,
    pub rs: u32,
    pub rt: u32,
}

impl Add {
    pub fn new(decoded: &DecodedInstruction) -> (r: Self)
        ensures
            r.rd == decoded.rd && r.rs == decoded.rs && r.rt == decoded.rt,
    {
        Self { rd: decoded.rd, rs: decoded.rs, rt: decoded.rt }
    }
}

/// Whether a signed 32-bit add of `a` and `b` overflows.
pub open spec fn add_overflows(a: u32, b: u32) -> bool {
    !(i32::MIN <= (a as i32) + (b as i32) <= i32::MAX)
}

impl Instruction for Add {
    open spec fn built_from(&self, decoded: DecodedInstruction) -> bool {
        handler_of(decoded) == HandlerKind::Add && self.rd == decoded.rd && self.rs == decoded.rs && self.rt == decoded.rt
    }

    open spec fn executes(&self, before: CpuView, after: CpuView, r: InstructionResult) -> bool {
        &&& ({
                    let a = before.regs[self.rs];
                    let b = before.regs[self.rt];
                    if add_overflows(a, b) {
                        &&& r == Err::<(), InstructionException>(InstructionException::IntegerOverflow)
                        &&& forall|j: u32| after.regs[j] == before.regs[j]
                    } else {
                        &&& r is Ok
                        &&& self.rd != 0 && self.rd < 32 ==> after.regs[self.rd] == ((a as i32) + (b as i32)) as u32
                        &&& forall|j: u32| j != self.rd ==> after.regs[j] == before.regs[j]
                    }
                })
        &&& after.pc == before.pc
        &&& after.next_pc == before.next_pc
        &&& after.delay == before.delay
    }

    open spec fn ready(&self, pc: u32) -> bool {
        true
    }

    /// rd = rs + rt, or an integer overflow exception with nothing written.
    fn execute(&self, cpu: &mut dyn CpuState) -> (r: InstructionResult)
        ensures
            ({
                let a = old(cpu).reg(self.rs);
                let b = old(cpu).reg(self.rt);
                if add_overflows(a, b) {
                    &&& r == Err::<(), InstructionException>(InstructionException::IntegerOverflow)
                    &&& forall|j: u32| final(cpu).reg(j) == old(cpu).reg(j)
                } else {
                    &&& r is Ok
                    &&& self.rd != 0 && self.rd < 32 ==> final(cpu).reg(self.rd) == ((a as i32) + (b as i32)) as u32
                    &&& forall|j: u32| j != self.rd ==> final(cpu).reg(j) == old(cpu).reg(j)
                }
            }),
            final(cpu).pc() == old(cpu).pc(),
            final(cpu).next_pc() == old(cpu).next_pc(),
            final(cpu).delay() == old(cpu).delay(),
    {
        let a = cpu.get_reg(self.rs) as i32;
        let b = cpu.get_reg(self.rt) as i32;
        match a.checked_add(b) {
            Some(result) => {
                cpu.set_reg(self.rd, result as u32);
                Ok(())
            },
            None => Err(InstructionException::IntegerOverflow),
        }
    }

    fn mnemonic(&self) -> (r: &'static str)
        ensures
            r@ == "ADD"@,
    {
        "ADD"
    }
}

/// ADDU: add without overflow trap.
pub struct Addu {
    pub rd: u32,
    pub rs: u32,
    pub rt: u32,
}

impl Addu {
    pub fn new(decoded: &DecodedInstruction) -> (r: Self)
        ensures
            r.rd == decoded.rd && r.rs == decoded.rs && r.rt == decoded.rt,
    {
        Self { rd: decoded.rd, rs: decoded.rs, rt: decoded.rt }
    }
}

impl Instruction for Addu {
    open spec fn built_from(&self, decoded: DecodedInstruction) -> bool {
        handler_of(decoded) == HandlerKind::Addu && self.rd == decoded.rd && self.rs == decoded.rs && self.rt == decoded.rt
    }

    open spec fn executes(&self, before: CpuView, after: CpuView, r: InstructionResult) -> bool {
        &&& r is Ok
        &&& ({
                    let a = before.regs[self.rs];
                    let b = before.regs[self.rt];
                    &&& self.rd != 0 && self.rd < 32 ==> after.regs[self.rd] == a.wrapping_add(b)
                    &&& forall|j: u32| j != self.rd ==> after.regs[j] == before.regs[j]
                })
        &&& after.pc == before.pc
        &&& after.next_pc == before.next_pc
        &&& after.delay == before.delay
    }

    open spec fn ready(&self, pc: u32) -> bool {
        true
    }

    /// Write the result to rd.
    fn execute(&self, cpu: &mut dyn CpuState) -> (r: InstructionResult)
        ensures
            r is Ok,
            ({
                let a = old(cpu).reg(self.rs);
                let b = old(cpu).reg(self.rt);
                &&& self.rd != 0 && self.rd < 32 ==> final(cpu).reg(self.rd) == a.wrapping_add(b)
                &&& forall|j: u32| j != self.rd ==> final(cpu).reg(j) == old(cpu).reg(j)
            }),
            final(cpu).pc() == old(cpu).pc(),
            final(cpu).next_pc() == old(cpu).next_pc(),
            final(cpu).delay() == old(cpu).delay(),
    {
        let a = cpu.get_reg(self.rs);
        let b = cpu.get_reg(self.rt);
        let result = a.wrapping_add(b);
        cpu.set_reg(self.rd, result);
        Ok(())
    }

    fn mnemonic(&self) -> (r: &'static str)
        ensures
            r@ == "ADDU"@,
    {
        "ADDU"
    }
}

/// ADDI: add a sign-extended immediate with overflow trap.
pub struct Addi {
    pub rt: u32,
    pub rs: u32,
    pub immediate: u32,
}

impl Addi {
    pub fn new(decoded: &DecodedInstruction) -> (r: Self)
        ensures
            r.rt == decoded.rt && r.rs == decoded.rs && r.immediate == sext16(decoded.immediate),
    {
        Self { rt: decoded.rt, rs: decoded.rs, immediate: decoded.sign_extend_immediate() }
    }
}

impl Instruction for Addi {
    open spec fn built_from(&self, decoded: DecodedInstruction) -> bool {
        handler_of(decoded) == HandlerKind::Addi && self.rt == decoded.rt && self.rs == decoded.rs && self.immediate == sext16(decoded.immediate)
    }

    open spec fn executes(&self, before: CpuView, after: CpuView, r: InstructionResult) -> bool {
        &&& ({
                    let a = before.regs[self.rs];
                    if add_overflows(a, self.immediate) {
                        &&& r == Err::<(), InstructionException>(InstructionException::IntegerOverflow)
                        &&& forall|j: u32| after.regs[j] == before.regs[j]
                    } else {
                        &&& r is Ok
                        &&& self.rt != 0 && self.rt < 32 ==> after.regs[self.rt] == ((a as i32) + (self.immediate as i32)) as u32
                        &&& forall|j: u32| j != self.rt ==> after.regs[j] == before.regs[j]
                    }
                })
        &&& after.pc == before.pc
        &&& after.next_pc == before.next_pc
        &&& after.delay == before.delay
    }

    open spec fn ready(&self, pc: u32) -> bool {
        true
    }

    /// rt = rs + immediate, or an integer overflow exception with nothing written.
    fn execute(&self, cpu: &mut dyn CpuState) -> (r: InstructionResult)
        ensures
            ({
                let a = old(cpu).reg(self.rs);
                if add_overflows(a, self.immediate) {
                    &&& r == Err::<(), InstructionException>(InstructionException::IntegerOverflow)
                    &&& forall|j: u32| final(cpu).reg(j) == old(cpu).reg(j)
                } else {
                    &&& r is Ok
                    &&& self.rt != 0 && self.rt < 32 ==> final(cpu).reg(self.rt) == ((a as i32) + (self.immediate as i32)) as u32
                    &&& forall|j: u32| j != self.rt ==> final(cpu).reg(j) == old(cpu).reg(j)
                }
            }),
            final(cpu).pc() == old(cpu).pc(),
            final(cpu).next_pc() == old(cpu).next_pc(),
            final(cpu).delay() == old(cpu).delay(),
    {
        let a = cpu.get_reg(self.rs) as i32;
        let b = self.immediate as i32;
        match a.checked_add(b) {
            Some(result) => {
                cpu.set_reg(self.rt, result as u32);
                Ok(())
            },
            None => Err(InstructionException::IntegerOverflow),
        }
    }

    fn mnemonic(&self) -> (r: &'static str)
        ensures
            r@ == "ADDI"@,
    {
        "ADDI"
    }
}

/// AND: bitwise and.
pub struct And {
    pub rd: u32,
    pub rs: u32,
    pub rt: u32,
}

impl And {
    pub fn new(decoded: &DecodedInstruction) -> (r: Self)
        ensures
            r.rd == decoded.rd && r.rs == decoded.rs && r.rt == decoded.rt,
    {
        Self { rd: decoded.rd, rs: decoded.rs, rt: decoded.rt }
    }
}

impl Instruction for And {
    open spec fn built_from(&self, decoded: DecodedInstruction) -> bool {
        handler_of(decoded) == HandlerKind::And && self.rd == decoded.rd && self.rs == decoded.rs && self.rt == decoded.rt
    }

    open spec fn executes(&self, before: CpuView, after: CpuView, r: InstructionResult) -> bool {
        &&& r is Ok
        &&& ({
                    let a = before.regs[self.rs];
                    let b = before.regs[self.rt];
                    &&& self.rd != 0 && self.rd < 32 ==> after.regs[self.rd] == a & b
                    &&& forall|j: u32| j != self.rd ==> after.regs[j] == before.regs[j]
                })
        &&& after.pc == before.pc
        &&& after.next_pc == before.next_pc
        &&& after.delay == before.delay
    }

    open spec fn ready(&self, pc: u32) -> bool {
        true
    }

    /// Write the result to rd.
    fn execute(&self, cpu: &mut dyn CpuState) -> (r: InstructionResult)
        ensures
            r is Ok,
            ({
                let a = old(cpu).reg(self.rs);
                let b = old(cpu).reg(self.rt);
                &&& self.rd != 0 && self.rd < 32 ==> final(cpu).reg(self.rd) == a & b
                &&& forall|j: u32| j != self.rd ==> final(cpu).reg(j) == old(cpu).reg(j)
            }),
            final(cpu).pc() == old(cpu).pc(),
            final(cpu).next_pc() == old(cpu).next_pc(),
            final(cpu).delay() == old(cpu).delay(),
    {
        let a = cpu.get_reg(self.rs);
        let b = cpu.get_reg(self.rt);
        let result = a & b;
        cpu.set_reg(self.rd, result);
        Ok(())
    }

    fn mnemonic(&self) -> (r: &'static str)
        ensures
            r@ == "AND"@,
    {
        "AND"
    }
}

/// OR: bitwise or.
pub struct Or {
    pub rd: u32,
    pub rs: u32,
    pub rt: u32,
}

impl Or {
    pub fn new(decoded: &DecodedInstruction) -> (r: Self)
        ensures
            r.rd == decoded.rd && r.rs == decoded.rs && r.rt == decoded.rt,
    {
        Self { rd: decoded.rd, rs: decoded.rs, rt: decoded.rt }
    }
}

impl Instruction for Or {
    open spec fn built_from(&self, decoded: DecodedInstruction) -> bool {
        handler_of(decoded) == HandlerKind::Or && self.rd == decoded.rd && self.rs == decoded.rs && self.rt == decoded.rt
    }

    open spec fn executes(&self, before: CpuView, after: CpuView, r: InstructionResult) -> bool {
        &&& r is Ok
        &&& ({
                    let a = before.regs[self.rs];
                    let b = before.regs[self.rt];
                    &&& self.rd != 0 && self.rd < 32 ==> after.regs[self.rd] == a | b
                    &&& forall|j: u32| j != self.rd ==> after.regs[j] == before.regs[j]
                })
        &&& after.pc == before.pc
        &&& after.next_pc == before.next_pc
        &&& after.delay == before.delay
    }

    open spec fn ready(&self, pc: u32) -> bool {
        true
    }

    /// Write the result to rd.
    fn execute(&self, cpu: &mut dyn CpuState) -> (r: InstructionResult)
        ensures
            r is Ok,
            ({
                let a = old(cpu).reg(self.rs);
                let b = old(cpu).reg(self.rt);
                &&& self.rd != 0 && self.rd < 32 ==> final(cpu).reg(self.rd) == a | b
                &&& forall|j: u32| j != self.rd ==> final(cpu).reg(j) == old(cpu).reg(j)
            }),
            final(cpu).pc() == old(cpu).pc(),
            final(cpu).next_pc() == old(cpu).next_pc(),
            final(cpu).delay() == old(cpu).delay(),
    {
        let a = cpu.get_reg(self.rs);
        let b = cpu.get_reg(self.rt);
        let result = a | b;
        cpu.set_reg(self.rd, result);
        Ok(())
    }

    fn mnemonic(&self) -> (r: &'static str)
        ensures
            r@ == "OR"@,
    {
        "OR"
    }
}

/// BEQ: branch if equal.
pub struct Beq {
    pub rs: u32,
    pub rt: u32,
    pub offset: u32,
}

impl Beq {
    pub fn new(decoded: &DecodedInstruction) -> (r: Self)
        ensures
            r.rs == decoded.rs && r.rt == decoded.rt && r.offset == sext16(decoded.immediate) << 2u32,
    {
        Self { rs: decoded.rs, rt: decoded.rt, offset: decoded.sign_extend_immediate() << 2 }
    }
}

impl Instruction for Beq {
    open spec fn built_from(&self, decoded: DecodedInstruction) -> bool {
        handler_of(decoded) == HandlerKind::Beq && self.rs == decoded.rs && self.rt == decoded.rt && self.offset == sext16(decoded.immediate) << 2u32
    }

    open spec fn executes(&self, before: CpuView, after: CpuView, r: InstructionResult) -> bool {
        &&& r is Ok
        &&& ({
                    let a = before.regs[self.rs];
                    let b = before.regs[self.rt];
                    after.next_pc == (if a == b { before.pc.wrapping_add(self.offset) } else { before.next_pc })
                })
        &&& after.delay
        &&& forall|j: u32| after.regs[j] == before.regs[j]
        &&& after.pc == before.pc
    }

    open spec fn ready(&self, pc: u32) -> bool {
        true
    }

    /// When taken, the next PC becomes PC + offset; either way a delay slot follows.
    fn execute(&self, cpu: &mut dyn CpuState) -> (r: InstructionResult)
        ensures
            r is Ok,
            ({
                let a = old(cpu).reg(self.rs);
                let b = old(cpu).reg(self.rt);
                final(cpu).next_pc() == (if a == b { old(cpu).pc().wrapping_add(self.offset) } else { old(cpu).next_pc() })
            }),
            final(cpu).delay(),
            forall|j: u32| final(cpu).reg(j) == old(cpu).reg(j),
            final(cpu).pc() == old(cpu).pc(),
    {
        if cpu.get_reg(self.rs) == cpu.get_reg(self.rt) {
            let target = cpu.get_pc().wrapping_add(self.offset);
            cpu.set_next_pc(target);
        }
        cpu.set_delay_slot(true);
        Ok(())
    }

    fn mnemonic(&self) -> (r: &'static str)
        ensures
            r@ == "BEQ"@,
    {
        "BEQ"
    }
}

/// BNE: branch if not equal.
pub struct Bne {
    pub rs: u32,
    pub rt: u32,
    pub offset: u32,
}

impl Bne {
    pub fn new(decoded: &DecodedInstruction) -> (r: Self)
        ensures
            r.rs == decoded.rs && r.rt == decoded.rt && r.offset == sext16(decoded.immediate) << 2u32,
    {
        Self { rs: decoded.rs, rt: decoded.rt, offset: decoded.sign_extend_immediate() << 2 }
    }
}

impl Instruction for Bne {
    open spec fn built_from(&self, decoded: DecodedInstruction) -> bool {
        handler_of(decoded) == HandlerKind::Bne && self.rs == decoded.rs && self.rt == decoded.rt && self.offset == sext16(decoded.immediate) << 2u32
    }

    open spec fn executes(&self, before: CpuView, after: CpuView, r: InstructionResult) -> bool {
        &&& r is Ok
        &&& ({
                    let a = before.regs[self.rs];
                    let b = before.regs[self.rt];
                    after.next_pc == (if a != b { before.pc.wrapping_add(self.offset) } else { before.next_pc })
                })
        &&& after.delay
        &&& forall|j: u32| after.regs[j] == before.regs[j]
        &&& after.pc == before.pc
    }

    open spec fn ready(&self, pc: u32) -> bool {
        true
    }

    /// When taken, the next PC becomes PC + offset; either way a delay slot follows.
    fn execute(&self, cpu: &mut dyn CpuState) -> (r: InstructionResult)
        ensures
            r is Ok,
            ({
                let a = old(cpu).reg(self.rs);
                let b = old(cpu).reg(self.rt);
                final(cpu).next_pc() == (if a != b { old(cpu).pc().wrapping_add(self.offset) } else { old(cpu).next_pc() })
            }),
            final(cpu).delay(),
            forall|j: u32| final(cpu).reg(j) == old(cpu).reg(j),
            final(cpu).pc() == old(cpu).pc(),
    {
        if cpu.get_reg(self.rs) != cpu.get_reg(self.rt) {
            let target = cpu.get_pc().wrapping_add(self.offset);
            cpu.set_next_pc(target);
        }
        cpu.set_delay_slot(true);
        Ok(())
    }

    fn mnemonic(&self) -> (r: &'static str)
        ensures
            r@ == "BNE"@,
    {
        "BNE"
    }
}

/// The target of a J or JAL from `pc`: the PC's segment bits and the word target.
pub open spec fn jump_target(pc: u32, target: u32) -> u32 {
    (pc & 0xf0000000) | (target << 2u32)
}

/// J: jump within the current 256MB segment.
pub struct J {
    pub target: u32,
}

impl J {
    pub fn new(decoded: &DecodedInstruction) -> (r: Self)
        ensures
            r.target == decoded.target,
    {
        Self { target: decoded.target }
    }
}

impl Instruction for J {
    open spec fn built_from(&self, decoded: DecodedInstruction) -> bool {
        handler_of(decoded) == HandlerKind::J && self.target == decoded.target
    }

    open spec fn executes(&self, before: CpuView, after: CpuView, r: InstructionResult) -> bool {
        &&& r is Ok
        &&& after.next_pc == jump_target(before.pc, self.target)
        &&& after.delay
        &&& forall|j: u32| after.regs[j] == before.regs[j]
        &&& after.pc == before.pc
    }

    open spec fn ready(&self, pc: u32) -> bool {
        true
    }

    fn execute(&self, cpu: &mut dyn CpuState) -> (r: InstructionResult)
        ensures
            r is Ok,
            final(cpu).next_pc() == jump_target(old(cpu).pc(), self.target),
            final(cpu).delay(),
            forall|j: u32| final(cpu).reg(j) == old(cpu).reg(j),
            final(cpu).pc() == old(cpu).pc(),
    {
        let pc = cpu.get_pc();
        let target = (pc & PC_SEGMENT_MASK) | (self.target << 2);
        cpu.set_next_pc(target);
        cpu.set_delay_slot(true);
        Ok(())
    }

    fn mnemonic(&self) -> (r: &'static str)
        ensures
            r@ == "J"@,
    {
        "J"
    }
}

/// JAL: jump and put the return address (PC + 8) in $ra.
pub struct Jal {
    pub target: u32,
}

impl Jal {
    pub fn new(decoded: &DecodedInstruction) -> (r: Self)
        ensures
            r.target == decoded.target,
    {
        Self { target: decoded.target }
    }
}

impl Instruction for Jal {
    open spec fn built_from(&self, decoded: DecodedInstruction) -> bool {
        handler_of(decoded) == HandlerKind::Jal && self.target == decoded.target
    }

    open spec fn executes(&self, before: CpuView, after: CpuView, r: InstructionResult) -> bool {
        &&& r is Ok
        &&& after.regs[31] == before.pc + 8
        &&& forall|j: u32| j != 31 ==> after.regs[j] == before.regs[j]
        &&& after.next_pc == jump_target(before.pc, self.target)
        &&& after.delay
        &&& after.pc == before.pc
    }

    open spec fn ready(&self, pc: u32) -> bool {
        pc <= 0xfffffff7
    }

    fn execute(&self, cpu: &mut dyn CpuState) -> (r: InstructionResult)
        ensures
            r is Ok,
            final(cpu).reg(31) == old(cpu).pc() + 8,
            forall|j: u32| j != 31 ==> final(cpu).reg(j) == old(cpu).reg(j),
            final(cpu).next_pc() == jump_target(old(cpu).pc(), self.target),
            final(cpu).delay(),
            final(cpu).pc() == old(cpu).pc(),
    {
        let pc = cpu.get_pc();
        let target = (pc & PC_SEGMENT_MASK) | (self.target << 2);
        cpu.set_reg(31, pc + 8);
        cpu.set_next_pc(target);
        cpu.set_delay_slot(true);
        Ok(())
    }

    fn mnemonic(&self) -> (r: &'static str)
        ensures
            r@ == "JAL"@,
    {
        "JAL"
    }
}

/// JR: jump to the address in a register, which must be word aligned.
pub struct Jr {
    pub rs: u32,
}

impl Jr {
    pub fn new(decoded: &DecodedInstruction) -> (r: Self)
        ensures
            r.rs == decoded.rs,
    {
        Self { rs: decoded.rs }
    }
}

impl Instruction for Jr {
    open spec fn built_from(&self, decoded: DecodedInstruction) -> bool {
        handler_of(decoded) == HandlerKind::Jr && self.rs == decoded.rs
    }

    open spec fn executes(&self, before: CpuView, after: CpuView, r: InstructionResult) -> bool {
        &&& ({
                    let t = before.regs[self.rs];
                    if t & 3 != 0 {
                        r == Err::<(), InstructionException>(InstructionException::AddressError(t))
                            && after.next_pc == before.next_pc && after.delay == before.delay
                    } else {
                        r is Ok && after.next_pc == t && after.delay
                    }
                })
        &&& forall|j: u32| after.regs[j] == before.regs[j]
        &&& after.pc == before.pc
    }

    open spec fn ready(&self, pc: u32) -> bool {
        true
    }

    fn execute(&self, cpu: &mut dyn CpuState) -> (r: InstructionResult)
        ensures
            ({
                let t = old(cpu).reg(self.rs);
                if t & 3 != 0 {
                    r == Err::<(), InstructionException>(InstructionException::AddressError(t))
                        && final(cpu).next_pc() == old(cpu).next_pc() && final(cpu).delay() == old(cpu).delay()
                } else {
                    r is Ok && final(cpu).next_pc() == t && final(cpu).delay()
                }
            }),
            forall|j: u32| final(cpu).reg(j) == old(cpu).reg(j),
            final(cpu).pc() == old(cpu).pc(),
    {
        let target = cpu.get_reg(self.rs);
        if target & 0x3 != 0 {
            return Err(InstructionException::AddressError(target));
        }
        cpu.set_next_pc(target);
        cpu.set_delay_slot(true);
        Ok(())
    }

    fn mnemonic(&self) -> (r: &'static str)
        ensures
            r@ == "JR"@,
    {
        "JR"
    }
}

/// LW: load a word from rs + offset, which must be word aligned.
pub struct Lw {
    pub rt: u32,
    pub rs: u32,
    pub offset: u32,
}

impl Lw {
    pub fn new(decoded: &DecodedInstruction) -> (r: Self)
        ensures
            r.rt == decoded.rt && r.rs == decoded.rs && r.offset == sext16(decoded.immediate),
    {
        Self { rt: decoded.rt, rs: decoded.rs, offset: decoded.sign_extend_immediate() }
    }
}

impl Instruction for Lw {
    open spec fn built_from(&self, decoded: DecodedInstruction) -> bool {
        handler_of(decoded) == HandlerKind::Lw && self.rt == decoded.rt && self.rs == decoded.rs && self.offset == sext16(decoded.immediate)
    }

    open spec fn executes(&self, before: CpuView, after: CpuView, r: InstructionResult) -> bool {
        &&& ({
                    let addr = before.regs[self.rs].wrapping_add(self.offset);
                    if addr & 3 != 0 {
                        &&& r == Err::<(), InstructionException>(InstructionException::AddressError(addr))
                        &&& forall|j: u32| after.regs[j] == before.regs[j]
                    } else {
                        match before.reads[(addr, MemorySize::Word)] {
                            Ok(v) => {
                                &&& r is Ok
                                &&& self.rt != 0 && self.rt < 32 ==> after.regs[self.rt] == v
                                &&& forall|j: u32| j != self.rt ==> after.regs[j] == before.regs[j]
                            },
                            Err(e) => {
                                &&& r == Err::<(), InstructionException>(e)
                                &&& forall|j: u32| after.regs[j] == before.regs[j]
                            },
                        }
                    }
                })
        &&& after.pc == before.pc
        &&& after.next_pc == before.next_pc
        &&& after.delay == before.delay
    }

    open spec fn ready(&self, pc: u32) -> bool {
        true
    }

    fn execute(&self, cpu: &mut dyn CpuState) -> (r: InstructionResult)
        ensures
            ({
                let addr = old(cpu).reg(self.rs).wrapping_add(self.offset);
                if addr & 3 != 0 {
                    &&& r == Err::<(), InstructionException>(InstructionException::AddressError(addr))
                    &&& forall|j: u32| final(cpu).reg(j) == old(cpu).reg(j)
                } else {
                    match old(cpu).read_result(addr, MemorySize::Word) {
                        Ok(v) => {
                            &&& r is Ok
                            &&& self.rt != 0 && self.rt < 32 ==> final(cpu).reg(self.rt) == v
                            &&& forall|j: u32| j != self.rt ==> final(cpu).reg(j) == old(cpu).reg(j)
                        },
                        Err(e) => {
                            &&& r == Err::<(), InstructionException>(e)
                            &&& forall|j: u32| final(cpu).reg(j) == old(cpu).reg(j)
                        },
                    }
                }
            }),
            final(cpu).pc() == old(cpu).pc(),
            final(cpu).next_pc() == old(cpu).next_pc(),
            final(cpu).delay() == old(cpu).delay(),
    {
        let addr = cpu.get_reg(self.rs).wrapping_add(self.offset);
        if addr & 0x3 != 0 {
            return Err(InstructionException::AddressError(addr));
        }
        let value = cpu.read_memory(addr, MemorySize::Word)?;
        cpu.set_reg(self.rt, value);
        Ok(())
    }

    fn mnemonic(&self) -> (r: &'static str)
        ensures
            r@ == "LW"@,
    {
        "LW"
    }
}

/// SW: store rt to rs + offset, which must be word aligned.
pub struct Sw {
    pub rt: u32,
    pub rs: u32,
    pub offset: u32,
}

impl Sw {
    pub fn new(decoded: &DecodedInstruction) -> (r: Self)
        ensures
            r.rt == decoded.rt && r.rs == decoded.rs && r.offset == sext16(decoded.immediate),
    {
        Self { rt: decoded.rt, rs: decoded.rs, offset: decoded.sign_extend_immediate() }
    }
}

impl Instruction for Sw {
    open spec fn built_from(&self, decoded: DecodedInstruction) -> bool {
        handler_of(decoded) == HandlerKind::Sw && self.rt == decoded.rt && self.rs == decoded.rs && self.offset == sext16(decoded.immediate)
    }

    open spec fn executes(&self, before: CpuView, after: CpuView, r: InstructionResult) -> bool {
        &&& ({
                    let addr = before.regs[self.rs].wrapping_add(self.offset);
                    if addr & 3 != 0 {
                        r == Err::<(), InstructionException>(InstructionException::AddressError(addr))
                    } else {
                        r == before.writes[(addr, before.regs[self.rt], MemorySize::Word)]
                    }
                })
    }

    open spec fn ready(&self, pc: u32) -> bool {
        true
    }

    fn execute(&self, cpu: &mut dyn CpuState) -> (r: InstructionResult)
        ensures
            ({
                let addr = old(cpu).reg(self.rs).wrapping_add(self.offset);
                if addr & 3 != 0 {
                    r == Err::<(), InstructionException>(InstructionException::AddressError(addr))
                } else {
                    r == old(cpu).write_result(addr, old(cpu).reg(self.rt), MemorySize::Word)
                }
            }),
    {
        let addr = cpu.get_reg(self.rs).wrapping_add(self.offset);
        if addr & 0x3 != 0 {
            return Err(InstructionException::AddressError(addr));
        }
        let value = cpu.get_reg(self.rt);
        cpu.write_memory(addr, value, MemorySize::Word)?;
        Ok(())
    }

    fn mnemonic(&self) -> (r: &'static str)
        ensures
            r@ == "SW"@,
    {
        "SW"
    }
}

/// LB: load a sign-extended byte from rs + offset.
pub struct Lb {
    pub rt: u32,
    pub rs: u32,
    pub offset: u32,
}

impl Lb {
    pub fn new(decoded: &DecodedInstruction) -> (r: Self)
        ensures
            r.rt == decoded.rt && r.rs == decoded.rs && r.offset == sext16(decoded.immediate),
    {
        Self { rt: decoded.rt, rs: decoded.rs, offset: decoded.sign_extend_immediate() }
    }
}

impl Instruction for Lb {
    open spec fn built_from(&self, decoded: DecodedInstruction) -> bool {
        handler_of(decoded) == HandlerKind::Lb && self.rt == decoded.rt && self.rs == decoded.rs && self.offset == sext16(decoded.immediate)
    }

    open spec fn executes(&self, before: CpuView, after: CpuView, r: InstructionResult) -> bool {
        &&& ({
                    let addr = before.regs[self.rs].wrapping_add(self.offset);
                    match before.reads[(addr, MemorySize::Byte)] {
                        Ok(v) => {
                            &&& r is Ok
                            &&& self.rt != 0 && self.rt < 32 ==> after.regs[self.rt] == (((v as i8) as i32) as u32)
                            &&& forall|j: u32| j != self.rt ==> after.regs[j] == before.regs[j]
                        },
                        Err(e) => {
                            &&& r == Err::<(), InstructionException>(e)
                            &&& forall|j: u32| after.regs[j] == before.regs[j]
                        },
                    }
                })
        &&& after.pc == before.pc
        &&& after.next_pc == before.next_pc
        &&& after.delay == before.delay
    }

    open spec fn ready(&self, pc: u32) -> bool {
        true
    }

    fn execute(&self, cpu: &mut dyn CpuState) -> (r: InstructionResult)
        ensures
            ({
                let addr = old(cpu).reg(self.rs).wrapping_add(self.offset);
                match old(cpu).read_result(addr, MemorySize::Byte) {
                    Ok(v) => {
                        &&& r is Ok
                        &&& self.rt != 0 && self.rt < 32 ==> final(cpu).reg(self.rt) == (((v as i8) as i32) as u32)
                        &&& forall|j: u32| j != self.rt ==> final(cpu).reg(j) == old(cpu).reg(j)
                    },
                    Err(e) => {
                        &&& r == Err::<(), InstructionException>(e)
                        &&& forall|j: u32| final(cpu).reg(j) == old(cpu).reg(j)
                    },
                }
            }),
            final(cpu).pc() == old(cpu).pc(),
            final(cpu).next_pc() == old(cpu).next_pc(),
            final(cpu).delay() == old(cpu).delay(),
    {
        let addr = cpu.get_reg(self.rs).wrapping_add(self.offset);
        let value = cpu.read_memory(addr, MemorySize::Byte)? as i8 as i32 as u32;
        cpu.set_reg(self.rt, value);
        Ok(())
    }

    fn mnemonic(&self) -> (r: &'static str)
        ensures
            r@ == "LB"@,
    {
        "LB"
    }
}

/// SLL: shift left logical.
pub struct Sll {
    pub rd: u32,
    pub rt: u32,
    pub shamt: u32,
}

impl Sll {
    pub fn new(decoded: &DecodedInstruction) -> (r: Self)
        ensures
            r.rd == decoded.rd && r.rt == decoded.rt && r.shamt == decoded.shamt,
    {
        Self { rd: decoded.rd, rt: decoded.rt, shamt: decoded.shamt }
    }
}

impl Instruction for Sll {
    open spec fn built_from(&self, decoded: DecodedInstruction) -> bool {
        handler_of(decoded) == HandlerKind::Sll && self.rd == decoded.rd && self.rt == decoded.rt && self.shamt == decoded.shamt
    }

    open spec fn executes(&self, before: CpuView, after: CpuView, r: InstructionResult) -> bool {
        &&& r is Ok
        &&& self.rd != 0 && self.rd < 32 ==> after.regs[self.rd] == before.regs[self.rt] << self.shamt
        &&& forall|j: u32| j != self.rd ==> after.regs[j] == before.regs[j]
        &&& after.pc == before.pc
        &&& after.next_pc == before.next_pc
        &&& after.delay == before.delay
    }

    open spec fn ready(&self, pc: u32) -> bool {
        self.shamt < 32
    }

    fn execute(&self, cpu: &mut dyn CpuState) -> (r: InstructionResult)
        ensures
            r is Ok,
            self.rd != 0 && self.rd < 32 ==> final(cpu).reg(self.rd) == old(cpu).reg(self.rt) << self.shamt,
            forall|j: u32| j != self.rd ==> final(cpu).reg(j) == old(cpu).reg(j),
            final(cpu).pc() == old(cpu).pc(),
            final(cpu).next_pc() == old(cpu).next_pc(),
            final(cpu).delay() == old(cpu).delay(),
    {
        let result = cpu.get_reg(self.rt) << self.shamt;
        cpu.set_reg(self.rd, result);
        Ok(())
    }

    fn mnemonic(&self) -> (r: &'static str)
        ensures
            r@ == "SLL"@,
    {
        "SLL"
    }
}

/// SRL: shift right logical.
pub struct Srl {
    pub rd: u32,
    pub rt: u32,
    pub shamt: u32,
}

impl Srl {
    pub fn new(decoded: &DecodedInstruction) -> (r: Self)
        ensures
            r.rd == decoded.rd && r.rt == decoded.rt && r.shamt == decoded.shamt,
    {
        Self { rd: decoded.rd, rt: decoded.rt, shamt: decoded.shamt }
    }
}

impl Instruction for Srl {
    open spec fn built_from(&self, decoded: DecodedInstruction) -> bool {
        handler_of(decoded) == HandlerKind::Srl && self.rd == decoded.rd && self.rt == decoded.rt && self.shamt == decoded.shamt
    }

    open spec fn executes(&self, before: CpuView, after: CpuView, r: InstructionResult) -> bool {
        &&& r is Ok
        &&& self.rd != 0 && self.rd < 32 ==> after.regs[self.rd] == before.regs[self.rt] >> self.shamt
        &&& forall|j: u32| j != self.rd ==> after.regs[j] == before.regs[j]
        &&& after.pc == before.pc
        &&& after.next_pc == before.next_pc
        &&& after.delay == before.delay
    }

    open spec fn ready(&self, pc: u32) -> bool {
        self.shamt < 32
    }

    fn execute(&self, cpu: &mut dyn CpuState) -> (r: InstructionResult)
        ensures
            r is Ok,
            self.rd != 0 && self.rd < 32 ==> final(cpu).reg(self.rd) == old(cpu).reg(self.rt) >> self.shamt,
            forall|j: u32| j != self.rd ==> final(cpu).reg(j) == old(cpu).reg(j),
            final(cpu).pc() == old(cpu).pc(),
            final(cpu).next_pc() == old(cpu).next_pc(),
            final(cpu).delay() == old(cpu).delay(),
    {
        let result = cpu.get_reg(self.rt) >> self.shamt;
        cpu.set_reg(self.rd, result);
        Ok(())
    }

    fn mnemonic(&self) -> (r: &'static str)
        ensures
            r@ == "SRL"@,
    {
        "SRL"
    }
}

/// SYSCALL: system call exception.
pub struct Syscall {
    pub code: u32,
}

impl Syscall {
    pub fn new(decoded: &DecodedInstruction) -> (r: Self)
        ensures
            r.code == (decoded.raw >> 6u32) & 0xfffff,
    {
        Self { code: (decoded.raw >> 6) & 0xfffff }
    }
}

impl Instruction for Syscall {
    open spec fn built_from(&self, decoded: DecodedInstruction) -> bool {
        handler_of(decoded) == HandlerKind::Syscall && self.code == (decoded.raw >> 6u32) & 0xfffff
    }

    open spec fn executes(&self, before: CpuView, after: CpuView, r: InstructionResult) -> bool {
        &&& r == Err::<(), InstructionException>(InstructionException::Syscall)
        &&& forall|j: u32| after.regs[j] == before.regs[j]
        &&& after.pc == before.pc
        &&& after.next_pc == before.next_pc
        &&& after.delay == before.delay
    }

    open spec fn ready(&self, pc: u32) -> bool {
        true
    }

    /// Raise the exception; the CPU state is left alone.
    fn execute(&self, cpu: &mut dyn CpuState) -> (r: InstructionResult)
        ensures
            r == Err::<(), InstructionException>(InstructionException::Syscall),
            forall|j: u32| final(cpu).reg(j) == old(cpu).reg(j),
            final(cpu).pc() == old(cpu).pc(),
            final(cpu).next_pc() == old(cpu).next_pc(),
            final(cpu).delay() == old(cpu).delay(),
    {
        Err(InstructionException::Syscall)
    }

    fn mnemonic(&self) -> (r: &'static str)
        ensures
            r@ == "SYSCALL"@,
    {
        "SYSCALL"
    }
}

/// BREAK: breakpoint exception.
pub struct Break {
    pub code: u32,
}

impl Break {
    pub fn new(decoded: &DecodedInstruction) -> (r: Self)
        ensures
            r.code == (decoded.raw >> 6u32) & 0xfffff,
    {
        Self { code: (decoded.raw >> 6) & 0xfffff }
    }
}

impl Instruction for Break {
    open spec fn built_from(&self, decoded: DecodedInstruction) -> bool {
        handler_of(decoded) == HandlerKind::Break && self.code == (decoded.raw >> 6u32) & 0xfffff
    }

    open spec fn executes(&self, before: CpuView, after: CpuView, r: InstructionResult) -> bool {
        &&& r == Err::<(), InstructionException>(InstructionException::Break)
        &&& forall|j: u32| after.regs[j] == before.regs[j]
        &&& after.pc == before.pc
        &&& after.next_pc == before.next_pc
        &&& after.delay == before.delay
    }

    open spec fn ready(&self, pc: u32) -> bool {
        true
    }

    /// Raise the exception; the CPU state is left alone.
    fn execute(&self, cpu: &mut dyn CpuState) -> (r: InstructionResult)
        ensures
            r == Err::<(), InstructionException>(InstructionException::Break),
            forall|j: u32| final(cpu).reg(j) == old(cpu).reg(j),
            final(cpu).pc() == old(cpu).pc(),
            final(cpu).next_pc() == old(cpu).next_pc(),
            final(cpu).delay() == old(cpu).delay(),
    {
        Err(InstructionException::Break)
    }

    fn mnemonic(&self) -> (r: &'static str)
        ensures
            r@ == "BREAK"@,
    {
        "BREAK"
    }
}

/// An instruction with no handler: executing it raises a reserved instruction exception.
pub struct UnknownInstruction {
    pub raw: u32,
}

impl UnknownInstruction {
    pub fn new(raw: u32) -> (r: Self)
        ensures
            r.raw == raw,
    {
        Self { raw }
    }
}

impl Instruction for UnknownInstruction {
    open spec fn built_from(&self, decoded: DecodedInstruction) -> bool {
        handler_of(decoded) == HandlerKind::Unknown && self.raw == decoded.raw
    }

    open spec fn executes(&self, before: CpuView, after: CpuView, r: InstructionResult) -> bool {
        &&& r == Err::<(), InstructionException>(InstructionException::ReservedInstruction)
        &&& forall|j: u32| after.regs[j] == before.regs[j]
        &&& after.pc == before.pc
        &&& after.next_pc == before.next_pc
        &&& after.delay == before.delay
    }

    open spec fn ready(&self, pc: u32) -> bool {
        true
    }

    fn execute(&self, cpu: &mut dyn CpuState) -> (r: InstructionResult)
        ensures
            r == Err::<(), InstructionException>(InstructionException::ReservedInstruction),
            forall|j: u32| final(cpu).reg(j) == old(cpu).reg(j),
            final(cpu).pc() == old(cpu).pc(),
            final(cpu).next_pc() == old(cpu).next_pc(),
            final(cpu).delay() == old(cpu).delay(),
    {
        Err(InstructionException::ReservedInstruction)
    }

    fn mnemonic(&self) -> (r: &'static str)
        ensures
            r@ == "???"@,
    {
        "???"
    }
}

/// The handler chosen for a decoded instruction.
#[derive(Debug, Clone, Copy, PartialEq, Eq, Structural)]
pub enum HandlerKind {
    Sll, Srl, Jr, Syscall, Break, Add, Addu, And, Or, J, Jal, Beq, Bne, Addi, Lb, Lw, Sw, Unknown,
}

/// The handler for the decoded instruction `d`.
pub open spec fn handler_of(d: DecodedInstruction) -> HandlerKind {
    if d.opcode == 0 {
        if d.funct == 0x00 { HandlerKind::Sll }
        else if d.funct == 0x02 { HandlerKind::Srl }
        else if d.funct == 0x08 { HandlerKind::Jr }
        else if d.funct == 0x0c { HandlerKind::Syscall }
        else if d.funct == 0x0d { HandlerKind::Break }
        else if d.funct == 0x20 { HandlerKind::Add }
        else if d.funct == 0x21 { HandlerKind::Addu }
        else if d.funct == 0x24 { HandlerKind::And }
        else if d.funct == 0x25 { HandlerKind::Or }
        else { HandlerKind::Unknown }
    } else if d.opcode == 0x02 { HandlerKind::J }
    else if d.opcode == 0x03 { HandlerKind::Jal }
    else if d.opcode == 0x04 { HandlerKind::Beq }
    else if d.opcode == 0x05 { HandlerKind::Bne }
    else if d.opcode == 0x08 { HandlerKind::Addi }
    else if d.opcode == 0x20 { HandlerKind::Lb }
    else if d.opcode == 0x23 { HandlerKind::Lw }
    else if d.opcode == 0x2b { HandlerKind::Sw }
    else { HandlerKind::Unknown }
}

/// What executing the instruction `d` does: the effect of the handler that `d` selects,
/// built from its fields.
pub open spec fn decoded_executes(d: DecodedInstruction, before: CpuView, after: CpuView, r: InstructionResult) -> bool {
    match handler_of(d) {
        HandlerKind::Add => (Add { rd: d.rd, rs: d.rs, rt: d.rt }).executes(before, after, r),
        HandlerKind::Addu => (Addu { rd: d.rd, rs: d.rs, rt: d.rt }).executes(before, after, r),
        HandlerKind::Addi => (Addi { rt: d.rt, rs: d.rs, immediate: sext16(d.immediate) }).executes(before, after, r),
        HandlerKind::And => (And { rd: d.rd, rs: d.rs, rt: d.rt }).executes(before, after, r),
        HandlerKind::Or => (Or { rd: d.rd, rs: d.rs, rt: d.rt }).executes(before, after, r),
        HandlerKind::Beq => (Beq { rs: d.rs, rt: d.rt, offset: sext16(d.immediate) << 2u32 }).executes(before, after, r),
        HandlerKind::Bne => (Bne { rs: d.rs, rt: d.rt, offset: sext16(d.immediate) << 2u32 }).executes(before, after, r),
        HandlerKind::J => (J { target: d.target }).executes(before, after, r),
        HandlerKind::Jal => (Jal { target: d.target }).executes(before, after, r),
        HandlerKind::Jr => (Jr { rs: d.rs }).executes(before, after, r),
        HandlerKind::Lw => (Lw { rt: d.rt, rs: d.rs, offset: sext16(d.immediate) }).executes(before, after, r),
        HandlerKind::Sw => (Sw { rt: d.rt, rs: d.rs, offset: sext16(d.immediate) }).executes(before, after, r),
        HandlerKind::Lb => (Lb { rt: d.rt, rs: d.rs, offset: sext16(d.immediate) }).executes(before, after, r),
        HandlerKind::Sll => (Sll { rd: d.rd, rt: d.rt, shamt: d.shamt }).executes(before, after, r),
        HandlerKind::Srl => (Srl { rd: d.rd, rt: d.rt, shamt: d.shamt }).executes(before, after, r),
        HandlerKind::Syscall => (Syscall { code: (d.raw >> 6u32) & 0xfffff }).executes(before, after, r),
        HandlerKind::Break => (Break { code: (d.raw >> 6u32) & 0xfffff }).executes(before, after, r),
        HandlerKind::Unknown => (UnknownInstruction { raw: d.raw }).executes(before, after, r),
    }
}

/// Whether the handler that `d` selects can execute at `pc` without a machine fault: a
/// jump-and-link needs room for its return address, and a shift needs an amount below
/// 32.
pub open spec fn handler_ready(d: DecodedInstruction, pc: u32) -> bool {
    match handler_of(d) {
        HandlerKind::Jal => pc <= 0xfffffff7,
        HandlerKind::Sll | HandlerKind::Srl => d.shamt < 32,
        _ => true,
    }
}

/// A boxed handler, as the factory hands it out; its `execute` is reached through the
/// box.
pub struct InstructionHandler(pub Box<dyn Instruction>);

impl InstructionHandler {
    /// The mnemonic.
    pub fn mnemonic(&self) -> &'static str {
        self.0.mnemonic()
    }

    /// The disassembly.
    pub fn disassemble(&self) -> String {
        self.0.disassemble()
    }
}

/// Turns decoded instructions into handlers.
pub struct InstructionFactory;

impl InstructionFactory {
    /// Which handler `create` picks for `decoded`.
    pub fn kind(decoded: &DecodedInstruction) -> (r: HandlerKind)
        ensures
            r == handler_of(*decoded),
    {
        if decoded.opcode == 0x00 {
            Self::kind_special(decoded)
        } else if decoded.opcode == 0x02 { HandlerKind::J }
        else if decoded.opcode == 0x03 { HandlerKind::Jal }
        else if decoded.opcode == 0x04 { HandlerKind::Beq }
        else if decoded.opcode == 0x05 { HandlerKind::Bne }
        else if decoded.opcode == 0x08 { HandlerKind::Addi }
        else if decoded.opcode == 0x20 { HandlerKind::Lb }
        else if decoded.opcode == 0x23 { HandlerKind::Lw }
        else if decoded.opcode == 0x2b { HandlerKind::Sw }
        else { HandlerKind::Unknown }
    }

    fn kind_special(decoded: &DecodedInstruction) -> (r: HandlerKind)
        requires
            decoded.opcode == 0,
        ensures
            r == handler_of(*decoded),
    {
        if decoded.funct == 0x00 { HandlerKind::Sll }
        else if decoded.funct == 0x02 { HandlerKind::Srl }
        else if decoded.funct == 0x08 { HandlerKind::Jr }
        else if decoded.funct == 0x0c { HandlerKind::Syscall }
        else if decoded.funct == 0x0d { HandlerKind::Break }
        else if decoded.funct == 0x20 { HandlerKind::Add }
        else if decoded.funct == 0x21 { HandlerKind::Addu }
        else if decoded.funct == 0x24 { HandlerKind::And }
        else if decoded.funct == 0x25 { HandlerKind::Or }
        else { HandlerKind::Unknown }
    }

    /// The handler for a decoded instruction; opcodes and functions without one get the
    /// reserved-instruction handler.
    pub fn create(decoded: &DecodedInstruction) -> (r: InstructionHandler)
        ensures
            r.0.built_from(*decoded),
            forall|pc: u32| #[trigger] r.0.ready(pc) == handler_ready(*decoded, pc),
            forall|before: CpuView, after: CpuView, res: InstructionResult|
                #[trigger] r.0.executes(before, after, res) == decoded_executes(*decoded, before, after, res),
    {
        match Self::kind(decoded) {
            HandlerKind::Sll => InstructionHandler(Box::new(Sll::new(decoded))),
            HandlerKind::Srl => InstructionHandler(Box::new(Srl::new(decoded))),
            HandlerKind::Jr => InstructionHandler(Box::new(Jr::new(decoded))),
            HandlerKind::Syscall => InstructionHandler(Box::new(Syscall::new(decoded))),
            HandlerKind::Break => InstructionHandler(Box::new(Break::new(decoded))),
            HandlerKind::Add => InstructionHandler(Box::new(Add::new(decoded))),
            HandlerKind::Addu => InstructionHandler(Box::new(Addu::new(decoded))),
            HandlerKind::And => InstructionHandler(Box::new(And::new(decoded))),
            HandlerKind::Or => InstructionHandler(Box::new(Or::new(decoded))),
            HandlerKind::J => InstructionHandler(Box::new(J::new(decoded))),
            HandlerKind::Jal => InstructionHandler(Box::new(Jal::new(decoded))),
            HandlerKind::Beq => InstructionHandler(Box::new(Beq::new(decoded))),
            HandlerKind::Bne => InstructionHandler(Box::new(Bne::new(decoded))),
            HandlerKind::Addi => InstructionHandler(Box::new(Addi::new(decoded))),
            HandlerKind::Lb => InstructionHandler(Box::new(Lb::new(decoded))),
            HandlerKind::Lw => InstructionHandler(Box::new(Lw::new(decoded))),
            HandlerKind::Sw => InstructionHandler(Box::new(Sw::new(decoded))),
            HandlerKind::Unknown => InstructionHandler(Box::new(UnknownInstruction::new(decoded.raw))),
        }
    }
}

} // verus!
