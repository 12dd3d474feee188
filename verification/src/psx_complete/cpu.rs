//! The MIPS R3000A CPU: instruction decoding and execution.

use vstd::prelude::*;
use super::icache::{ICache, cache_lookup, is_cacheable, line_of, line_stored};
use super::cop0::{Exception, exception_vector, status_after_exception, cause_after_exception, cop0_written, status_after_rfe};
use super::Psx;
use crate::error::{PsxError, Result};

verus! {

/// A decoded instruction with its operand fields.
#[derive(Debug, Clone, Copy, PartialEq, Eq, Structural)]
pub enum Instruction {
    Sll(u8, u8, u8),
    Srl(u8, u8, u8),
    Sra(u8, u8, u8),
    Sllv(u8, u8, u8),
    Srlv(u8, u8, u8),
    Srav(u8, u8, u8),
    Jr(u8),
    Jalr(u8, u8),
    Syscall,
    Break,
    Mfhi(u8),
    Mthi(u8),
    Mflo(u8),
    Mtlo(u8),
    Mult(u8, u8),
    Multu(u8, u8),
    Div(u8, u8),
    Divu(u8, u8),
    Add(u8, u8, u8),
    Addu(u8, u8, u8),
    Sub(u8, u8, u8),
    Subu(u8, u8, u8),
    And(u8, u8, u8),
    Or(u8, u8, u8),
    Xor(u8, u8, u8),
    Nor(u8, u8, u8),
    Slt(u8, u8, u8),
    Sltu(u8, u8, u8),
    Addi(u8, u8, i16),
    Addiu(u8, u8, i16),
    Slti(u8, u8, i16),
    Sltiu(u8, u8, i16),
    Andi(u8, u8, u16),
    Ori(u8, u8, u16),
    Xori(u8, u8, u16),
    Lui(u8, u16),
    Beq(u8, u8, i16),
    Bne(u8, u8, i16),
    Blez(u8, i16),
    Bgtz(u8, i16),
    Bltz(u8, i16),
    Bgez(u8, i16),
    Bltzal(u8, i16),
    Bgezal(u8, i16),
    J(u32),
    Jal(u32),
    Lb(u8, u8, i16),
    Lh(u8, u8, i16),
    Lwl(u8, u8, i16),
    Lw(u8, u8, i16),
    Lbu(u8, u8, i16),
    Lhu(u8, u8, i16),
    Lwr(u8, u8, i16),
    Sb(u8, u8, i16),
    Sh(u8, u8, i16),
    Swl(u8, u8, i16),
    Sw(u8, u8, i16),
    Swr(u8, u8, i16),
    Mfc0(u8, u8),
    Mtc0(u8, u8),
    Mfc2(u8, u8),
    Mtc2(u8, u8),
    Cfc2(u8, u8),
    Ctc2(u8, u8),
    Cop2(u32),
    Rfe,
    Invalid(u32),
}

/// The CPU registers and pipeline state.
pub struct Cpu {
    pub regs: [u32; 32],
    pub pc: u32,
    pub next_pc: u32,
    pub current_pc: u32,
    pub hi: u32,
    pub lo: u32,
    pub load_delay: Option<(u8, u32)>,
    pub branch_delay: bool,
    pub in_delay_slot: bool,
    pub icache: ICache,
}

/// Register 0 always reads as zero.
pub open spec fn with_reg(regs: Seq<u32>, index: u8, val: u32) -> Seq<u32> {
    if index == 0 {
        regs
    } else {
        regs.update(index as int, val)
    }
}

impl Cpu {
    /// The CPU at power-on: all registers zero, PC at the BIOS entry point.
    pub fn new() -> (r: Self)
        ensures
            r.regs@ == Seq::new(32, |i: int| 0u32),
            r.pc == 0xbfc00000,
            r.next_pc == 0xbfc00004,
            r.current_pc == 0xbfc00000,
            r.hi == 0 && r.lo == 0,
            r.load_delay.is_none(),
            !r.branch_delay && !r.in_delay_slot,
    {
        let c = Cpu {
            regs: [0; 32],
            pc: 0xbfc00000,
            next_pc: 0xbfc00004,
            current_pc: 0xbfc00000,
            hi: 0,
            lo: 0,
            load_delay: None,
            branch_delay: false,
            in_delay_slot: false,
            icache: ICache::new(),
        };
        assert(c.regs@ =~= Seq::new(32, |i: int| 0u32));
        c
    }

    /// Back to the power-on state; the instruction cache is invalidated.
    pub fn reset(&mut self)
        ensures
            final(self).regs@ == Seq::new(32, |i: int| 0u32),
            final(self).pc == 0xbfc00000,
            final(self).next_pc == 0xbfc00004,
            final(self).current_pc == 0xbfc00000,
            final(self).hi == 0 && final(self).lo == 0,
            final(self).load_delay.is_none(),
            !final(self).branch_delay && !final(self).in_delay_slot,
            forall|i: int| 0 <= i < 256 ==> !(#[trigger] final(self).icache.lines@[i]).valid,
    {
        self.regs = [0; 32];
        self.pc = 0xbfc00000;
        self.next_pc = 0xbfc00004;
        self.current_pc = 0xbfc00000;
        self.hi = 0;
        self.lo = 0;
        self.load_delay = None;
        self.branch_delay = false;
        self.in_delay_slot = false;
        self.icache.invalidate();
        assert(self.regs@ =~= Seq::new(32, |i: int| 0u32));
    }

    /// Read general purpose register `index`.
    fn reg(&self, index: u8) -> (r: u32)
        requires
            index < 32,
        ensures
            r == self.regs@[index as int],
    {
        self.regs[index as usize]
    }

    /// Write general purpose register `index`; writes to register 0 are dropped.
    fn set_reg(&mut self, index: u8, val: u32)
        requires
            index < 32,
        ensures
            final(self).regs@ == with_reg(old(self).regs@, index, val),
            *final(self) == (Cpu { regs: final(self).regs, ..*old(self) }),
    {
        if index != 0 {
            self.regs.set(index as usize, val);
        }
    }
}

/// Primary opcode field (bits 31:26).
pub open spec fn op_field(i: u32) -> u32 { (i >> 26u32) & 0x3f }
/// `rs` field (bits 25:21).
pub open spec fn rs_field(i: u32) -> u8 { ((i >> 21u32) & 0x1f) as u8 }
/// `rt` field (bits 20:16).
pub open spec fn rt_field(i: u32) -> u8 { ((i >> 16u32) & 0x1f) as u8 }
/// `rd` field (bits 15:11).
pub open spec fn rd_field(i: u32) -> u8 { ((i >> 11u32) & 0x1f) as u8 }
/// Shift amount field (bits 10:6).
pub open spec fn sa_field(i: u32) -> u8 { ((i >> 6u32) & 0x1f) as u8 }
/// Function field (bits 5:0).
pub open spec fn funct_field(i: u32) -> u8 { (i & 0x3f) as u8 }
/// Signed immediate (bits 15:0).
pub open spec fn simm_field(i: u32) -> i16 { (i & 0xffff) as i16 }
/// Unsigned immediate (bits 15:0).
pub open spec fn uimm_field(i: u32) -> u16 { (i & 0xffff) as u16 }
/// Jump target (bits 25:0).
pub open spec fn target_field(i: u32) -> u32 { i & 0x3ffffff }

/// The instruction an encoded word stands for.
pub open spec fn decoded(i: u32) -> Instruction {
    let rs = rs_field(i);
    let rt = rt_field(i);
    let rd = rd_field(i);
    let sa = sa_field(i);
    let imm = simm_field(i);
    let uimm = uimm_field(i);
    let op = op_field(i);
    if op == 0x00 {
        let f = funct_field(i);
        if f == 0x00 { Instruction::Sll(rd, rt, sa) }
        else if f == 0x02 { Instruction::Srl(rd, rt, sa) }
        else if f == 0x03 { Instruction::Sra(rd, rt, sa) }
        else if f == 0x04 { Instruction::Sllv(rd, rt, rs) }
        else if f == 0x06 { Instruction::Srlv(rd, rt, rs) }
        else if f == 0x07 { Instruction::Srav(rd, rt, rs) }
        else if f == 0x08 { Instruction::Jr(rs) }
        else if f == 0x09 { Instruction::Jalr(rd, rs) }
        else if f == 0x0c { Instruction::Syscall }
        else if f == 0x0d { Instruction::Break }
        else if f == 0x10 { Instruction::Mfhi(rd) }
        else if f == 0x11 { Instruction::Mthi(rs) }
        else if f == 0x12 { Instruction::Mflo(rd) }
        else if f == 0x13 { Instruction::Mtlo(rs) }
        else if f == 0x18 { Instruction::Mult(rs, rt) }
        else if f == 0x19 { Instruction::Multu(rs, rt) }
        else if f == 0x1a { Instruction::Div(rs, rt) }
        else if f == 0x1b { Instruction::Divu(rs, rt) }
        else if f == 0x20 { Instruction::Add(rd, rs, rt) }
        else if f == 0x21 { Instruction::Addu(rd, rs, rt) }
        else if f == 0x22 { Instruction::Sub(rd, rs, rt) }
        else if f == 0x23 { Instruction::Subu(rd, rs, rt) }
        else if f == 0x24 { Instruction::And(rd, rs, rt) }
        else if f == 0x25 { Instruction::Or(rd, rs, rt) }
        else if f == 0x26 { Instruction::Xor(rd, rs, rt) }
        else if f == 0x27 { Instruction::Nor(rd, rs, rt) }
        else if f == 0x2a { Instruction::Slt(rd, rs, rt) }
        else if f == 0x2b { Instruction::Sltu(rd, rs, rt) }
        else { Instruction::Invalid(i) }
    } else if op == 0x01 {
        if rt == 0x00 { Instruction::Bltz(rs, imm) }
        else if rt == 0x01 { Instruction::Bgez(rs, imm) }
        else if rt == 0x10 { Instruction::Bltzal(rs, imm) }
        else if rt == 0x11 { Instruction::Bgezal(rs, imm) }
        else { Instruction::Invalid(i) }
    } else if op == 0x02 { Instruction::J(target_field(i)) }
    else if op == 0x03 { Instruction::Jal(target_field(i)) }
    else if op == 0x04 { Instruction::Beq(rs, rt, imm) }
    else if op == 0x05 { Instruction::Bne(rs, rt, imm) }
    else if op == 0x06 { Instruction::Blez(rs, imm) }
    else if op == 0x07 { Instruction::Bgtz(rs, imm) }
    else if op == 0x08 { Instruction::Addi(rt, rs, imm) }
    else if op == 0x09 { Instruction::Addiu(rt, rs, imm) }
    else if op == 0x0a { Instruction::Slti(rt, rs, imm) }
    else if op == 0x0b { Instruction::Sltiu(rt, rs, imm) }
    else if op == 0x0c { Instruction::Andi(rt, rs, uimm) }
    else if op == 0x0d { Instruction::Ori(rt, rs, uimm) }
    else if op == 0x0e { Instruction::Xori(rt, rs, uimm) }
    else if op == 0x0f { Instruction::Lui(rt, uimm) }
    else if op == 0x10 {
        if rs == 0x00 { Instruction::Mfc0(rt, rd) }
        else if rs == 0x04 { Instruction::Mtc0(rt, rd) }
        else if rs == 0x10 { Instruction::Rfe }
        else { Instruction::Invalid(i) }
    } else if op == 0x12 {
        if rs == 0x00 { Instruction::Mfc2(rt, rd) }
        else if rs == 0x02 { Instruction::Cfc2(rt, rd) }
        else if rs == 0x04 { Instruction::Mtc2(rt, rd) }
        else if rs == 0x06 { Instruction::Ctc2(rt, rd) }
        else { Instruction::Cop2(i & 0x1ffffff) }
    }
    else if op == 0x20 { Instruction::Lb(rt, rs, imm) }
    else if op == 0x21 { Instruction::Lh(rt, rs, imm) }
    else if op == 0x22 { Instruction::Lwl(rt, rs, imm) }
    else if op == 0x23 { Instruction::Lw(rt, rs, imm) }
    else if op == 0x24 { Instruction::Lbu(rt, rs, imm) }
    else if op == 0x25 { Instruction::Lhu(rt, rs, imm) }
    else if op == 0x26 { Instruction::Lwr(rt, rs, imm) }
    else if op == 0x28 { Instruction::Sb(rt, rs, imm) }
    else if op == 0x29 { Instruction::Sh(rt, rs, imm) }
    else if op == 0x2a { Instruction::Swl(rt, rs, imm) }
    else if op == 0x2b { Instruction::Sw(rt, rs, imm) }
    else if op == 0x2e { Instruction::Swr(rt, rs, imm) }
    else { Instruction::Invalid(i) }
}

/// Every register operand of a decoded instruction names one of the 32 registers.
pub open spec fn operands_in_range(inst: Instruction) -> bool {
    match inst {
        Instruction::Sll(a, b, c) | Instruction::Srl(a, b, c) | Instruction::Sra(a, b, c)
        | Instruction::Sllv(a, b, c) | Instruction::Srlv(a, b, c) | Instruction::Srav(a, b, c)
        | Instruction::Add(a, b, c) | Instruction::Addu(a, b, c) | Instruction::Sub(a, b, c)
        | Instruction::Subu(a, b, c) | Instruction::And(a, b, c) | Instruction::Or(a, b, c)
        | Instruction::Xor(a, b, c) | Instruction::Nor(a, b, c) | Instruction::Slt(a, b, c)
        | Instruction::Sltu(a, b, c) => a < 32 && b < 32 && c < 32,
        Instruction::Jr(a) | Instruction::Mfhi(a) | Instruction::Mthi(a) | Instruction::Mflo(a)
        | Instruction::Mtlo(a) | Instruction::Lui(a, _) | Instruction::Blez(a, _)
        | Instruction::Bgtz(a, _) | Instruction::Bltz(a, _) | Instruction::Bgez(a, _)
        | Instruction::Bltzal(a, _) | Instruction::Bgezal(a, _) => a < 32,
        Instruction::Jalr(a, b) | Instruction::Mult(a, b) | Instruction::Multu(a, b)
        | Instruction::Div(a, b) | Instruction::Divu(a, b) | Instruction::Mfc0(a, b)
        | Instruction::Mtc0(a, b) | Instruction::Mfc2(a, b) | Instruction::Mtc2(a, b)
        | Instruction::Cfc2(a, b) | Instruction::Ctc2(a, b) => a < 32 && b < 32,
        Instruction::Addi(a, b, _) | Instruction::Addiu(a, b, _) | Instruction::Slti(a, b, _)
        | Instruction::Sltiu(a, b, _) | Instruction::Beq(a, b, _) | Instruction::Bne(a, b, _)
        | Instruction::Lb(a, b, _) | Instruction::Lh(a, b, _) | Instruction::Lwl(a, b, _)
        | Instruction::Lw(a, b, _) | Instruction::Lbu(a, b, _) | Instruction::Lhu(a, b, _)
        | Instruction::Lwr(a, b, _) | Instruction::Sb(a, b, _) | Instruction::Sh(a, b, _)
        | Instruction::Swl(a, b, _) | Instruction::Sw(a, b, _) | Instruction::Swr(a, b, _) => a < 32 && b < 32,
        Instruction::Andi(a, b, _) | Instruction::Ori(a, b, _) | Instruction::Xori(a, b, _) => a < 32 && b < 32,
        _ => true,
    }
}

proof fn lemma_fields_in_range(i: u32)
    ensures
        rs_field(i) < 32,
        rt_field(i) < 32,
        rd_field(i) < 32,
        sa_field(i) < 32,
        funct_field(i) < 64,
        op_field(i) < 64,
{
    crate::bits::lemma_and_le(i >> 21u32, 0x1f);
    crate::bits::lemma_and_le(i >> 16u32, 0x1f);
    crate::bits::lemma_and_le(i >> 11u32, 0x1f);
    crate::bits::lemma_and_le(i >> 6u32, 0x1f);
    crate::bits::lemma_and_le(i, 0x3f);
    crate::bits::lemma_and_le(i >> 26u32, 0x3f);
}

/// Decoding never produces a register operand outside the register file.
pub proof fn lemma_decoded_operands_in_range(i: u32)
    ensures
        operands_in_range(decoded(i)),
{
    lemma_fields_in_range(i);
}

proof fn lemma_field_values(w: u32)
    ensures
        rd_field(w) as int == ((w >> 11u32) & 0x1f) as int,
        rs_field(w) as int == ((w >> 21u32) & 0x1f) as int,
        rt_field(w) as int == ((w >> 16u32) & 0x1f) as int,
        funct_field(w) as u32 == w & 0x3f,
        op_field(w) == (w >> 26u32) & 0x3f,
{
    crate::bits::lemma_and_le(w >> 21u32, 0x1f);
    crate::bits::lemma_and_le(w >> 16u32, 0x1f);
    crate::bits::lemma_and_le(w >> 11u32, 0x1f);
    crate::bits::lemma_and_le(w, 0x3f);
}

/// Executing an R-type ALU word (primary opcode 0) leaves in its destination register
/// (bits 15:11) the operation its function field names, applied to the registers its
/// bits 25:21 and 20:16 name: 0x21 adds, 0x23 subtracts the second from the first,
/// 0x24, 0x25, 0x26 and 0x27 take AND, OR, XOR and NOR, 0x2a and 0x2b compare signed
/// and unsigned (1 when the first is less); all arithmetic wraps. No other register
/// changes, and register 0 keeps its value.
pub proof fn lemma_alu_word_semantics(w: u32, oc: Cpu, nc: Cpu, op: Psx, np: Psx)
    requires
        (w >> 26u32) & 0x3f == 0,
        (w & 0x3f) == 0x21 || (w & 0x3f) == 0x23 || (w & 0x3f) == 0x24 || (w & 0x3f) == 0x25
            || (w & 0x3f) == 0x26 || (w & 0x3f) == 0x27 || (w & 0x3f) == 0x2a || (w & 0x3f) == 0x2b,
        execute_post(oc, nc, op, np, decoded(w)),
    ensures
        ({
            let f = w & 0x3f;
            let d = ((w >> 11u32) & 0x1f) as int;
            let a = oc.regs@[((w >> 21u32) & 0x1f) as int];
            let b = oc.regs@[((w >> 16u32) & 0x1f) as int];
            let v: u32 = if f == 0x21 {
                a.wrapping_add(b)
            } else if f == 0x23 {
                a.wrapping_sub(b)
            } else if f == 0x24 {
                a & b
            } else if f == 0x25 {
                a | b
            } else if f == 0x26 {
                a ^ b
            } else if f == 0x27 {
                !(a | b)
            } else if f == 0x2a {
                if (a as i32) < (b as i32) { 1 } else { 0 }
            } else {
                if a < b { 1 } else { 0 }
            };
            &&& d != 0 ==> nc.regs@[d] == v
            &&& forall|j: int| 0 <= j < 32 && j != d ==> nc.regs@[j] == oc.regs@[j]
            &&& np == op
            &&& nc.pc == oc.pc && nc.next_pc == oc.next_pc
        }),
{
    lemma_fields_in_range(w);
    lemma_field_values(w);
}

/// Executing an I-type ALU word leaves in the register its bits 20:16 name the operation
/// its primary opcode names, applied to the register its bits 25:21 name and its 16-bit
/// immediate: 0x09 adds the sign-extended immediate (wrapping), 0x0a and 0x0b compare
/// with it signed and unsigned (1 when the register is less), 0x0c, 0x0d and 0x0e take
/// AND, OR and XOR with the zero-extended immediate, and 0x0f loads the immediate into
/// the upper half. No other register changes, and register 0 keeps its value.
pub proof fn lemma_immediate_word_semantics(w: u32, oc: Cpu, nc: Cpu, op: Psx, np: Psx)
    requires
        9 <= (w >> 26u32) & 0x3f <= 0x0f,
        execute_post(oc, nc, op, np, decoded(w)),
    ensures
        ({
            let o = (w >> 26u32) & 0x3f;
            let t = ((w >> 16u32) & 0x1f) as int;
            let a = oc.regs@[((w >> 21u32) & 0x1f) as int];
            let zimm = w & 0xffff;
            let simm: u32 = if zimm >= 0x8000 { (zimm + 0xffff_0000) as u32 } else { zimm };
            let v: u32 = if o == 0x09 {
                a.wrapping_add(simm)
            } else if o == 0x0a {
                if (a as i32) < (simm as i32) { 1 } else { 0 }
            } else if o == 0x0b {
                if a < simm { 1 } else { 0 }
            } else if o == 0x0c {
                a & zimm
            } else if o == 0x0d {
                a | zimm
            } else if o == 0x0e {
                a ^ zimm
            } else {
                zimm << 16u32
            };
            &&& t != 0 ==> nc.regs@[t] == v
            &&& forall|j: int| 0 <= j < 32 && j != t ==> nc.regs@[j] == oc.regs@[j]
            &&& np == op
        }),
{
    lemma_fields_in_range(w);
    lemma_field_values(w);
    crate::bits::lemma_and_le(w, 0xffff);
    let zimm = w & 0xffff;
    let simm: u32 = if zimm >= 0x8000 { (zimm + 0xffff_0000) as u32 } else { zimm };
    let imm16: i16 = simm_field(w);
    assert((uimm_field(w) as u32) == zimm);
    assert((imm16 as i32) as u32 == simm && (simm as i32) == (imm16 as i32)) by (bit_vector)
        requires
            imm16 == (w & 0xffff) as i16,
            zimm == w & 0xffff,
            simm == (if zimm >= 0x8000 { (zimm + 0xffff_0000) as u32 } else { zimm });
}

/// Executing a shift word (primary opcode 0) leaves in its destination register (bits
/// 15:11) the register its bits 20:16 name shifted by the amount in bits 10:6 (functions
/// 0x00, 0x02, 0x03) or by the low five bits of the register its bits 25:21 name
/// (functions 0x04, 0x06, 0x07): left, logically right, or arithmetically right, in that
/// order. No other register changes.
pub proof fn lemma_shift_word_semantics(w: u32, oc: Cpu, nc: Cpu, op: Psx, np: Psx)
    requires
        (w >> 26u32) & 0x3f == 0,
        (w & 0x3f) == 0x00 || (w & 0x3f) == 0x02 || (w & 0x3f) == 0x03 || (w & 0x3f) == 0x04
            || (w & 0x3f) == 0x06 || (w & 0x3f) == 0x07,
        execute_post(oc, nc, op, np, decoded(w)),
    ensures
        ({
            let f = w & 0x3f;
            let d = ((w >> 11u32) & 0x1f) as int;
            let t = oc.regs@[((w >> 16u32) & 0x1f) as int];
            let n: u32 = if f < 4 { (w >> 6u32) & 0x1f } else { oc.regs@[((w >> 21u32) & 0x1f) as int] & 0x1f };
            let v: u32 = if f == 0x00 || f == 0x04 {
                t << n
            } else if f == 0x02 || f == 0x06 {
                t >> n
            } else {
                ((t as i32) >> n) as u32
            };
            &&& d != 0 ==> nc.regs@[d] == v
            &&& forall|j: int| 0 <= j < 32 && j != d ==> nc.regs@[j] == oc.regs@[j]
            &&& np == op
        }),
{
    lemma_fields_in_range(w);
    lemma_field_values(w);
    crate::bits::lemma_and_le(w >> 6u32, 0x1f);
    assert(sa_field(w) as u32 == (w >> 6u32) & 0x1f);
}

/// A jump word (primary opcode 2, or 3 which also links) continues, after its delay
/// slot, at the 26-bit target in words within the current 256MB region; the link puts
/// the address after the delay slot in register 31.
pub proof fn lemma_jump_word_semantics(w: u32, oc: Cpu, nc: Cpu, op: Psx, np: Psx)
    requires
        (w >> 26u32) & 0x3f == 2 || (w >> 26u32) & 0x3f == 3,
        execute_post(oc, nc, op, np, decoded(w)),
    ensures
        nc.next_pc == (oc.pc & 0xf000_0000) | ((w & 0x03ff_ffff) << 2u32),
        nc.branch_delay,
        (w >> 26u32) & 0x3f == 3 ==> nc.regs@[31] == oc.next_pc,
        forall|j: int| 0 <= j < 31 ==> nc.regs@[j] == oc.regs@[j],
        (w >> 26u32) & 0x3f == 2 ==> nc.regs@[31] == oc.regs@[31],
        np == op,
{
    lemma_fields_in_range(w);
    lemma_field_values(w);
}

/// An unsigned divide word (primary opcode 0, function 0x1b) leaves the quotient in LO
/// and the remainder in HI: LO times the divisor plus HI gives back the dividend, with HI
/// below the divisor. Dividing by zero gives LO all ones and the dividend in HI.
/// Registers are untouched.
pub proof fn lemma_divu_word_semantics(w: u32, oc: Cpu, nc: Cpu, op: Psx, np: Psx)
    requires
        (w >> 26u32) & 0x3f == 0,
        w & 0x3f == 0x1b,
        execute_post(oc, nc, op, np, decoded(w)),
    ensures
        ({
            let n = oc.regs@[((w >> 21u32) & 0x1f) as int];
            let d = oc.regs@[((w >> 16u32) & 0x1f) as int];
            &&& d != 0 ==> (nc.lo as int) * (d as int) + (nc.hi as int) == n as int && nc.hi < d
            &&& d == 0 ==> nc.lo == 0xffff_ffff && nc.hi == n
            &&& nc.regs == oc.regs
            &&& np == op
        }),
{
    lemma_fields_in_range(w);
    lemma_field_values(w);
    let n = oc.regs@[((w >> 21u32) & 0x1f) as int];
    let d = oc.regs@[((w >> 16u32) & 0x1f) as int];
    if d != 0 {
        vstd::arithmetic::div_mod::lemma_fundamental_div_mod(n as int, d as int);
        vstd::arithmetic::div_mod::lemma_mod_bound(n as int, d as int);
        assert((n / d) as int * (d as int) == (d as int) * ((n as int) / (d as int))) by (nonlinear_arith);
    }
}

/// The HI/LO moves (primary opcode 0): 0x10 and 0x12 copy HI and LO into the register
/// bits 15:11 name, 0x11 and 0x13 copy the register bits 25:21 name into HI and LO.
pub proof fn lemma_hilo_word_semantics(w: u32, oc: Cpu, nc: Cpu, op: Psx, np: Psx)
    requires
        (w >> 26u32) & 0x3f == 0,
        0x10 <= w & 0x3f <= 0x13,
        execute_post(oc, nc, op, np, decoded(w)),
    ensures
        ({
            let f = w & 0x3f;
            let d = ((w >> 11u32) & 0x1f) as int;
            let a = oc.regs@[((w >> 21u32) & 0x1f) as int];
            &&& f == 0x10 && d != 0 ==> nc.regs@[d] == oc.hi
            &&& f == 0x12 && d != 0 ==> nc.regs@[d] == oc.lo
            &&& f == 0x11 ==> nc.hi == a && nc.lo == oc.lo && nc.regs == oc.regs
            &&& f == 0x13 ==> nc.lo == a && nc.hi == oc.hi && nc.regs == oc.regs
            &&& np == op
        }),
{
    lemma_fields_in_range(w);
    lemma_field_values(w);
}

/// A BEQ word (primary opcode 4) branches exactly when its two registers are equal, and a
/// BNE word (5) exactly when they differ; a taken branch targets the word after the
/// delay slot moved by the sign-extended offset in words.
pub proof fn lemma_branch_word_semantics(w: u32, oc: Cpu, nc: Cpu, op: Psx, np: Psx)
    requires
        (w >> 26u32) & 0x3f == 4 || (w >> 26u32) & 0x3f == 5,
        execute_post(oc, nc, op, np, decoded(w)),
    ensures
        ({
            let a = oc.regs@[((w >> 21u32) & 0x1f) as int];
            let b = oc.regs@[((w >> 16u32) & 0x1f) as int];
            let taken = if (w >> 26u32) & 0x3f == 4 { a == b } else { a != b };
            &&& taken ==> nc.next_pc == oc.pc.wrapping_add(((simm_field(w) as i32) * 4) as u32) && nc.branch_delay
            &&& !taken ==> nc.next_pc == oc.next_pc
            &&& nc.regs == oc.regs
            &&& np == op
        }),
{
    lemma_fields_in_range(w);
    lemma_field_values(w);
}

impl Cpu {
    /// Split an instruction word into its opcode and operands.
    pub fn decode(&self, instruction: u32) -> (r: Instruction)
        ensures
            r == decoded(instruction),
            operands_in_range(r),
    {
        proof { lemma_decoded_operands_in_range(instruction); }
        let opcode = (instruction >> 26) & 0x3f;
        let rs = ((instruction >> 21) & 0x1f) as u8;
        let rt = ((instruction >> 16) & 0x1f) as u8;
        let rd = ((instruction >> 11) & 0x1f) as u8;
        let sa = ((instruction >> 6) & 0x1f) as u8;
        let funct = (instruction & 0x3f) as u8;
        let imm = (instruction & 0xffff) as i16;
        let uimm = (instruction & 0xffff) as u16;
        let target = instruction & 0x3ffffff;
        match opcode {
            0x00 => match funct {
                0x00 => Instruction::Sll(rd, rt, sa),
                0x02 => Instruction::Srl(rd, rt, sa),
                0x03 => Instruction::Sra(rd, rt, sa),
                0x04 => Instruction::Sllv(rd, rt, rs),
                0x06 => Instruction::Srlv(rd, rt, rs),
                0x07 => Instruction::Srav(rd, rt, rs),
                0x08 => Instruction::Jr(rs),
                0x09 => Instruction::Jalr(rd, rs),
                0x0c => Instruction::Syscall,
                0x0d => Instruction::Break,
                0x10 => Instruction::Mfhi(rd),
                0x11 => Instruction::Mthi(rs),
                0x12 => Instruction::Mflo(rd),
                0x13 => Instruction::Mtlo(rs),
                0x18 => Instruction::Mult(rs, rt),
                0x19 => Instruction::Multu(rs, rt),
                0x1a => Instruction::Div(rs, rt),
                0x1b => Instruction::Divu(rs, rt),
                0x20 => Instruction::Add(rd, rs, rt),
                0x21 => Instruction::Addu(rd, rs, rt),
                0x22 => Instruction::Sub(rd, rs, rt),
                0x23 => Instruction::Subu(rd, rs, rt),
                0x24 => Instruction::And(rd, rs, rt),
                0x25 => Instruction::Or(rd, rs, rt),
                0x26 => Instruction::Xor(rd, rs, rt),
                0x27 => Instruction::Nor(rd, rs, rt),
                0x2a => Instruction::Slt(rd, rs, rt),
                0x2b => Instruction::Sltu(rd, rs, rt),
                _ => Instruction::Invalid(instruction),
            },
            0x01 => match rt {
                0x00 => Instruction::Bltz(rs, imm),
                0x01 => Instruction::Bgez(rs, imm),
                0x10 => Instruction::Bltzal(rs, imm),
                0x11 => Instruction::Bgezal(rs, imm),
                _ => Instruction::Invalid(instruction),
            },
            0x02 => Instruction::J(target),
            0x03 => Instruction::Jal(target),
            0x04 => Instruction::Beq(rs, rt, imm),
            0x05 => Instruction::Bne(rs, rt, imm),
            0x06 => Instruction::Blez(rs, imm),
            0x07 => Instruction::Bgtz(rs, imm),
            0x08 => Instruction::Addi(rt, rs, imm),
            0x09 => Instruction::Addiu(rt, rs, imm),
            0x0a => Instruction::Slti(rt, rs, imm),
            0x0b => Instruction::Sltiu(rt, rs, imm),
            0x0c => Instruction::Andi(rt, rs, uimm),
            0x0d => Instruction::Ori(rt, rs, uimm),
            0x0e => Instruction::Xori(rt, rs, uimm),
            0x0f => Instruction::Lui(rt, uimm),
            0x10 => match rs {
                0x00 => Instruction::Mfc0(rt, rd),
                0x04 => Instruction::Mtc0(rt, rd),
                0x10 => Instruction::Rfe,
                _ => Instruction::Invalid(instruction),
            },
            0x12 => match rs {
                0x00 => Instruction::Mfc2(rt, rd),
                0x02 => Instruction::Cfc2(rt, rd),
                0x04 => Instruction::Mtc2(rt, rd),
                0x06 => Instruction::Ctc2(rt, rd),
                _ => Instruction::Cop2(instruction & 0x1ffffff),
            },
            0x20 => Instruction::Lb(rt, rs, imm),
            0x21 => Instruction::Lh(rt, rs, imm),
            0x22 => Instruction::Lwl(rt, rs, imm),
            0x23 => Instruction::Lw(rt, rs, imm),
            0x24 => Instruction::Lbu(rt, rs, imm),
            0x25 => Instruction::Lhu(rt, rs, imm),
            0x26 => Instruction::Lwr(rt, rs, imm),
            0x28 => Instruction::Sb(rt, rs, imm),
            0x29 => Instruction::Sh(rt, rs, imm),
            0x2a => Instruction::Swl(rt, rs, imm),
            0x2b => Instruction::Sw(rt, rs, imm),
            0x2e => Instruction::Swr(rt, rs, imm),
            _ => Instruction::Invalid(instruction),
        }
    }
}

/// Absolute value.
pub open spec fn abs(a: int) -> int {
    if a < 0 { -a } else { a }
}

/// Truncating signed division, as the hardware divides: the quotient of the magnitudes,
/// negative when the signs differ.
pub open spec fn trunc_div(a: int, b: int) -> int {
    let q = abs(a) / abs(b);
    if (a < 0) != (b < 0) { -q } else { q }
}

/// Remainder of truncating signed division; it takes the sign of the dividend.
pub open spec fn trunc_rem(a: int, b: int) -> int {
    let r = abs(a) % abs(b);
    if a < 0 { -r } else { r }
}

/// The value register `i` of `c` holds.
pub open spec fn rv(c: Cpu, i: u8) -> u32 {
    c.regs@[i as int]
}

/// The address of a load or store: base register plus sign-extended offset.
pub open spec fn mem_addr(c: Cpu, base: u8, offset: i16) -> u32 {
    rv(c, base).wrapping_add((offset as i32) as u32)
}

/// The target of a taken branch.
pub open spec fn branch_target(c: Cpu, offset: i16) -> u32 {
    c.pc.wrapping_add(((offset as i32) * 4) as u32)
}

/// `nc` is `oc` with register `i` set to `v` and nothing else changed.
pub open spec fn reg_written(oc: Cpu, nc: Cpu, i: u8, v: u32) -> bool {
    nc.regs@ == with_reg(oc.regs@, i, v) && nc == (Cpu { regs: nc.regs, ..oc })
}

/// `nc` is `oc` after a taken (or not taken) branch.
pub open spec fn branched(oc: Cpu, nc: Cpu, taken: bool, offset: i16) -> bool {
    if taken {
        nc == (Cpu { next_pc: branch_target(oc, offset), branch_delay: true, ..oc })
    } else {
        nc == oc
    }
}

/// The value left in the target of LWL, merging the aligned word into `cur`.
pub open spec fn lwl_merge(addr: u32, cur: u32, word: u32) -> u32 {
    let k = addr & 3;
    if k == 0 { (cur & 0x00ffffff) | (word << 24u32) }
    else if k == 1 { (cur & 0x0000ffff) | (word << 16u32) }
    else if k == 2 { (cur & 0x000000ff) | (word << 8u32) }
    else { word }
}

/// The value left in the target of LWR, merging the aligned word into `cur`.
pub open spec fn lwr_merge(addr: u32, cur: u32, word: u32) -> u32 {
    let k = addr & 3;
    if k == 0 { word }
    else if k == 1 { (cur & 0xff000000) | (word >> 8u32) }
    else if k == 2 { (cur & 0xffff0000) | (word >> 16u32) }
    else { (cur & 0xffffff00) | (word >> 24u32) }
}

/// The word SWL writes back, merging the register value into the memory word `cur`.
pub open spec fn swl_merge(addr: u32, cur: u32, val: u32) -> u32 {
    let k = addr & 3;
    if k == 0 { (cur & 0xffffff00) | (val >> 24u32) }
    else if k == 1 { (cur & 0xffff0000) | (val >> 16u32) }
    else if k == 2 { (cur & 0xff000000) | (val >> 8u32) }
    else { val }
}

/// The word SWR writes back, merging the register value into the memory word `cur`.
pub open spec fn swr_merge(addr: u32, cur: u32, val: u32) -> u32 {
    let k = addr & 3;
    if k == 0 { val }
    else if k == 1 { (cur & 0x000000ff) | (val << 8u32) }
    else if k == 2 { (cur & 0x0000ffff) | (val << 16u32) }
    else { (cur & 0x00ffffff) | (val << 24u32) }
}

/// The current value of register `rt` as seen by LWL/LWR: a pending load to the same
/// register is forwarded.
pub open spec fn forwarded(c: Cpu, rt: u8) -> u32 {
    match c.load_delay {
        Some((r, v)) => if r == rt { v } else { rv(c, rt) },
        None => rv(c, rt),
    }
}

/// The CPU and console after raising `e` while executing the instruction at `oc.current_pc`.
pub open spec fn exception_taken(oc: Cpu, nc: Cpu, op: Psx, np: Psx, e: Exception) -> bool {
    let h = exception_vector(status_after_exception(op.cop0.regs@[12]));
    &&& np == (Psx { cop0: np.cop0, ..op })
    &&& np.cop0.regs@ == op.cop0.regs@
        .update(13, cause_after_exception(op.cop0.regs@[13], e, oc.in_delay_slot))
        .update(14, if oc.in_delay_slot { oc.current_pc.wrapping_sub(4) } else { oc.current_pc })
        .update(12, status_after_exception(op.cop0.regs@[12]))
    &&& nc == (Cpu { pc: h, next_pc: h.wrapping_add(4), load_delay: None, ..oc })
}

/// `nc` is `oc` with a delayed load of `v` into `rt` scheduled.
pub open spec fn load_scheduled(oc: Cpu, nc: Cpu, rt: u8, v: u32) -> bool {
    nc == (Cpu { load_delay: Some((rt, v)), ..oc })
}

/// Sign-extension of a 16-bit immediate.
pub open spec fn sext16(imm: i16) -> u32 {
    (imm as i32) as u32
}

/// The effect of one executed instruction on the CPU (`oc` to `nc`) and the console
/// (`op` to `np`).
pub open spec fn execute_post(oc: Cpu, nc: Cpu, op: Psx, np: Psx, inst: Instruction) -> bool {
    match inst {
        Instruction::Sll(rd, rt, sa) => np == op && reg_written(oc, nc, rd, rv(oc, rt) << sa),
        Instruction::Srl(rd, rt, sa) => np == op && reg_written(oc, nc, rd, rv(oc, rt) >> sa),
        Instruction::Sra(rd, rt, sa) => np == op && reg_written(oc, nc, rd, ((rv(oc, rt) as i32) >> sa) as u32),
        Instruction::Sllv(rd, rt, rs) => np == op && reg_written(oc, nc, rd, rv(oc, rt) << (rv(oc, rs) & 0x1f)),
        Instruction::Srlv(rd, rt, rs) => np == op && reg_written(oc, nc, rd, rv(oc, rt) >> (rv(oc, rs) & 0x1f)),
        Instruction::Srav(rd, rt, rs) => np == op && reg_written(oc, nc, rd, ((rv(oc, rt) as i32) >> (rv(oc, rs) & 0x1f)) as u32),
        Instruction::Jr(rs) => np == op && nc == (Cpu { next_pc: rv(oc, rs), branch_delay: true, ..oc }),
        Instruction::Jalr(rd, rs) => np == op && nc.regs@ == with_reg(oc.regs@, rd, oc.next_pc)
            && nc == (Cpu { regs: nc.regs, next_pc: rv(oc, rs), branch_delay: true, ..oc }),
        Instruction::J(t) => np == op && nc == (Cpu { next_pc: (oc.pc & 0xf0000000) | (t << 2u32), branch_delay: true, ..oc }),
        Instruction::Jal(t) => np == op && nc.regs@ == with_reg(oc.regs@, 31, oc.next_pc)
            && nc == (Cpu { regs: nc.regs, next_pc: (oc.pc & 0xf0000000) | (t << 2u32), branch_delay: true, ..oc }),
        Instruction::Beq(rs, rt, off) => np == op && branched(oc, nc, rv(oc, rs) == rv(oc, rt), off),
        Instruction::Bne(rs, rt, off) => np == op && branched(oc, nc, rv(oc, rs) != rv(oc, rt), off),
        Instruction::Blez(rs, off) => np == op && branched(oc, nc, (rv(oc, rs) as i32) <= 0, off),
        Instruction::Bgtz(rs, off) => np == op && branched(oc, nc, (rv(oc, rs) as i32) > 0, off),
        Instruction::Bltz(rs, off) => np == op && branched(oc, nc, (rv(oc, rs) as i32) < 0, off),
        Instruction::Bgez(rs, off) => np == op && branched(oc, nc, (rv(oc, rs) as i32) >= 0, off),
        Instruction::Bltzal(rs, off) => np == op && {
            let taken = (rv(oc, rs) as i32) < 0;
            &&& nc.regs@ == with_reg(oc.regs@, 31, oc.next_pc)
            &&& nc == (Cpu { regs: nc.regs, next_pc: if taken { branch_target(oc, off) } else { oc.next_pc }, branch_delay: taken || oc.branch_delay, ..oc })
        },
        Instruction::Bgezal(rs, off) => np == op && {
            let taken = (rv(oc, rs) as i32) >= 0;
            &&& nc.regs@ == with_reg(oc.regs@, 31, oc.next_pc)
            &&& nc == (Cpu { regs: nc.regs, next_pc: if taken { branch_target(oc, off) } else { oc.next_pc }, branch_delay: taken || oc.branch_delay, ..oc })
        },
        Instruction::Add(rd, rs, rt) => {
            let s = (rv(oc, rs) as i32) + (rv(oc, rt) as i32);
            if i32::MIN <= s <= i32::MAX {
                np == op && reg_written(oc, nc, rd, (s as i32) as u32)
            } else {
                exception_taken(oc, nc, op, np, Exception::Overflow)
            }
        },
        Instruction::Addu(rd, rs, rt) => np == op && reg_written(oc, nc, rd, rv(oc, rs).wrapping_add(rv(oc, rt))),
        Instruction::Sub(rd, rs, rt) => {
            let s = (rv(oc, rs) as i32) - (rv(oc, rt) as i32);
            if i32::MIN <= s <= i32::MAX {
                np == op && reg_written(oc, nc, rd, (s as i32) as u32)
            } else {
                exception_taken(oc, nc, op, np, Exception::Overflow)
            }
        },
        Instruction::Subu(rd, rs, rt) => np == op && reg_written(oc, nc, rd, rv(oc, rs).wrapping_sub(rv(oc, rt))),
        Instruction::Addi(rt, rs, imm) => {
            let s = (rv(oc, rs) as i32) + (imm as i32);
            if i32::MIN <= s <= i32::MAX {
                np == op && reg_written(oc, nc, rt, (s as i32) as u32)
            } else {
                exception_taken(oc, nc, op, np, Exception::Overflow)
            }
        },
        Instruction::Addiu(rt, rs, imm) => np == op && reg_written(oc, nc, rt, rv(oc, rs).wrapping_add(sext16(imm))),
        Instruction::And(rd, rs, rt) => np == op && reg_written(oc, nc, rd, rv(oc, rs) & rv(oc, rt)),
        Instruction::Or(rd, rs, rt) => np == op && reg_written(oc, nc, rd, rv(oc, rs) | rv(oc, rt)),
        Instruction::Xor(rd, rs, rt) => np == op && reg_written(oc, nc, rd, rv(oc, rs) ^ rv(oc, rt)),
        Instruction::Nor(rd, rs, rt) => np == op && reg_written(oc, nc, rd, !(rv(oc, rs) | rv(oc, rt))),
        Instruction::Andi(rt, rs, imm) => np == op && reg_written(oc, nc, rt, rv(oc, rs) & (imm as u32)),
        Instruction::Ori(rt, rs, imm) => np == op && reg_written(oc, nc, rt, rv(oc, rs) | (imm as u32)),
        Instruction::Xori(rt, rs, imm) => np == op && reg_written(oc, nc, rt, rv(oc, rs) ^ (imm as u32)),
        Instruction::Lui(rt, imm) => np == op && reg_written(oc, nc, rt, (imm as u32) << 16u32),
        Instruction::Slt(rd, rs, rt) => np == op && reg_written(oc, nc, rd, if (rv(oc, rs) as i32) < (rv(oc, rt) as i32) { 1 } else { 0 }),
        Instruction::Sltu(rd, rs, rt) => np == op && reg_written(oc, nc, rd, if rv(oc, rs) < rv(oc, rt) { 1 } else { 0 }),
        Instruction::Slti(rt, rs, imm) => np == op && reg_written(oc, nc, rt, if (rv(oc, rs) as i32) < (imm as i32) { 1 } else { 0 }),
        Instruction::Sltiu(rt, rs, imm) => np == op && reg_written(oc, nc, rt, if rv(oc, rs) < sext16(imm) { 1 } else { 0 }),
        Instruction::Mult(rs, rt) => np == op && {
            let p = ((rv(oc, rs) as i32) as int) * ((rv(oc, rt) as i32) as int);
            nc == (Cpu { lo: p as u32, hi: ((p as i64) >> 32u64) as u32, ..oc })
        },
        Instruction::Multu(rs, rt) => np == op && {
            let p = (rv(oc, rs) as int) * (rv(oc, rt) as int);
            nc == (Cpu { lo: p as u32, hi: ((p as u64) >> 32u64) as u32, ..oc })
        },
        Instruction::Div(rs, rt) => np == op && {
            let n = rv(oc, rs) as i32;
            let d = rv(oc, rt) as i32;
            if d == 0 {
                nc == (Cpu { hi: n as u32, lo: if n >= 0 { 0xffffffff } else { 1 }, ..oc })
            } else if n == i32::MIN && d == -1 {
                nc == (Cpu { lo: i32::MIN as u32, hi: 0, ..oc })
            } else {
                nc == (Cpu { lo: trunc_div(n as int, d as int) as u32, hi: trunc_rem(n as int, d as int) as u32, ..oc })
            }
        },
        Instruction::Divu(rs, rt) => np == op && {
            let n = rv(oc, rs);
            let d = rv(oc, rt);
            if d == 0 {
                nc == (Cpu { hi: n, lo: 0xffffffff, ..oc })
            } else {
                nc == (Cpu { lo: n / d, hi: n % d, ..oc })
            }
        },
        Instruction::Mfhi(rd) => np == op && reg_written(oc, nc, rd, oc.hi),
        Instruction::Mthi(rs) => np == op && nc == (Cpu { hi: rv(oc, rs), ..oc }),
        Instruction::Mflo(rd) => np == op && reg_written(oc, nc, rd, oc.lo),
        Instruction::Mtlo(rs) => np == op && nc == (Cpu { lo: rv(oc, rs), ..oc }),
        Instruction::Lb(rt, base, off) => {
            let a = mem_addr(oc, base, off);
            np == op.after_access(a) && load_scheduled(oc, nc, rt, ((op.load8_value(a) as i8) as i32) as u32)
        },
        Instruction::Lbu(rt, base, off) => {
            let a = mem_addr(oc, base, off);
            np == op.after_access(a) && load_scheduled(oc, nc, rt, op.load8_value(a) as u32)
        },
        Instruction::Lh(rt, base, off) => {
            let a = mem_addr(oc, base, off);
            if a & 1 != 0 {
                exception_taken(oc, nc, op, np, Exception::LoadAddressError)
            } else {
                let h = ((op.load8_value(a) as u16) | ((op.load8_value((a + 1) as u32) as u16) << 8u16)) as u16;
                np == op.after_access(a).after_access((a + 1) as u32) && load_scheduled(oc, nc, rt, ((h as i16) as i32) as u32)
            }
        },
        Instruction::Lhu(rt, base, off) => {
            let a = mem_addr(oc, base, off);
            if a & 1 != 0 {
                exception_taken(oc, nc, op, np, Exception::LoadAddressError)
            } else {
                let h = ((op.load8_value(a) as u16) | ((op.load8_value((a + 1) as u32) as u16) << 8u16)) as u16;
                np == op.after_access(a).after_access((a + 1) as u32) && load_scheduled(oc, nc, rt, h as u32)
            }
        },
        Instruction::Lw(rt, base, off) => {
            let a = mem_addr(oc, base, off);
            if a & 3 != 0 {
                exception_taken(oc, nc, op, np, Exception::LoadAddressError)
            } else {
                np == op.after_access(a) && load_scheduled(oc, nc, rt, op.load32_value(a))
            }
        },
        Instruction::Lwl(rt, base, off) => {
            let a = mem_addr(oc, base, off);
            let al = a & !3u32;
            np == op.after_access(al) && load_scheduled(oc, nc, rt, lwl_merge(a, forwarded(oc, rt), op.load32_value(al)))
        },
        Instruction::Lwr(rt, base, off) => {
            let a = mem_addr(oc, base, off);
            let al = a & !3u32;
            np == op.after_access(al) && load_scheduled(oc, nc, rt, lwr_merge(a, forwarded(oc, rt), op.load32_value(al)))
        },
        Instruction::Sb(rt, base, off) => nc == oc && super::store8_post(op, np, mem_addr(oc, base, off), rv(oc, rt) as u8),
        Instruction::Sh(rt, base, off) => {
            let a = mem_addr(oc, base, off);
            if a & 1 != 0 {
                exception_taken(oc, nc, op, np, Exception::StoreAddressError)
            } else {
                nc == oc && super::store16_post(op, np, a, rv(oc, rt) as u16)
            }
        },
        Instruction::Sw(rt, base, off) => {
            let a = mem_addr(oc, base, off);
            if a & 3 != 0 {
                exception_taken(oc, nc, op, np, Exception::StoreAddressError)
            } else {
                nc == oc && super::store32_post(op, np, a, rv(oc, rt))
            }
        },
        Instruction::Swl(rt, base, off) => {
            let a = mem_addr(oc, base, off);
            let al = a & !3u32;
            nc == oc && super::store32_post(op.after_access(al), np, al, swl_merge(a, op.load32_value(al), rv(oc, rt)))
        },
        Instruction::Swr(rt, base, off) => {
            let a = mem_addr(oc, base, off);
            let al = a & !3u32;
            nc == oc && super::store32_post(op.after_access(al), np, al, swr_merge(a, op.load32_value(al), rv(oc, rt)))
        },
        Instruction::Mfc0(rt, rd) => np == op && load_scheduled(oc, nc, rt, op.cop0.regs@[rd as int]),
        Instruction::Mtc0(rt, rd) => nc == oc && np == (Psx { cop0: np.cop0, ..op })
            && np.cop0.regs@ == op.cop0.regs@.update(rd as int, cop0_written(rd, op.cop0.regs@[rd as int], rv(oc, rt))),
        Instruction::Rfe => nc == oc && np == (Psx { cop0: np.cop0, ..op })
            && np.cop0.regs@ == op.cop0.regs@.update(12, status_after_rfe(op.cop0.regs@[12])),
        Instruction::Mfc2(rt, rd) => np == op && load_scheduled(oc, nc, rt, op.gte.data@[(rd % 32) as int]),
        Instruction::Cfc2(rt, rd) => np == op && load_scheduled(oc, nc, rt, op.gte.control@[(rd % 32) as int]),
        Instruction::Mtc2(rt, rd) => nc == oc && np == (Psx { gte: np.gte, ..op })
            && np.gte.data@ == op.gte.data@.update((rd % 32) as int, rv(oc, rt)) && np.gte.control == op.gte.control,
        Instruction::Ctc2(rt, rd) => nc == oc && np == (Psx { gte: np.gte, ..op })
            && np.gte.control@ == op.gte.control@.update((rd % 32) as int, rv(oc, rt)) && np.gte.data == op.gte.data,
        Instruction::Cop2(_) => nc == oc && np == (Psx { gte: np.gte, ..op })
            && np.gte.control@ == op.gte.control@.update(31, 0) && np.gte.data == op.gte.data,
        Instruction::Syscall => exception_taken(oc, nc, op, np, Exception::Syscall),
        Instruction::Break => exception_taken(oc, nc, op, np, Exception::Break),
        Instruction::Invalid(_) => exception_taken(oc, nc, op, np, Exception::ReservedInstruction),
    }
}

/// A word access at an aligned address never leaves the memory it targets.
pub proof fn lemma_aligned_in_bounds(addr: u32)
    requires
        addr & 3 == 0,
    ensures
        super::word_in_bounds(addr),
{
    let p = super::spec_mask_region(addr);
    assert(p & 3 == 0) by (bit_vector)
        requires
            addr & 3 == 0,
            p == (if (addr >> 29u32) == 4 { addr & 0x7fffffff } else if (addr >> 29u32) == 5 { addr & 0x1fffffff } else { addr });
    assert(p & 3 == 0 ==> (p & 0x1fffff) + 3 < 0x200000) by (bit_vector);
    assert(p & 3 == 0 ==> (p & 0x3ff) + 3 < 0x400) by (bit_vector);
    assert(p & 3 == 0 ==> (p & 0x7ffff) + 3 < 0x80000) by (bit_vector);
}

proof fn lemma_mask5(x: u32)
    ensures
        x & 0x1f < 32,
{
    crate::bits::lemma_and_le(x, 0x1f);
}

proof fn lemma_align_down(a: u32)
    ensures
        (a & !3u32) & 3 == 0,
{
    assert((a & !3u32) & 3 == 0) by (bit_vector);
}

/// Truncating signed division of 32-bit values, with its remainder.
fn signed_div(n: i32, d: i32) -> (r: (i64, i64))
    requires
        d != 0,
    ensures
        r.0 == trunc_div(n as int, d as int),
        r.1 == trunc_rem(n as int, d as int),
{
    let nn = n as i64;
    let dd = d as i64;
    let an: i64 = if nn < 0 { -nn } else { nn };
    let ad: i64 = if dd < 0 { -dd } else { dd };
    let aq = an / ad;
    let ar = an % ad;
    let q = if (nn < 0) != (dd < 0) { -aq } else { aq };
    let m = if nn < 0 { -ar } else { ar };
    (q, m)
}

impl Cpu {
    /// Take an exception: COP0 records it and the CPU jumps to the handler, cancelling any
    /// pending load.
    fn exception(&mut self, psx: &mut Psx, exception: Exception) -> (r: Result<()>)
        requires
            old(psx).wf(),
        ensures
            r is Ok,
            final(psx).wf(),
            exception_taken(*old(self), *final(self), *old(psx), *final(psx), exception),
    {
        let handler = psx.cop0.exception(exception, self.current_pc, self.in_delay_slot);
        self.pc = handler;
        self.next_pc = handler.wrapping_add(4);
        self.load_delay = None;
        Ok(())
    }

    /// Schedule a branch to `pc + offset * 4`.
    fn branch(&mut self, offset: i16)
        ensures
            *final(self) == (Cpu { next_pc: branch_target(*old(self), offset), branch_delay: true, ..*old(self) }),
    {
        self.next_pc = self.pc.wrapping_add((offset as i32 * 4) as u32);
        self.branch_delay = true;
    }

    /// Execute one decoded instruction.
    fn execute(&mut self, inst: Instruction, psx: &mut Psx) -> (r: Result<()>)
        requires
            old(psx).wf(),
            operands_in_range(inst),
        ensures
            r is Ok,
            final(psx).wf(),
            execute_post(*old(self), *final(self), *old(psx), *final(psx), inst),
    {
        match inst {
            Instruction::Sll(..) | Instruction::Srl(..) | Instruction::Sra(..) | Instruction::Sllv(..) | Instruction::Srlv(..) | Instruction::Srav(..) | Instruction::And(..) | Instruction::Or(..) | Instruction::Xor(..) | Instruction::Nor(..) | Instruction::Andi(..) | Instruction::Ori(..) | Instruction::Xori(..) | Instruction::Lui(..) | Instruction::Slt(..) | Instruction::Sltu(..) | Instruction::Slti(..) | Instruction::Sltiu(..) | Instruction::Addu(..) | Instruction::Subu(..) | Instruction::Addiu(..) | Instruction::Mfhi(..) | Instruction::Mthi(..) | Instruction::Mflo(..) | Instruction::Mtlo(..) => self.exec_simple(inst, psx),
            Instruction::Jr(..) | Instruction::Jalr(..) | Instruction::J(..) | Instruction::Jal(..) | Instruction::Beq(..) | Instruction::Bne(..) | Instruction::Blez(..) | Instruction::Bgtz(..) | Instruction::Bltz(..) | Instruction::Bgez(..) | Instruction::Bltzal(..) | Instruction::Bgezal(..) => self.exec_branch(inst, psx),
            Instruction::Add(..) | Instruction::Sub(..) | Instruction::Addi(..) | Instruction::Mult(..) | Instruction::Multu(..) | Instruction::Div(..) | Instruction::Divu(..) => self.exec_arith(inst, psx),
            Instruction::Lb(..) | Instruction::Lbu(..) | Instruction::Lh(..) | Instruction::Lhu(..) | Instruction::Lw(..) | Instruction::Lwl(..) | Instruction::Lwr(..) => self.exec_load(inst, psx),
            Instruction::Sb(..) | Instruction::Sh(..) | Instruction::Sw(..) | Instruction::Swl(..) | Instruction::Swr(..) => self.exec_store(inst, psx),
            Instruction::Mfc0(..) | Instruction::Mtc0(..) | Instruction::Rfe | Instruction::Mfc2(..) | Instruction::Cfc2(..) | Instruction::Mtc2(..) | Instruction::Ctc2(..) | Instruction::Cop2(..) | Instruction::Syscall | Instruction::Break | Instruction::Invalid(..) => self.exec_cop(inst, psx),
        }
    }

    /// Shifts, logic, comparisons, wrapping arithmetic and HI/LO moves.
    fn exec_simple(&mut self, inst: Instruction, psx: &mut Psx) -> (r: Result<()>)
        requires
            old(psx).wf(),
            operands_in_range(inst),
            inst is Sll || inst is Srl || inst is Sra || inst is Sllv || inst is Srlv || inst is Srav || inst is And || inst is Or || inst is Xor || inst is Nor || inst is Andi || inst is Ori || inst is Xori || inst is Lui || inst is Slt || inst is Sltu || inst is Slti || inst is Sltiu || inst is Addu || inst is Subu || inst is Addiu || inst is Mfhi || inst is Mthi || inst is Mflo || inst is Mtlo,
        ensures
            r is Ok,
            final(psx).wf(),
            execute_post(*old(self), *final(self), *old(psx), *final(psx), inst),
    {
        match inst {
            Instruction::Sll(rd, rt, sa) => { let v = self.reg(rt) << sa; self.set_reg(rd, v); },
            Instruction::Srl(rd, rt, sa) => { let v = self.reg(rt) >> sa; self.set_reg(rd, v); },
            Instruction::Sra(rd, rt, sa) => { let v = ((self.reg(rt) as i32) >> sa) as u32; self.set_reg(rd, v); },
            Instruction::Sllv(rd, rt, rs) => { proof { lemma_mask5(self.regs@[rs as int]); } let v = self.reg(rt) << (self.reg(rs) & 0x1f); self.set_reg(rd, v); },
            Instruction::Srlv(rd, rt, rs) => { proof { lemma_mask5(self.regs@[rs as int]); } let v = self.reg(rt) >> (self.reg(rs) & 0x1f); self.set_reg(rd, v); },
            Instruction::Srav(rd, rt, rs) => { proof { lemma_mask5(self.regs@[rs as int]); } let v = ((self.reg(rt) as i32) >> (self.reg(rs) & 0x1f)) as u32; self.set_reg(rd, v); },
            Instruction::Addu(rd, rs, rt) => { let v = self.reg(rs).wrapping_add(self.reg(rt)); self.set_reg(rd, v); },
            Instruction::Subu(rd, rs, rt) => { let v = self.reg(rs).wrapping_sub(self.reg(rt)); self.set_reg(rd, v); },
            Instruction::Addiu(rt, rs, imm) => { let v = self.reg(rs).wrapping_add(imm as i32 as u32); self.set_reg(rt, v); },
            Instruction::And(rd, rs, rt) => { let v = self.reg(rs) & self.reg(rt); self.set_reg(rd, v); },
            Instruction::Or(rd, rs, rt) => { let v = self.reg(rs) | self.reg(rt); self.set_reg(rd, v); },
            Instruction::Xor(rd, rs, rt) => { let v = self.reg(rs) ^ self.reg(rt); self.set_reg(rd, v); },
            Instruction::Nor(rd, rs, rt) => { let v = !(self.reg(rs) | self.reg(rt)); self.set_reg(rd, v); },
            Instruction::Andi(rt, rs, imm) => { let v = self.reg(rs) & (imm as u32); self.set_reg(rt, v); },
            Instruction::Ori(rt, rs, imm) => { let v = self.reg(rs) | (imm as u32); self.set_reg(rt, v); },
            Instruction::Xori(rt, rs, imm) => { let v = self.reg(rs) ^ (imm as u32); self.set_reg(rt, v); },
            Instruction::Lui(rt, imm) => { self.set_reg(rt, (imm as u32) << 16); },
            Instruction::Slt(rd, rs, rt) => {
                let val = if (self.reg(rs) as i32) < (self.reg(rt) as i32) { 1 } else { 0 };
                self.set_reg(rd, val);
            },
            Instruction::Sltu(rd, rs, rt) => {
                let val = if self.reg(rs) < self.reg(rt) { 1 } else { 0 };
                self.set_reg(rd, val);
            },
            Instruction::Slti(rt, rs, imm) => {
                let val = if (self.reg(rs) as i32) < (imm as i32) { 1 } else { 0 };
                self.set_reg(rt, val);
            },
            Instruction::Sltiu(rt, rs, imm) => {
                let val = if self.reg(rs) < (imm as i32 as u32) { 1 } else { 0 };
                self.set_reg(rt, val);
            },
            Instruction::Mfhi(rd) => { let v = self.hi; self.set_reg(rd, v); },
            Instruction::Mthi(rs) => { self.hi = self.reg(rs); },
            Instruction::Mflo(rd) => { let v = self.lo; self.set_reg(rd, v); },
            Instruction::Mtlo(rs) => { self.lo = self.reg(rs); },
            _ => {},
        }
        Ok(())
    }

    /// Jumps and branches: they set the next PC and the branch-delay flag.
    fn exec_branch(&mut self, inst: Instruction, psx: &mut Psx) -> (r: Result<()>)
        requires
            old(psx).wf(),
            operands_in_range(inst),
            inst is Jr || inst is Jalr || inst is J || inst is Jal || inst is Beq || inst is Bne || inst is Blez || inst is Bgtz || inst is Bltz || inst is Bgez || inst is Bltzal || inst is Bgezal,
        ensures
            r is Ok,
            final(psx).wf(),
            execute_post(*old(self), *final(self), *old(psx), *final(psx), inst),
    {
        match inst {
            Instruction::Jr(rs) => {
                self.next_pc = self.reg(rs);
                self.branch_delay = true;
            },
            Instruction::Jalr(rd, rs) => {
                let ra = self.next_pc;
                self.next_pc = self.reg(rs);
                self.branch_delay = true;
                self.set_reg(rd, ra);
            },
            Instruction::J(target) => {
                self.next_pc = (self.pc & 0xf0000000) | (target << 2);
                self.branch_delay = true;
            },
            Instruction::Jal(target) => {
                let ra = self.next_pc;
                self.next_pc = (self.pc & 0xf0000000) | (target << 2);
                self.branch_delay = true;
                self.set_reg(31, ra);
            },
            Instruction::Beq(rs, rt, offset) => { if self.reg(rs) == self.reg(rt) { self.branch(offset); } },
            Instruction::Bne(rs, rt, offset) => { if self.reg(rs) != self.reg(rt) { self.branch(offset); } },
            Instruction::Blez(rs, offset) => { if (self.reg(rs) as i32) <= 0 { self.branch(offset); } },
            Instruction::Bgtz(rs, offset) => { if (self.reg(rs) as i32) > 0 { self.branch(offset); } },
            Instruction::Bltz(rs, offset) => { if (self.reg(rs) as i32) < 0 { self.branch(offset); } },
            Instruction::Bgez(rs, offset) => { if (self.reg(rs) as i32) >= 0 { self.branch(offset); } },
            Instruction::Bltzal(rs, offset) => {
                let ra = self.next_pc;
                if (self.reg(rs) as i32) < 0 { self.branch(offset); }
                self.set_reg(31, ra);
            },
            Instruction::Bgezal(rs, offset) => {
                let ra = self.next_pc;
                if (self.reg(rs) as i32) >= 0 { self.branch(offset); }
                self.set_reg(31, ra);
            },
            _ => {},
        }
        Ok(())
    }

    /// Trapping arithmetic, multiplication and division.
    fn exec_arith(&mut self, inst: Instruction, psx: &mut Psx) -> (r: Result<()>)
        requires
            old(psx).wf(),
            operands_in_range(inst),
            inst is Add || inst is Sub || inst is Addi || inst is Mult || inst is Multu || inst is Div || inst is Divu,
        ensures
            r is Ok,
            final(psx).wf(),
            execute_post(*old(self), *final(self), *old(psx), *final(psx), inst),
    {
        match inst {
            Instruction::Add(rd, rs, rt) => {
                let a = self.reg(rs) as i32;
                let b = self.reg(rt) as i32;
                match a.checked_add(b) {
                    Some(result) => self.set_reg(rd, result as u32),
                    None => return self.exception(psx, Exception::Overflow),
                }
            },
            Instruction::Sub(rd, rs, rt) => {
                let a = self.reg(rs) as i32;
                let b = self.reg(rt) as i32;
                match a.checked_sub(b) {
                    Some(result) => self.set_reg(rd, result as u32),
                    None => return self.exception(psx, Exception::Overflow),
                }
            },
            Instruction::Addi(rt, rs, imm) => {
                let a = self.reg(rs) as i32;
                let b = imm as i32;
                match a.checked_add(b) {
                    Some(result) => self.set_reg(rt, result as u32),
                    None => return self.exception(psx, Exception::Overflow),
                }
            },
            Instruction::Mult(rs, rt) => {
                let a = self.reg(rs) as i32 as i64;
                let b = self.reg(rt) as i32 as i64;
                proof {
                    assert(-0x8000_0000i64 * 0x8000_0000i64 <= a * b <= 0x8000_0000i64 * 0x8000_0000i64) by (nonlinear_arith)
                        requires -0x8000_0000 <= a <= 0x7fff_ffff, -0x8000_0000 <= b <= 0x7fff_ffff;
                }
                let result = a * b;
                self.lo = result as u32;
                self.hi = (result >> 32) as u32;
            },
            Instruction::Multu(rs, rt) => {
                let a = self.reg(rs) as u64;
                let b = self.reg(rt) as u64;
                proof {
                    assert(a * b <= 0xffff_ffffu64 * 0xffff_ffffu64) by (nonlinear_arith)
                        requires a <= 0xffff_ffff, b <= 0xffff_ffff;
                }
                let result = a * b;
                self.lo = result as u32;
                self.hi = (result >> 32) as u32;
            },
            Instruction::Div(rs, rt) => {
                let dividend = self.reg(rs) as i32;
                let divisor = self.reg(rt) as i32;
                if divisor == 0 {
                    self.hi = dividend as u32;
                    self.lo = if dividend >= 0 { 0xffffffff } else { 1 };
                } else if dividend == i32::MIN && divisor == -1 {
                    self.lo = i32::MIN as u32;
                    self.hi = 0;
                } else {
                    let (q, m) = signed_div(dividend, divisor);
                    self.lo = q as u32;
                    self.hi = m as u32;
                }
            },
            Instruction::Divu(rs, rt) => {
                let dividend = self.reg(rs);
                let divisor = self.reg(rt);
                if divisor == 0 {
                    self.hi = dividend;
                    self.lo = 0xffffffff;
                } else {
                    self.lo = dividend / divisor;
                    self.hi = dividend % divisor;
                }
            },
            _ => {},
        }
        Ok(())
    }

    /// Loads: the value reaches its register through the load-delay slot.
    fn exec_load(&mut self, inst: Instruction, psx: &mut Psx) -> (r: Result<()>)
        requires
            old(psx).wf(),
            operands_in_range(inst),
            inst is Lb || inst is Lbu || inst is Lh || inst is Lhu || inst is Lw || inst is Lwl || inst is Lwr,
        ensures
            r is Ok,
            final(psx).wf(),
            execute_post(*old(self), *final(self), *old(psx), *final(psx), inst),
    {
        match inst {
            Instruction::Lb(rt, base, offset) => {
                let addr = self.reg(base).wrapping_add(offset as i32 as u32);
                let val = psx.load8(addr)? as i8 as i32 as u32;
                self.load_delay = Some((rt, val));
            },
            Instruction::Lbu(rt, base, offset) => {
                let addr = self.reg(base).wrapping_add(offset as i32 as u32);
                let val = psx.load8(addr)? as u32;
                self.load_delay = Some((rt, val));
            },
            Instruction::Lh(rt, base, offset) => {
                let addr = self.reg(base).wrapping_add(offset as i32 as u32);
                if addr & 0x1 != 0 {
                    return self.exception(psx, Exception::LoadAddressError);
                }
                proof { crate::bits::lemma_even_below_max(addr); }
                let val = psx.load16(addr)? as i16 as i32 as u32;
                self.load_delay = Some((rt, val));
            },
            Instruction::Lhu(rt, base, offset) => {
                let addr = self.reg(base).wrapping_add(offset as i32 as u32);
                if addr & 0x1 != 0 {
                    return self.exception(psx, Exception::LoadAddressError);
                }
                proof { crate::bits::lemma_even_below_max(addr); }
                let val = psx.load16(addr)? as u32;
                self.load_delay = Some((rt, val));
            },
            Instruction::Lw(rt, base, offset) => {
                let addr = self.reg(base).wrapping_add(offset as i32 as u32);
                if addr & 0x3 != 0 {
                    return self.exception(psx, Exception::LoadAddressError);
                }
                proof { lemma_aligned_in_bounds(addr); }
                let val = psx.load32(addr)?;
                self.load_delay = Some((rt, val));
            },
            Instruction::Lwl(rt, base, offset) => {
                let addr = self.reg(base).wrapping_add(offset as i32 as u32);
                let aligned = addr & !3;
                proof { lemma_align_down(addr); lemma_aligned_in_bounds(aligned); }
                let word = psx.load32(aligned)?;
                let cur = match self.load_delay {
                    Some((r, v)) => if r == rt { v } else { self.reg(rt) },
                    None => self.reg(rt),
                };
                let k = addr & 3;
                let val = if k == 0 {
                    (cur & 0x00ffffff) | (word << 24)
                } else if k == 1 {
                    (cur & 0x0000ffff) | (word << 16)
                } else if k == 2 {
                    (cur & 0x000000ff) | (word << 8)
                } else {
                    word
                };
                self.load_delay = Some((rt, val));
            },
            Instruction::Lwr(rt, base, offset) => {
                let addr = self.reg(base).wrapping_add(offset as i32 as u32);
                let aligned = addr & !3;
                proof { lemma_align_down(addr); lemma_aligned_in_bounds(aligned); }
                let word = psx.load32(aligned)?;
                let cur = match self.load_delay {
                    Some((r, v)) => if r == rt { v } else { self.reg(rt) },
                    None => self.reg(rt),
                };
                let k = addr & 3;
                let val = if k == 0 {
                    word
                } else if k == 1 {
                    (cur & 0xff000000) | (word >> 8)
                } else if k == 2 {
                    (cur & 0xffff0000) | (word >> 16)
                } else {
                    (cur & 0xffffff00) | (word >> 24)
                };
                self.load_delay = Some((rt, val));
            },
            _ => {},
        }
        Ok(())
    }

    /// Stores.
    fn exec_store(&mut self, inst: Instruction, psx: &mut Psx) -> (r: Result<()>)
        requires
            old(psx).wf(),
            operands_in_range(inst),
            inst is Sb || inst is Sh || inst is Sw || inst is Swl || inst is Swr,
        ensures
            r is Ok,
            final(psx).wf(),
            execute_post(*old(self), *final(self), *old(psx), *final(psx), inst),
    {
        match inst {
            Instruction::Sb(rt, base, offset) => {
                let addr = self.reg(base).wrapping_add(offset as i32 as u32);
                psx.store8(addr, self.reg(rt) as u8)?;
            },
            Instruction::Sh(rt, base, offset) => {
                let addr = self.reg(base).wrapping_add(offset as i32 as u32);
                if addr & 0x1 != 0 {
                    return self.exception(psx, Exception::StoreAddressError);
                }
                proof { crate::bits::lemma_even_below_max(addr); }
                psx.store16(addr, self.reg(rt) as u16)?;
            },
            Instruction::Sw(rt, base, offset) => {
                let addr = self.reg(base).wrapping_add(offset as i32 as u32);
                if addr & 0x3 != 0 {
                    return self.exception(psx, Exception::StoreAddressError);
                }
                proof { lemma_aligned_in_bounds(addr); }
                psx.store32(addr, self.reg(rt))?;
            },
            Instruction::Swl(rt, base, offset) => {
                let addr = self.reg(base).wrapping_add(offset as i32 as u32);
                let aligned = addr & !3;
                proof { lemma_align_down(addr); lemma_aligned_in_bounds(aligned); }
                let cur = psx.load32(aligned)?;
                let val = self.reg(rt);
                let k = addr & 3;
                let word = if k == 0 {
                    (cur & 0xffffff00) | (val >> 24)
                } else if k == 1 {
                    (cur & 0xffff0000) | (val >> 16)
                } else if k == 2 {
                    (cur & 0xff000000) | (val >> 8)
                } else {
                    val
                };
                psx.store32(aligned, word)?;
            },
            Instruction::Swr(rt, base, offset) => {
                let addr = self.reg(base).wrapping_add(offset as i32 as u32);
                let aligned = addr & !3;
                proof { lemma_align_down(addr); lemma_aligned_in_bounds(aligned); }
                let cur = psx.load32(aligned)?;
                let val = self.reg(rt);
                let k = addr & 3;
                let word = if k == 0 {
                    val
                } else if k == 1 {
                    (cur & 0x000000ff) | (val << 8)
                } else if k == 2 {
                    (cur & 0x0000ffff) | (val << 16)
                } else {
                    (cur & 0x00ffffff) | (val << 24)
                };
                psx.store32(aligned, word)?;
            },
            _ => {},
        }
        Ok(())
    }

    /// Coprocessor transfers and the instructions that raise an exception.
    fn exec_cop(&mut self, inst: Instruction, psx: &mut Psx) -> (r: Result<()>)
        requires
            old(psx).wf(),
            operands_in_range(inst),
            inst is Mfc0 || inst is Mtc0 || inst is Rfe || inst is Mfc2 || inst is Cfc2 || inst is Mtc2 || inst is Ctc2 || inst is Cop2 || inst is Syscall || inst is Break || inst is Invalid,
        ensures
            r is Ok,
            final(psx).wf(),
            execute_post(*old(self), *final(self), *old(psx), *final(psx), inst),
    {
        match inst {
            Instruction::Mfc0(rt, rd) => {
                let val = psx.cop0.reg(rd);
                self.load_delay = Some((rt, val));
            },
            Instruction::Mtc0(rt, rd) => { psx.cop0.set_reg(rd, self.reg(rt)); },
            Instruction::Rfe => { psx.cop0.rfe(); },
            Instruction::Mfc2(rt, rd) => {
                let val = psx.gte.data_reg(rd);
                self.load_delay = Some((rt, val));
            },
            Instruction::Cfc2(rt, rd) => {
                let val = psx.gte.control_reg(rd);
                self.load_delay = Some((rt, val));
            },
            Instruction::Mtc2(rt, rd) => { psx.gte.set_data_reg(rd, self.reg(rt)); },
            Instruction::Ctc2(rt, rd) => { psx.gte.set_control_reg(rd, self.reg(rt)); },
            Instruction::Cop2(command) => { psx.gte.execute(command); },
            Instruction::Syscall => { return self.exception(psx, Exception::Syscall); },
            Instruction::Break => { return self.exception(psx, Exception::Break); },
            Instruction::Invalid(_) => { return self.exception(psx, Exception::ReservedInstruction); },

            _ => {},
        }
        Ok(())
    }
}

/// The pending delayed load names a register.
pub open spec fn load_delay_ok(c: Cpu) -> bool {
    match c.load_delay {
        Some((r, _)) => r < 32,
        None => true,
    }
}

/// `nc` is `oc` with its pending delayed load written back (the instruction cache aside,
/// which the fetch before it may have filled).
pub open spec fn load_retired(oc: Cpu, nc: Cpu) -> bool {
    match oc.load_delay {
        Some((r, v)) => nc.regs@ == with_reg(oc.regs@, r, v) && nc == (Cpu { regs: nc.regs, load_delay: None, icache: nc.icache, ..oc }),
        None => nc == (Cpu { icache: nc.icache, ..oc }),
    }
}

/// The instruction word and console state after fetching at `c.pc`: a cache hit costs one
/// cycle, a miss reads memory and fills the cache.
pub open spec fn fetched(c: Cpu, nc_icache: ICache, op: Psx, np: Psx, word: u32) -> bool {
    match cache_lookup(c.icache.lines@, c.pc) {
        Some(w) => {
            &&& word == w
            &&& np == (Psx { cycle_counter: op.cycle_counter.wrapping_add(1), ..op })
            &&& nc_icache == c.icache
        },
        None => {
            &&& word == op.load32_value(c.pc)
            &&& np == op.after_access(c.pc)
            &&& (!is_cacheable(c.pc) ==> nc_icache.lines@ == c.icache.lines@)
            &&& (is_cacheable(c.pc) ==> {
                &&& nc_icache.lines@.len() == 256
                &&& forall|i: int| 0 <= i < 256 && i != line_of(c.pc) ==> #[trigger] nc_icache.lines@[i] == c.icache.lines@[i]
                &&& line_stored(c.icache.lines@[line_of(c.pc)], nc_icache.lines@[line_of(c.pc)], c.pc, word)
            })
        },
    }
}

/// One full CPU step from `oc`/`op` to `nc`/`np`: fetch, retire the pending load, advance
/// the PC, execute, and force register 0 back to zero.
pub open spec fn step_post(oc: Cpu, nc: Cpu, op: Psx, np: Psx) -> bool {
    let c1 = Cpu { current_pc: oc.pc, in_delay_slot: oc.branch_delay, branch_delay: false, ..oc };
    exists|word: u32, ic: ICache, p1: Psx, c2: Cpu, c4: Cpu| #![trigger fetched(c1, ic, op, p1, word), load_retired(c1, c2), c4.regs] {
        &&& fetched(c1, ic, op, p1, word)
        &&& load_retired(c1, c2)
        &&& c2.icache == ic
        &&& execute_post(Cpu { pc: c2.next_pc, next_pc: c2.next_pc.wrapping_add(4), ..c2 }, c4, p1, np, decoded(word))
        &&& nc.regs@ == c4.regs@.update(0, 0)
        &&& nc == (Cpu { regs: nc.regs, ..c4 })
    }
}

impl Cpu {
    /// Fetch the instruction at PC, through the instruction cache.
    fn fetch(&mut self, psx: &mut Psx) -> (r: Result<u32>)
        requires
            old(psx).wf(),
            cache_lookup(old(self).icache.lines@, old(self).pc).is_some() || super::word_in_bounds(old(self).pc),
        ensures
            final(psx).wf(),
            r matches Ok(w) && fetched(*old(self), final(self).icache, *old(psx), *final(psx), w),
            *final(self) == (Cpu { icache: final(self).icache, ..*old(self) }),
    {
        if let Some(instruction) = self.icache.fetch(self.pc) {
            psx.tick(1);
            return Ok(instruction);
        }
        let instruction = psx.load32(self.pc)?;
        self.icache.store(self.pc, instruction);
        Ok(instruction)
    }

    /// Execute one instruction.
    pub fn step(&mut self, psx: &mut Psx) -> (r: Result<()>)
        requires
            old(psx).wf(),
            load_delay_ok(*old(self)),
            cache_lookup(old(self).icache.lines@, old(self).pc).is_some() || super::word_in_bounds(old(self).pc),
        ensures
            r is Ok,
            final(psx).wf(),
            step_post(*old(self), *final(self), *old(psx), *final(psx)),
    {
        let ghost oc = *self;
        let ghost op = *psx;
        self.current_pc = self.pc;
        self.in_delay_slot = self.branch_delay;
        self.branch_delay = false;
        let ghost c1 = *self;
        let instruction = self.fetch(psx)?;
        let ghost ic = self.icache;
        let ghost p1 = *psx;
        if let Some((reg, val)) = self.load_delay {
            self.load_delay = None;
            self.set_reg(reg, val);
        }
        let ghost c2 = *self;
        self.pc = self.next_pc;
        self.next_pc = self.pc.wrapping_add(4);
        let decoded = self.decode(instruction);
        self.execute(decoded, psx)?;
        let ghost c4 = *self;
        self.regs.set(0, 0);
        assert(fetched(c1, ic, op, p1, instruction));
        assert(load_retired(c1, c2));
        Ok(())
    }
}

} // verus!
