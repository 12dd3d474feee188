//! Achievements: a snapshot of console memory, conditions over it grouped into a core
//! group and alternatives, a runtime that tests compiled achievements, and the manager
//! that identifies a game by its hash and unlocks achievements frame by frame.

use vstd::prelude::*;
use vstd::string::StringExecFns;
use std::collections::{HashMap, HashSet};
use sha2::Digest;
use crate::psx_complete::Psx;

verus! {

broadcast use vstd::std_specs::hash::group_hash_axioms;

/// A snapshot of the memory that achievements look at.
pub struct MemoryInterface {
    /// Main RAM, 2MB.
    pub ram: Vec<u8>,
    /// VRAM as bytes, 1MB.
    pub vram: Vec<u8>,
    /// SPU RAM, 512KB.
    pub spu_ram: Vec<u8>,
    pub pc: u32,
    pub gprs: Vec<u32>,
}

/// RAM size in bytes.
pub const RA_RAM_SIZE: usize = 0x200000;
/// VRAM size in bytes.
pub const RA_VRAM_SIZE: usize = 0x100000;
/// SPU RAM size in bytes.
pub const RA_SPU_RAM_SIZE: usize = 0x80000;

impl MemoryInterface {
    /// The three memories have their sizes.
    pub open spec fn wf(&self) -> bool {
        &&& self.ram@.len() == RA_RAM_SIZE
        &&& self.vram@.len() == RA_VRAM_SIZE
        &&& self.spu_ram@.len() == RA_SPU_RAM_SIZE
    }

    /// The byte seen at `address`: RAM at 0, VRAM at 0x1f000000, SPU RAM at
    /// 0x1f800000, zero elsewhere.
    pub open spec fn byte_at(&self, address: u32) -> u8 {
        if address <= 0x001fffff {
            self.ram@[address as int]
        } else if 0x1f000000 <= address <= 0x1f0fffff {
            self.vram@[address - 0x1f000000]
        } else if 0x1f800000 <= address <= 0x1f87ffff {
            self.spu_ram@[address - 0x1f800000]
        } else {
            0
        }
    }

    /// Zeroed memories.
    pub fn new() -> (r: Self)
        ensures
            r.wf(),
            forall|a: u32| #[trigger] r.byte_at(a) == 0,
            r.pc == 0,
    {
        let r = MemoryInterface {
            ram: vec![0; RA_RAM_SIZE],
            vram: vec![0; RA_VRAM_SIZE],
            spu_ram: vec![0; RA_SPU_RAM_SIZE],
            pc: 0,
            gprs: vec![0; 32],
        };
        assert forall|a: u32| #[trigger] r.byte_at(a) == 0 by {}
        r
    }

    /// Take a new snapshot of the console: RAM, VRAM (little-endian pixels) and the
    /// CPU's registers. The console model has no SPU RAM, so that part keeps its
    /// contents.
    pub fn update(&mut self, psx: &Psx)
        requires
            old(self).wf(),
            psx.wf(),
        ensures
            final(self).wf(),
            final(self).ram@ == psx.ram@,
            forall|i: int| 0 <= i < RA_VRAM_SIZE ==> #[trigger] final(self).vram@[i] == (if i % 2 == 0 {
                psx.gpu.vram@[i / 2] as u8
            } else {
                (psx.gpu.vram@[i / 2] >> 8u16) as u8
            }),
            final(self).spu_ram == old(self).spu_ram,
            final(self).pc == psx.cpu.pc,
            final(self).gprs@ == psx.cpu.regs@,
    {
        let mut i: usize = 0;
        while i < RA_RAM_SIZE
            invariant
                i <= RA_RAM_SIZE,
                psx.ram@.len() == RA_RAM_SIZE,
                self.ram@.len() == RA_RAM_SIZE,
                self.vram@ == old(self).vram@,
                self.spu_ram == old(self).spu_ram,
                forall|j: int| 0 <= j < i ==> #[trigger] self.ram@[j] == psx.ram@[j],
            decreases RA_RAM_SIZE - i,
        {
            self.ram.set(i, psx.ram[i]);
            i = i + 1;
        }
        assert(self.ram@ =~= psx.ram@);
        let mut p: usize = 0;
        while p < RA_VRAM_SIZE / 2
            invariant
                p <= RA_VRAM_SIZE / 2,
                psx.gpu.vram@.len() == RA_VRAM_SIZE / 2,
                self.vram@.len() == RA_VRAM_SIZE,
                self.ram@ == psx.ram@,
                self.spu_ram == old(self).spu_ram,
                forall|j: int| 0 <= j < 2 * p ==> #[trigger] self.vram@[j] == (if j % 2 == 0 {
                    psx.gpu.vram@[j / 2] as u8
                } else {
                    (psx.gpu.vram@[j / 2] >> 8u16) as u8
                }),
            decreases RA_VRAM_SIZE / 2 - p,
        {
            let px = psx.gpu.vram[p];
            self.vram.set(2 * p, px as u8);
            self.vram.set(2 * p + 1, (px >> 8) as u8);
            p = p + 1;
        }
        self.pc = psx.cpu.pc;
        let mut regs: Vec<u32> = Vec::new();
        let mut k: usize = 0;
        while k < 32
            invariant
                k <= 32,
                psx.cpu.regs@.len() == 32,
                regs@ == psx.cpu.regs@.subrange(0, k as int),
            decreases 32 - k,
        {
            regs.push(psx.cpu.regs[k]);
            k = k + 1;
            assert(regs@ =~= psx.cpu.regs@.subrange(0, k as int));
        }
        assert(regs@ =~= psx.cpu.regs@);
        self.gprs = regs;
    }

    /// The byte at `address`.
    pub fn read_u8(&self, address: u32) -> (r: u8)
        requires
            self.wf(),
        ensures
            r == self.byte_at(address),
    {
        if address <= 0x001fffff {
            self.ram[address as usize]
        } else if address >= 0x1f000000 && address <= 0x1f0fffff {
            self.vram[(address - 0x1f000000) as usize]
        } else if address >= 0x1f800000 && address <= 0x1f87ffff {
            self.spu_ram[(address - 0x1f800000) as usize]
        } else {
            0
        }
    }

    /// The little-endian halfword at `address`.
    pub fn read_u16(&self, address: u32) -> (r: u16)
        requires
            self.wf(),
            address < u32::MAX,
        ensures
            r == (self.byte_at(address) as u16) | ((self.byte_at((address + 1) as u32) as u16) << 8u16),
    {
        let lo = self.read_u8(address) as u16;
        let hi = self.read_u8(address + 1) as u16;
        lo | (hi << 8)
    }

    /// The little-endian word at `address`.
    pub fn read_u32(&self, address: u32) -> (r: u32)
        requires
            self.wf(),
            address <= u32::MAX - 3,
        ensures
            r == (((self.byte_at(address) as u16) | ((self.byte_at((address + 1) as u32) as u16) << 8u16)) as u32)
                | ((((self.byte_at((address + 2) as u32) as u16) | ((self.byte_at((address + 3) as u32) as u16) << 8u16)) as u32) << 16u32),
    {
        let lo = self.read_u16(address) as u32;
        let hi = self.read_u16(address + 2) as u32;
        lo | (hi << 16)
    }
}

/// How much of memory an address operand reads.
#[derive(Debug, Clone, Copy, PartialEq, Eq, Structural)]
pub enum MemorySize {
    Bit0, Bit1, Bit2, Bit3, Bit4, Bit5, Bit6, Bit7,
    Lower4, Upper4,
    Byte, Word, DWord,
}

/// A memory operand.
#[derive(Debug, Clone, Copy, PartialEq, Eq, Structural)]
pub struct AddressOperand {
    pub address: u32,
    pub size: MemorySize,
}

/// Whether an operand's address can be read at its size.
pub open spec fn operand_readable(a: AddressOperand) -> bool {
    match a.size {
        MemorySize::Word => a.address < u32::MAX,
        MemorySize::DWord => a.address <= u32::MAX - 3,
        _ => true,
    }
}

/// The value an address operand reads from `m`.
pub open spec fn operand_value(m: MemoryInterface, a: AddressOperand) -> u32 {
    let b = m.byte_at(a.address);
    match a.size {
        MemorySize::Bit0 => (b & 0x01) as u32,
        MemorySize::Bit1 => ((b >> 1u8) & 0x01) as u32,
        MemorySize::Bit2 => ((b >> 2u8) & 0x01) as u32,
        MemorySize::Bit3 => ((b >> 3u8) & 0x01) as u32,
        MemorySize::Bit4 => ((b >> 4u8) & 0x01) as u32,
        MemorySize::Bit5 => ((b >> 5u8) & 0x01) as u32,
        MemorySize::Bit6 => ((b >> 6u8) & 0x01) as u32,
        MemorySize::Bit7 => ((b >> 7u8) & 0x01) as u32,
        MemorySize::Lower4 => (b & 0x0f) as u32,
        MemorySize::Upper4 => ((b >> 4u8) & 0x0f) as u32,
        MemorySize::Byte => b as u32,
        MemorySize::Word => ((b as u16) | ((m.byte_at((a.address + 1) as u32) as u16) << 8u16)) as u32,
        MemorySize::DWord => (((b as u16) | ((m.byte_at((a.address + 1) as u32) as u16) << 8u16)) as u32)
            | ((((m.byte_at((a.address + 2) as u32) as u16) | ((m.byte_at((a.address + 3) as u32) as u16) << 8u16)) as u32) << 16u32),
    }
}

impl AddressOperand {
    /// Read the operand.
    pub fn read(&self, memory: &MemoryInterface) -> (r: u32)
        requires
            memory.wf(),
            operand_readable(*self),
        ensures
            r == operand_value(*memory, *self),
    {
        let b = memory.read_u8(self.address);
        match self.size {
            MemorySize::Bit0 => (b & 0x01) as u32,
            MemorySize::Bit1 => ((b >> 1) & 0x01) as u32,
            MemorySize::Bit2 => ((b >> 2) & 0x01) as u32,
            MemorySize::Bit3 => ((b >> 3) & 0x01) as u32,
            MemorySize::Bit4 => ((b >> 4) & 0x01) as u32,
            MemorySize::Bit5 => ((b >> 5) & 0x01) as u32,
            MemorySize::Bit6 => ((b >> 6) & 0x01) as u32,
            MemorySize::Bit7 => ((b >> 7) & 0x01) as u32,
            MemorySize::Lower4 => (b & 0x0f) as u32,
            MemorySize::Upper4 => ((b >> 4) & 0x0f) as u32,
            MemorySize::Byte => b as u32,
            MemorySize::Word => memory.read_u16(self.address) as u32,
            MemorySize::DWord => memory.read_u32(self.address),
        }
    }
}

/// A condition operand: memory, a constant, or the previous value of an operand (not
/// tracked yet, so read as 0).
#[derive(Debug)]
pub enum Operand {
    Address(AddressOperand),
    Value(u32),
    Delta(Box<Operand>),
    Prior(Box<Operand>),
}

/// The value of an operand over `m`.
pub open spec fn operand_eval(m: MemoryInterface, o: Operand) -> u32 {
    match o {
        Operand::Address(a) => operand_value(m, a),
        Operand::Value(v) => v,
        _ => 0,
    }
}

/// Whether an operand can be read.
pub open spec fn operand_ok(o: Operand) -> bool {
    match o {
        Operand::Address(a) => operand_readable(a),
        _ => true,
    }
}

impl Operand {
    /// A copy of the operand.
    pub fn duplicate(&self) -> (r: Operand)
        ensures
            r == *self,
        decreases self,
    {
        match self {
            Operand::Address(a) => Operand::Address(*a),
            Operand::Value(v) => Operand::Value(*v),
            Operand::Delta(b) => Operand::Delta(Box::new(b.duplicate())),
            Operand::Prior(b) => Operand::Prior(Box::new(b.duplicate())),
        }
    }

    pub fn evaluate(&self, memory: &MemoryInterface) -> (r: u32)
        requires
            memory.wf(),
            operand_ok(*self),
        ensures
            r == operand_eval(*memory, *self),
    {
        match self {
            Operand::Address(addr) => addr.read(memory),
            Operand::Value(val) => *val,
            Operand::Delta(_) => 0,
            Operand::Prior(_) => 0,
        }
    }
}

/// Comparison of a condition.
#[derive(Debug, Clone, Copy, PartialEq, Eq, Structural)]
pub enum ComparisonOperator {
    Equal,
    NotEqual,
    Less,
    LessEqual,
    Greater,
    GreaterEqual,
}

/// Whether `l op r` holds.
pub open spec fn compares(op: ComparisonOperator, l: u32, r: u32) -> bool {
    match op {
        ComparisonOperator::Equal => l == r,
        ComparisonOperator::NotEqual => l != r,
        ComparisonOperator::Less => l < r,
        ComparisonOperator::LessEqual => l <= r,
        ComparisonOperator::Greater => l > r,
        ComparisonOperator::GreaterEqual => l >= r,
    }
}

/// Which group a condition belongs to.
#[derive(Debug, Clone, Copy, PartialEq, Eq, Structural)]
pub enum GroupType {
    Core,
    Alt(usize),
}

/// One condition: a comparison that must hold for `hit_count` frames in a row.
#[derive(Debug)]
pub struct Condition {
    pub left: Operand,
    pub operator: ComparisonOperator,
    pub right: Operand,
    pub hit_count: u32,
    pub current_hits: u32,
    pub group_type: GroupType,
}

/// Whether a condition's operands can be read and its hit counter can count.
pub open spec fn condition_ok(c: Condition) -> bool {
    operand_ok(c.left) && operand_ok(c.right) && c.current_hits < u32::MAX
}

/// Whether the comparison of `c` holds over `m`.
pub open spec fn condition_holds(m: MemoryInterface, c: Condition) -> bool {
    compares(c.operator, operand_eval(m, c.left), operand_eval(m, c.right))
}

impl Condition {
    /// A copy of the condition.
    pub fn duplicate(&self) -> (r: Condition)
        ensures
            r == *self,
    {
        Condition {
            left: self.left.duplicate(),
            operator: self.operator,
            right: self.right.duplicate(),
            hit_count: self.hit_count,
            current_hits: self.current_hits,
            group_type: self.group_type,
        }
    }

    /// Test the comparison this frame: a hit extends the run, a miss ends it; the
    /// condition is met once the run reaches the required count.
    pub fn test(&mut self, memory: &MemoryInterface) -> (r: bool)
        requires
            memory.wf(),
            condition_ok(*old(self)),
        ensures
            final(self).current_hits == (if condition_holds(*memory, *old(self)) { (old(self).current_hits + 1) as u32 } else { 0 }),
            r == (final(self).current_hits >= old(self).hit_count),
            *final(self) == (Condition { current_hits: final(self).current_hits, ..*old(self) }),
    {
        let left_val = self.left.evaluate(memory);
        let right_val = self.right.evaluate(memory);
        let result = match self.operator {
            ComparisonOperator::Equal => left_val == right_val,
            ComparisonOperator::NotEqual => left_val != right_val,
            ComparisonOperator::Less => left_val < right_val,
            ComparisonOperator::LessEqual => left_val <= right_val,
            ComparisonOperator::Greater => left_val > right_val,
            ComparisonOperator::GreaterEqual => left_val >= right_val,
        };
        if result {
            self.current_hits = self.current_hits + 1;
        } else {
            self.current_hits = 0;
        }
        self.current_hits >= self.hit_count
    }
}

/// Conditions that must all be met.
#[derive(Debug)]
pub struct ConditionGroup {
    pub conditions: Vec<Condition>,
}

impl ConditionGroup {
    pub fn new() -> (r: Self)
        ensures
            r.conditions@.len() == 0,
    {
        ConditionGroup { conditions: Vec::new() }
    }

    pub fn add(&mut self, condition: Condition)
        ensures
            final(self).conditions@ == old(self).conditions@.push(condition),
    {
        self.conditions.push(condition);
    }

    /// Test the conditions in order, stopping at the first that is not met; met when
    /// every condition is.
    pub fn test(&mut self, memory: &MemoryInterface) -> (r: bool)
        requires
            memory.wf(),
            forall|i: int| 0 <= i < old(self).conditions@.len() ==> condition_ok(#[trigger] old(self).conditions@[i]),
        ensures
            r == group_passes(*memory, old(self).conditions@),
            final(self).conditions@.len() == old(self).conditions@.len(),
            forall|i: int| 0 <= i < final(self).conditions@.len() ==> #[trigger] final(self).conditions@[i] == old(self).conditions@[i]
                || final(self).conditions@[i] == cond_after(*memory, old(self).conditions@[i]),
    {
        let mut i: usize = 0;
        while i < self.conditions.len()
            invariant
                memory.wf(),
                i <= self.conditions@.len(),
                self.conditions@.len() == old(self).conditions@.len(),
                forall|j: int| 0 <= j < i ==> #[trigger] self.conditions@[j] == cond_after(*memory, old(self).conditions@[j])
                    && cond_met(self.conditions@[j]),
                forall|j: int| i <= j < self.conditions@.len() ==> #[trigger] self.conditions@[j] == old(self).conditions@[j],
                forall|j: int| 0 <= j < old(self).conditions@.len() ==> condition_ok(#[trigger] old(self).conditions@[j]),
            decreases self.conditions@.len() - i,
        {
            let mut c = self.conditions.remove(i);
            let met = c.test(memory);
            self.conditions.insert(i, c);
            if !met {
                assert(!cond_met(cond_after(*memory, old(self).conditions@[i as int])));
                return false;
            }
            i = i + 1;
        }
        assert forall|k: int| 0 <= k < old(self).conditions@.len() implies cond_met(#[trigger] cond_after(*memory, old(self).conditions@[k])) by {
            assert(self.conditions@[k] == cond_after(*memory, old(self).conditions@[k]));
        }
        true
    }
}

/// A condition after this frame's test over `m`.
pub open spec fn cond_after(m: MemoryInterface, c: Condition) -> Condition {
    Condition { current_hits: if condition_holds(m, c) { (c.current_hits + 1) as u32 } else { 0 }, ..c }
}

/// Whether a condition has been true for as many frames as it needs.
pub open spec fn cond_met(c: Condition) -> bool {
    c.current_hits >= c.hit_count
}

/// Whether every condition of a group is met after this frame's test over `m`.
pub open spec fn group_passes(m: MemoryInterface, cs: Seq<Condition>) -> bool {
    forall|i: int| 0 <= i < cs.len() ==> cond_met(#[trigger] cond_after(m, cs[i]))
}

/// Whether all conditions of a group can be tested.
pub open spec fn group_ok(g: ConditionGroup) -> bool {
    forall|i: int| 0 <= i < g.conditions@.len() ==> condition_ok(#[trigger] g.conditions@[i])
}

/// An achievement ready to test: a core group, alternative groups, and how many frames
/// in a row it must pass.
#[derive(Debug)]
pub struct CompiledAchievement {
    pub core_group: ConditionGroup,
    pub alt_groups: Vec<ConditionGroup>,
    pub hits_required: u32,
    pub current_hits: u32,
}

/// Whether some alternative group passes.
pub open spec fn some_alt_passes(m: MemoryInterface, alts: Seq<ConditionGroup>) -> bool {
    exists|j: int| 0 <= j < alts.len() && group_passes(m, (#[trigger] alts[j]).conditions@)
}

/// The conditions of `cs` that belong to group `g`, in order.
pub open spec fn group_members(cs: Seq<Condition>, g: GroupType) -> Seq<Condition>
    decreases cs.len(),
{
    if cs.len() == 0 {
        Seq::empty()
    } else {
        let rest = group_members(cs.drop_last(), g);
        if cs.last().group_type == g { rest.push(cs.last()) } else { rest }
    }
}

/// How many alternative groups `cs` needs: one past the highest alternative number.
pub open spec fn alt_count(cs: Seq<Condition>) -> nat
    decreases cs.len(),
{
    if cs.len() == 0 {
        0
    } else {
        let r = alt_count(cs.drop_last());
        match cs.last().group_type {
            GroupType::Alt(n) => if n + 1 > r { (n + 1) as nat } else { r },
            GroupType::Core => r,
        }
    }
}

/// No condition names an alternative group at or past `alt_count`.
pub proof fn lemma_no_members_past_count(cs: Seq<Condition>, n: usize)
    requires
        n >= alt_count(cs),
    ensures
        group_members(cs, GroupType::Alt(n)) == Seq::<Condition>::empty(),
    decreases cs.len(),
{
    if cs.len() > 0 {
        lemma_no_members_past_count(cs.drop_last(), n);
    }
}

impl CompiledAchievement {
    /// Sort conditions into the core group and the numbered alternative groups (as many
    /// alternatives as the highest number used, plus one), keeping their order; one pass
    /// is required.
    pub fn compile(conditions: &Vec<Condition>) -> (r: Result<CompiledAchievement, RAError>)
        requires
            forall|i: int| 0 <= i < conditions@.len() ==> ((#[trigger] conditions@[i]).group_type matches GroupType::Alt(n) ==> n < usize::MAX),
        ensures
            r matches Ok(a) && a.hits_required == 1 && a.current_hits == 0
                && a.core_group.conditions@ == group_members(conditions@, GroupType::Core)
                && a.alt_groups@.len() == alt_count(conditions@)
                && forall|j: int| 0 <= j < a.alt_groups@.len() ==> #[trigger] a.alt_groups@[j].conditions@ == group_members(conditions@, GroupType::Alt(j as usize)),
    {
        let mut core_group = ConditionGroup::new();
        let mut alt_groups: Vec<ConditionGroup> = Vec::new();
        let mut i: usize = 0;
        while i < conditions.len()
            invariant
                i <= conditions@.len(),
                forall|k: int| 0 <= k < conditions@.len() ==> ((#[trigger] conditions@[k]).group_type matches GroupType::Alt(n) ==> n < usize::MAX),
                core_group.conditions@ == group_members(conditions@.take(i as int), GroupType::Core),
                alt_groups@.len() == alt_count(conditions@.take(i as int)),
                forall|j: int| 0 <= j < alt_groups@.len() ==> #[trigger] alt_groups@[j].conditions@ == group_members(conditions@.take(i as int), GroupType::Alt(j as usize)),
            decreases conditions@.len() - i,
        {
            let ghost p = conditions@.take(i as int);
            let ghost p1 = conditions@.take(i + 1);
            assert(p1.drop_last() =~= p);
            assert(p1.last() == conditions@[i as int]);
            let c = conditions[i].duplicate();
            match c.group_type {
                GroupType::Core => {
                    core_group.add(c);
                    assert forall|j: int| 0 <= j < alt_groups@.len() implies #[trigger] alt_groups@[j].conditions@ == group_members(p1, GroupType::Alt(j as usize)) by {}
                },
                GroupType::Alt(n) => {
                    let ghost before = alt_groups@;
                    while alt_groups.len() <= n
                        invariant
                            n < usize::MAX,
                            alt_count(p) <= alt_groups@.len() <= (if n + 1 > alt_count(p) { n + 1 } else { alt_count(p) as int }),
                            forall|j: int| 0 <= j < alt_groups@.len() ==> #[trigger] alt_groups@[j].conditions@ == group_members(p, GroupType::Alt(j as usize)),
                        decreases n + 1 - alt_groups@.len(),
                    {
                        proof { lemma_no_members_past_count(p, alt_groups@.len() as usize); }
                        alt_groups.push(ConditionGroup::new());
                    }
                    let ghost mid = alt_groups@;
                    let mut g = alt_groups.remove(n);
                    g.add(c);
                    alt_groups.insert(n, g);
                    assert(alt_groups@ =~= mid.update(n as int, g));
                    assert forall|j: int| 0 <= j < alt_groups@.len() implies #[trigger] alt_groups@[j].conditions@ == group_members(p1, GroupType::Alt(j as usize)) by {
                        if j != n as int {
                            assert(alt_groups@[j] == mid[j]);
                            assert(GroupType::Alt(j as usize) != GroupType::Alt(n));
                        }
                    }
                },
            }
            i = i + 1;
        }
        assert(conditions@.take(conditions@.len() as int) =~= conditions@);
        Ok(CompiledAchievement { core_group, alt_groups, hits_required: 1, current_hits: 0 })
    }

    /// Test one frame: the core group must pass, and one alternative group if there are
    /// any; a frame that passes extends the run, one that fails resets it. Met once the
    /// run reaches the required count.
    pub fn test(&mut self, memory: &MemoryInterface) -> (r: Result<bool, RAError>)
        requires
            memory.wf(),
            group_ok(old(self).core_group),
            forall|j: int| 0 <= j < old(self).alt_groups@.len() ==> group_ok(#[trigger] old(self).alt_groups@[j]),
            old(self).current_hits < u32::MAX,
        ensures
            ({
                let core = group_passes(*memory, old(self).core_group.conditions@);
                let alt = old(self).alt_groups@.len() == 0 || some_alt_passes(*memory, old(self).alt_groups@);
                &&& final(self).current_hits == (if core && alt { (old(self).current_hits + 1) as u32 } else { 0 })
                &&& r == Ok::<bool, RAError>(core && alt && final(self).current_hits >= old(self).hits_required)
            }),
            final(self).hits_required == old(self).hits_required,
    {
        if !self.core_group.test(memory) {
            self.current_hits = 0;
            return Ok(false);
        }
        if self.alt_groups.len() != 0 {
            let mut any_alt = false;
            let mut j: usize = 0;
            while j < self.alt_groups.len() && !any_alt
                invariant
                    memory.wf(),
                    j <= self.alt_groups@.len(),
                    self.alt_groups@.len() == old(self).alt_groups@.len(),
                    any_alt ==> some_alt_passes(*memory, old(self).alt_groups@),
                    !any_alt ==> forall|k: int| 0 <= k < j ==> !group_passes(*memory, (#[trigger] old(self).alt_groups@[k]).conditions@),
                    forall|k: int| j <= k < self.alt_groups@.len() ==> #[trigger] self.alt_groups@[k] == old(self).alt_groups@[k],
                    forall|k: int| 0 <= k < old(self).alt_groups@.len() ==> group_ok(#[trigger] old(self).alt_groups@[k]),
                    self.current_hits == old(self).current_hits,
                    self.hits_required == old(self).hits_required,
                decreases self.alt_groups@.len() - j,
            {
                let mut g = self.alt_groups.remove(j);
                let passed = g.test(memory);
                self.alt_groups.insert(j, g);
                if passed {
                    any_alt = true;
                }
                j = j + 1;
            }
            if !any_alt {
                self.current_hits = 0;
                return Ok(false);
            }
        }
        self.current_hits = self.current_hits + 1;
        Ok(self.current_hits >= self.hits_required)
    }
}

fn operand_can_read(o: &Operand) -> (r: bool)
    ensures
        r == operand_ok(*o),
{
    match o {
        Operand::Address(a) => match a.size {
            MemorySize::Word => a.address < u32::MAX,
            MemorySize::DWord => a.address <= u32::MAX - 3,
            _ => true,
        },
        _ => true,
    }
}

impl ConditionGroup {
    /// Whether every condition can be tested once more.
    pub fn can_test(&self) -> (r: bool)
        ensures
            r == group_ok(*self),
    {
        let mut i: usize = 0;
        while i < self.conditions.len()
            invariant
                i <= self.conditions@.len(),
                forall|j: int| 0 <= j < i ==> condition_ok(#[trigger] self.conditions@[j]),
            decreases self.conditions@.len() - i,
        {
            let c = &self.conditions[i];
            if !(operand_can_read(&c.left) && operand_can_read(&c.right) && c.current_hits < u32::MAX) {
                return false;
            }
            i = i + 1;
        }
        true
    }
}

impl CompiledAchievement {
    /// Whether the achievement can be tested once more without a counter overflowing.
    pub fn can_test(&self) -> (r: bool)
        ensures
            r == compiled_ok(*self),
    {
        if !self.core_group.can_test() || self.current_hits == u32::MAX {
            return false;
        }
        let mut j: usize = 0;
        while j < self.alt_groups.len()
            invariant
                j <= self.alt_groups@.len(),
                forall|k: int| 0 <= k < j ==> group_ok(#[trigger] self.alt_groups@[k]),
            decreases self.alt_groups@.len() - j,
        {
            if !self.alt_groups[j].can_test() {
                return false;
            }
            j = j + 1;
        }
        true
    }
}

/// Errors of the achievement system.
#[derive(Debug, Clone, Copy, PartialEq, Eq, Structural)]
pub enum RAError {
    NetworkError,
    ParseError,
    InvalidCondition,
}


/// A leaderboard ready to test.
#[derive(Debug, Clone, Copy, PartialEq, Eq, Structural)]
pub struct CompiledLeaderboard {
    pub id: u32,
    pub state: LeaderboardState,
    pub value: i32,
}

/// Where a leaderboard attempt stands.
#[derive(Debug, Clone, Copy, PartialEq, Eq, Structural)]
pub enum LeaderboardState {
    Inactive,
    Active,
    Ready,
}

impl CompiledLeaderboard {
    /// An inactive leaderboard.
    pub fn compile(leaderboard: &Leaderboard) -> (r: Result<CompiledLeaderboard, RAError>)
        ensures
            r == Ok::<CompiledLeaderboard, RAError>(CompiledLeaderboard { id: 0, state: LeaderboardState::Inactive, value: 0 }),
    {
        Ok(CompiledLeaderboard { id: 0, state: LeaderboardState::Inactive, value: 0 })
    }

    /// Leaderboard values are not evaluated yet: never a score to submit.
    pub fn test(&mut self, memory: &MemoryInterface) -> (r: Result<Option<i32>, RAError>)
        ensures
            r == Ok::<Option<i32>, RAError>(None),
            *final(self) == *old(self),
    {
        Ok(None)
    }
}

/// Leaderboard value formula (not evaluated yet).
#[derive(Debug, Clone, Copy, PartialEq, Eq, Structural)]
pub struct ValueExpression;

/// How a leaderboard value is shown.
#[derive(Debug, Clone, Copy, PartialEq, Eq, Structural)]
pub enum LeaderboardFormat {
    Value,
    Time,
    Score,
    Percentage,
}

/// Achievement flags.
#[derive(Debug, Clone, Copy, PartialEq, Eq, Structural)]
pub enum AchievementFlag {
    Hardcore,
    Progression,
    Missable,
    Secret,
}

/// An achievement.
#[derive(Debug)]
pub struct Achievement {
    pub id: u32,
    pub title: String,
    pub description: String,
    pub points: u32,
    pub badge_url: String,
    pub conditions: Vec<Condition>,
    pub flags: Vec<AchievementFlag>,
}

/// A leaderboard.
#[derive(Debug)]
pub struct Leaderboard {
    pub id: u32,
    pub title: String,
    pub description: String,
    pub start_conditions: Vec<Condition>,
    pub cancel_conditions: Vec<Condition>,
    pub submit_conditions: Vec<Condition>,
    pub value_conditions: ValueExpression,
    pub format: LeaderboardFormat,
    pub lower_is_better: bool,
}

/// Whether a compiled achievement can be tested once more.
pub open spec fn compiled_ok(a: CompiledAchievement) -> bool {
    &&& group_ok(a.core_group)
    &&& forall|j: int| 0 <= j < a.alt_groups@.len() ==> group_ok(#[trigger] a.alt_groups@[j])
    &&& a.current_hits < u32::MAX
}

/// The achievement runtime: compiled achievements and leaderboards by id.
pub struct RARuntime {
    pub achievements: HashMap<u32, CompiledAchievement>,
    pub leaderboards: HashMap<u32, CompiledLeaderboard>,
    /// Whether a memory snapshot has been attached.
    pub has_memory: bool,
}

impl RARuntime {
    /// Nothing loaded, no memory attached.
    pub fn new() -> (r: Self)
        ensures
            r.achievements@ == Map::<u32, CompiledAchievement>::empty(),
            r.leaderboards@ == Map::<u32, CompiledLeaderboard>::empty(),
            !r.has_memory,
    {
        RARuntime { achievements: HashMap::new(), leaderboards: HashMap::new(), has_memory: false }
    }

    /// Start a game: forget all achievements and leaderboards.
    pub fn init_game(&mut self, game_id: u32)
        ensures
            final(self).achievements@ == Map::<u32, CompiledAchievement>::empty(),
            final(self).leaderboards@ == Map::<u32, CompiledLeaderboard>::empty(),
            final(self).has_memory == old(self).has_memory,
    {
        self.achievements.clear();
        self.leaderboards.clear();
    }

    /// Attach the memory snapshot that tests read.
    pub fn set_memory_interface(&mut self, memory: &MemoryInterface)
        ensures
            final(self).has_memory,
            final(self).achievements@ == old(self).achievements@,
            final(self).leaderboards@ == old(self).leaderboards@,
    {
        self.has_memory = true;
    }

    /// Compile an achievement and file it under its id.
    pub fn add_achievement(&mut self, achievement: &Achievement) -> (r: Result<(), RAError>)
        requires
            forall|i: int| 0 <= i < achievement.conditions@.len() ==> ((#[trigger] achievement.conditions@[i]).group_type matches GroupType::Alt(n) ==> n < usize::MAX),
        ensures
            r is Ok,
            final(self).achievements@.dom() == old(self).achievements@.dom().insert(achievement.id),
            final(self).achievements@[achievement.id].hits_required == 1,
            final(self).achievements@[achievement.id].current_hits == 0,
            forall|k: u32| k != achievement.id && old(self).achievements@.contains_key(k) ==> final(self).achievements@[k] == old(self).achievements@[k],
            final(self).leaderboards@ == old(self).leaderboards@,
            final(self).has_memory == old(self).has_memory,
    {
        let compiled = CompiledAchievement::compile(&achievement.conditions)?;
        self.achievements.insert(achievement.id, compiled);
        Ok(())
    }

    /// Compile a leaderboard and file it under its id.
    pub fn add_leaderboard(&mut self, leaderboard: &Leaderboard) -> (r: Result<(), RAError>)
        ensures
            r is Ok,
            final(self).leaderboards@ == old(self).leaderboards@.insert(leaderboard.id, CompiledLeaderboard { id: 0, state: LeaderboardState::Inactive, value: 0 }),
            final(self).achievements@ == old(self).achievements@,
            final(self).has_memory == old(self).has_memory,
    {
        let compiled = CompiledLeaderboard::compile(leaderboard)?;
        self.leaderboards.insert(leaderboard.id, compiled);
        Ok(())
    }

    /// Test achievement `id` against `memory` for this frame; `false` for an unknown id
    /// or with no memory attached.
    pub fn test_achievement(&mut self, id: u32, memory: &MemoryInterface) -> (r: Result<bool, RAError>)
        requires
            memory.wf(),
            old(self).achievements@.contains_key(id) ==> compiled_ok(old(self).achievements@[id]),
        ensures
            !old(self).achievements@.contains_key(id) || !old(self).has_memory ==> r == Ok::<bool, RAError>(false),
            old(self).achievements@.contains_key(id) && old(self).has_memory ==> ({
                let a = old(self).achievements@[id];
                let core = group_passes(*memory, a.core_group.conditions@);
                let alt = a.alt_groups@.len() == 0 || some_alt_passes(*memory, a.alt_groups@);
                &&& r == Ok::<bool, RAError>(core && alt && (if core && alt { a.current_hits + 1 } else { 0 }) >= a.hits_required)
                &&& final(self).achievements@.contains_key(id)
                &&& final(self).achievements@[id].current_hits == (if core && alt { (a.current_hits + 1) as u32 } else { 0 })
            }),
            final(self).achievements@.dom() == old(self).achievements@.dom(),
            forall|k: u32| k != id && old(self).achievements@.contains_key(k) ==> final(self).achievements@[k] == old(self).achievements@[k],
            final(self).has_memory == old(self).has_memory,
            final(self).leaderboards@ == old(self).leaderboards@,
    {
        if !self.has_memory {
            return Ok(false);
        }
        match self.achievements.remove(&id) {
            Some(mut achievement) => {
                let r = achievement.test(memory);
                self.achievements.insert(id, achievement);
                assert(self.achievements@.dom() =~= old(self).achievements@.dom());
                r
            },
            None => {
                assert(self.achievements@ =~= old(self).achievements@);
                Ok(false)
            },
        }
    }

    /// Test leaderboard `id`: no score is produced yet.
    pub fn test_leaderboard(&mut self, id: u32, memory: &MemoryInterface) -> (r: Result<Option<i32>, RAError>)
        ensures
            r == Ok::<Option<i32>, RAError>(None),
            final(self).achievements@ == old(self).achievements@,
            final(self).leaderboards@ == old(self).leaderboards@,
            final(self).has_memory == old(self).has_memory,
    {
        Ok(None)
    }
}

/// The SHA-256 digest of `data` as 64 lowercase hexadecimal digits.
pub uninterp spec fn sha256_hex(data: Seq<u8>) -> Seq<char>;

/// Calls `sha2::Sha256::digest` on `data` and formats the digest in lowercase hex.
/// Claimed: the result is the name `sha256_hex` applied to the bytes; nothing else is
/// stated of the digest.
#[verifier::external_body]
fn sha256_hex_digest(data: &[u8]) -> (r: String)
    ensures
        r@ == sha256_hex(data@),
{
    format!("{:x}", sha2::Sha256::digest(data))
}

/// Whether a test of `a` on `memory` reports it met: its core group and one of its
/// alternative groups (if it has any) pass, and the hit reaches the hits required.
pub open spec fn achievement_met(a: CompiledAchievement, memory: MemoryInterface) -> bool {
    &&& group_passes(memory, a.core_group.conditions@)
    &&& (a.alt_groups@.len() == 0 || some_alt_passes(memory, a.alt_groups@))
    &&& a.current_hits + 1 >= a.hits_required
}

/// Whether no two achievements of `v` share an id.
pub open spec fn distinct_ids(v: Seq<Achievement>) -> bool {
    forall|i: int, j: int| 0 <= i < j < v.len() ==> v[i].id != v[j].id
}

/// The hash that identifies a game: SHA-256 of its first 512KB, in hex.
pub fn calculate_hash(rom_data: &[u8]) -> (r: String)
    ensures
        r@ == sha256_hex(rom_data@.subrange(0, if rom_data@.len() < 0x80000 { rom_data@.len() as int } else { 0x80000 })),
{
    let hash_size: usize = if rom_data.len() < 512 * 1024 { rom_data.len() } else { 512 * 1024 };
    sha256_hex_digest(vstd::slice::slice_subrange(rom_data, 0, hash_size))
}

/// Achievement settings.
#[derive(Debug, Clone, PartialEq, Eq)]
pub struct RAConfig {
    pub enabled: bool,
    pub hardcore_mode: bool,
    pub api_url: String,
    pub api_key: String,
    pub play_unlock_sound: bool,
    pub show_popups: bool,
    pub popup_duration_ms: u32,
    pub discord_integration: bool,
}

impl Default for RAConfig {
    fn default() -> (r: Self)
        ensures
            r.enabled && !r.hardcore_mode,
            r.api_url@ == "https://retroachievements.org/dorequest.php"@,
            r.api_key@ == Seq::<char>::empty(),
            r.play_unlock_sound && r.show_popups && r.discord_integration,
            r.popup_duration_ms == 5000,
    {
        RAConfig {
            enabled: true,
            hardcore_mode: false,
            api_url: String::from_str("https://retroachievements.org/dorequest.php"),
            api_key: String::new(),
            play_unlock_sound: true,
            show_popups: true,
            popup_duration_ms: 5000,
            discord_integration: true,
        }
    }
}

/// Whether achievements are being processed.
#[derive(Debug, Clone, Copy, PartialEq, Eq, Structural)]
pub enum RAState {
    Disabled,
    Active,
    Paused,
}

/// A logged-in user.
#[derive(Debug)]
pub struct UserSession {
    pub username: String,
    pub token: String,
}

/// The achievements manager of one game.
pub struct RetroAchievementsManager {
    pub runtime: RARuntime,
    pub memory_interface: MemoryInterface,
    pub game_id: Option<u32>,
    pub game_hash: String,
    pub achievements: Vec<Achievement>,
    pub leaderboards: Vec<Leaderboard>,
    pub user_session: Option<UserSession>,
    pub unlocked_achievements: HashSet<u32>,
    pub rich_presence: String,
    pub config: RAConfig,
    pub state: RAState,
    pub frame_counter: u64,
}

/// Whether a frame with memory snapshot `memory` unlocks achievement `id` of `m`: it
/// is listed and not unlocked yet, and its compiled form can be tested and is met.
pub open spec fn unlocks_on(m: RetroAchievementsManager, memory: MemoryInterface, id: u32) -> bool {
    &&& m.has_achievement(id)
    &&& !m.unlocked_achievements@.contains(id)
    &&& m.runtime.achievements@.contains_key(id)
    &&& compiled_ok(m.runtime.achievements@[id])
    &&& achievement_met(m.runtime.achievements@[id], memory)
}

impl RetroAchievementsManager {
    /// What frame processing needs: a sized memory snapshot.
    pub open spec fn ready(&self) -> bool {
        self.memory_interface.wf()
    }

    /// A disabled manager with nothing loaded.
    pub fn new(config: RAConfig) -> (r: Result<Self, RAError>)
        ensures
            r matches Ok(m) && m.ready() && m.state == RAState::Disabled && m.game_id.is_none()
                && m.frame_counter == 0 && m.achievements@.len() == 0 && m.user_session.is_none()
                && m.config == config && m.leaderboards@.len() == 0
                && m.unlocked_achievements@ == Set::<u32>::empty() && m.game_hash@.len() == 0
                && m.rich_presence@.len() == 0
                && m.runtime.achievements@ == Map::<u32, CompiledAchievement>::empty()
                && m.runtime.leaderboards@ == Map::<u32, CompiledLeaderboard>::empty()
                && !m.runtime.has_memory
                && forall|a: u32| #[trigger] m.memory_interface.byte_at(a) == 0,
    {
        Ok(RetroAchievementsManager {
            runtime: RARuntime::new(),
            memory_interface: MemoryInterface::new(),
            game_id: None,
            game_hash: String::new(),
            achievements: Vec::new(),
            leaderboards: Vec::new(),
            user_session: None,
            unlocked_achievements: HashSet::new(),
            rich_presence: String::new(),
            config,
            state: RAState::Disabled,
            frame_counter: 0,
        })
    }

    /// Identify the game by the hash of its image and start processing. The service
    /// identifies every game as game 1 and has no achievements or leaderboards for it.
    pub fn init_game(&mut self, rom_data: &[u8]) -> (r: Result<(), RAError>)
        requires
            old(self).ready(),
        ensures
            r is Ok,
            final(self).ready(),
            final(self).game_hash@ == sha256_hex(rom_data@.subrange(0, if rom_data@.len() < 0x80000 { rom_data@.len() as int } else { 0x80000 })),
            final(self).game_id == Some(1u32),
            final(self).state == RAState::Active,
            final(self).runtime.achievements@ == Map::<u32, CompiledAchievement>::empty(),
    {
        self.game_hash = calculate_hash(rom_data);
        self.game_id = Some(1);
        self.runtime.init_game(1);
        self.state = RAState::Active;
        Ok(())
    }

    /// Log in; the service has no unlocks on record.
    pub fn login(&mut self, username: &str, password: &str) -> (r: Result<(), RAError>)
        ensures
            r is Ok,
            final(self).user_session is Some,
            final(self).game_id == old(self).game_id,
            final(self).state == old(self).state,
    {
        if self.game_id.is_some() {
            self.unlocked_achievements = HashSet::new();
        }
        self.user_session = Some(UserSession { username: String::from_str("user"), token: String::from_str("token") });
        Ok(())
    }

    /// Process one frame: snapshot memory, test every achievement not yet unlocked,
    /// and unlock those that are met.
    pub fn process_frame(&mut self, psx: &Psx) -> (r: Result<(), RAError>)
        requires
            old(self).ready(),
            psx.wf(),
            old(self).state == RAState::Active ==> old(self).frame_counter < u64::MAX,
        ensures
            final(self).ready(),
            r is Ok,
            old(self).state != RAState::Active ==> *final(self) == *old(self),
            old(self).state == RAState::Active ==> {
                &&& final(self).frame_counter == old(self).frame_counter + 1
                &&& final(self).memory_interface.ram@ == psx.ram@
                &&& final(self).memory_interface.pc == psx.cpu.pc
                &&& final(self).memory_interface.gprs@ == psx.cpu.regs@
                &&& forall|id: u32| #[trigger] old(self).unlocked_achievements@.contains(id) && old(self).runtime.achievements@.contains_key(id)
                    ==> final(self).runtime.achievements@.contains_key(id)
                        && final(self).runtime.achievements@[id] == old(self).runtime.achievements@[id]
                &&& forall|id: u32| #[trigger] final(self).unlocked_achievements@.contains(id)
                    ==> old(self).unlocked_achievements@.contains(id) || old(self).has_achievement(id)
                &&& distinct_ids(old(self).achievements@) ==> final(self).unlocked_achievements@
                    == old(self).unlocked_achievements@.union(Set::new(|id: u32| unlocks_on(*old(self), final(self).memory_interface, id)))
            },
            old(self).unlocked_achievements@ <= final(self).unlocked_achievements@,
            final(self).achievements == old(self).achievements,
            final(self).state == old(self).state,
    {
        if self.state != RAState::Active {
            return Ok(());
        }
        self.frame_counter = self.frame_counter + 1;
        self.memory_interface.update(psx);
        self.runtime.set_memory_interface(&self.memory_interface);
        let ghost rt0 = self.runtime.achievements@;
        let ghost unl0 = self.unlocked_achievements@;
        let ghost mem = self.memory_interface;
        let ghost ach = self.achievements@;
        let ghost distinct = distinct_ids(ach);
        let mut newly_unlocked: Vec<u32> = Vec::new();
        let mut i: usize = 0;
        while i < self.achievements.len()
            invariant
                i <= ach.len(),
                self.ready(),
                self.achievements@ == ach,
                self.achievements == old(self).achievements,
                ach == old(self).achievements@,
                distinct == distinct_ids(ach),
                self.memory_interface == mem,
                self.unlocked_achievements@ == unl0,
                unl0 == old(self).unlocked_achievements@,
                rt0 == old(self).runtime.achievements@,
                self.state == old(self).state,
                self.frame_counter == old(self).frame_counter + 1,
                self.runtime.has_memory,
                self.runtime.achievements@.dom() == rt0.dom(),
                forall|k: u32| rt0.contains_key(k) && (forall|j: int| 0 <= j < i ==> (#[trigger] ach[j]).id != k)
                    ==> #[trigger] self.runtime.achievements@[k] == rt0[k],
                forall|k: u32| #[trigger] unl0.contains(k) && rt0.contains_key(k) ==> self.runtime.achievements@[k] == rt0[k],
                forall|x: u32| #[trigger] newly_unlocked@.contains(x) ==> exists|j: int| 0 <= j < i && (#[trigger] ach[j]).id == x,
                distinct ==> forall|x: u32| #[trigger] newly_unlocked@.contains(x)
                    <==> (exists|j: int| 0 <= j < i && (#[trigger] ach[j]).id == x) && unlocks_on(*old(self), mem, x),
            decreases ach.len() - i,
        {
            let id = self.achievements[i].id;
            let ghost nu0 = newly_unlocked@;
            let ghost rt1 = self.runtime.achievements@;
            let ghost picked: bool = false;
            proof {
                assert(ach[i as int].id == id);
                assert(old(self).achievements@[i as int].id == id);
                assert(old(self).has_achievement(id));
                if distinct {
                    assert forall|j: int| 0 <= j < i implies (#[trigger] ach[j]).id != id by {
                        assert(ach[j].id != ach[i as int].id);
                    }
                    assert(rt0.contains_key(id) ==> rt1[id] == rt0[id]);
                }
            }
            if !self.unlocked_achievements.contains(&id) {
                let ok = match self.runtime.achievements.get(&id) {
                    Some(a) => a.can_test(),
                    None => true,
                };
                assert(ok == (rt1.contains_key(id) ==> compiled_ok(rt1[id])));
                if ok {
                    let met = self.runtime.test_achievement(id, &self.memory_interface)?;
                    assert(met == (rt1.contains_key(id) && achievement_met(rt1[id], mem)));
                    if met {
                        newly_unlocked.push(id);
                        proof {
                            picked = true;
                        }
                    }
                }
            }
            proof {
                assert(newly_unlocked@ == (if picked { nu0.push(id) } else { nu0 }));
                assert(distinct ==> picked == unlocks_on(*old(self), mem, id));
                assert forall|x: u32| #[trigger] newly_unlocked@.contains(x) <==> (nu0.contains(x) || (picked && x == id)) by {
                    if picked {
                        if newly_unlocked@.contains(x) && x != id {
                            let q = choose|q: int| 0 <= q < newly_unlocked@.len() && newly_unlocked@[q] == x;
                            assert(nu0[q] == x);
                        }
                        if nu0.contains(x) {
                            let q = choose|q: int| 0 <= q < nu0.len() && nu0[q] == x;
                            assert(newly_unlocked@[q] == x);
                        }
                        if x == id {
                            assert(newly_unlocked@[nu0.len() as int] == x);
                        }
                    }
                }
                assert forall|x: u32| #[trigger] newly_unlocked@.contains(x) implies exists|j: int| 0 <= j < i + 1 && (#[trigger] ach[j]).id == x by {
                    if nu0.contains(x) {
                        let j = choose|j: int| 0 <= j < i && (#[trigger] ach[j]).id == x;
                        assert(0 <= j < i + 1 && ach[j].id == x);
                    } else {
                        assert(ach[i as int].id == x);
                    }
                }
                if distinct {
                    assert forall|x: u32| #[trigger] newly_unlocked@.contains(x)
                        <==> (exists|j: int| 0 <= j < i + 1 && (#[trigger] ach[j]).id == x) && unlocks_on(*old(self), mem, x) by {
                        if x == id {
                            assert(!nu0.contains(id));
                            assert(ach[i as int].id == x);
                        } else {
                            if exists|j: int| 0 <= j < i + 1 && (#[trigger] ach[j]).id == x {
                                let j = choose|j: int| 0 <= j < i + 1 && (#[trigger] ach[j]).id == x;
                                assert(j < i);
                            }
                        }
                    }
                }
            }
            i = i + 1;
        }
        let ghost rt2 = self.runtime.achievements@;
        let mut j: usize = 0;
        while j < self.leaderboards.len()
            invariant
                j <= self.leaderboards@.len(),
                self.ready(),
                self.achievements == old(self).achievements,
                self.memory_interface == mem,
                self.runtime.achievements@ == rt2,
                self.unlocked_achievements@ == old(self).unlocked_achievements@,
                self.state == old(self).state,
                self.frame_counter == old(self).frame_counter + 1,
            decreases self.leaderboards@.len() - j,
        {
            let id = self.leaderboards[j].id;
            match self.runtime.test_leaderboard(id, &self.memory_interface)? {
                Some(value) => {
                    self.submit_leaderboard_score(id, value)?;
                },
                None => {},
            }
            j = j + 1;
        }
        let mut k: usize = 0;
        while k < newly_unlocked.len()
            invariant
                k <= newly_unlocked@.len(),
                self.ready(),
                self.achievements == old(self).achievements,
                ach == old(self).achievements@,
                self.memory_interface == mem,
                self.runtime.achievements@ == rt2,
                forall|x: u32| #[trigger] newly_unlocked@.contains(x) ==> exists|j: int| 0 <= j < ach.len() && (#[trigger] ach[j]).id == x,
                self.unlocked_achievements@ == unl0.union(newly_unlocked@.take(k as int).to_set()),
                self.state == old(self).state,
                self.frame_counter == old(self).frame_counter + 1,
            decreases newly_unlocked@.len() - k,
        {
            let ghost before = self.unlocked_achievements@;
            let x = newly_unlocked[k];
            proof {
                assert(newly_unlocked@[k as int] == x);
                assert(newly_unlocked@.contains(x));
                let j = choose|j: int| 0 <= j < ach.len() && (#[trigger] ach[j]).id == x;
                assert(self.achievements@[j].id == x);
                assert(self.has_achievement(x));
            }
            self.unlock_achievement(x)?;
            proof {
                assert(newly_unlocked@.take(k + 1) =~= newly_unlocked@.take(k as int).push(x));
                let t0 = newly_unlocked@.take(k as int);
                let t1 = newly_unlocked@.take(k + 1);
                assert forall|y: u32| t1.contains(y) <==> t0.contains(y) || y == x by {
                    if t1.contains(y) {
                        let q = choose|q: int| 0 <= q < t1.len() && t1[q] == y;
                        if q < k {
                            assert(t0[q] == y);
                        }
                    }
                    if t0.contains(y) {
                        let q = choose|q: int| 0 <= q < t0.len() && t0[q] == y;
                        assert(t1[q] == y);
                    }
                    if y == x {
                        assert(t1[k as int] == x);
                    }
                }
                assert(t1.to_set() =~= t0.to_set().insert(x));
                assert(self.unlocked_achievements@ =~= unl0.union(newly_unlocked@.take(k + 1).to_set()));
            }
            k = k + 1;
        }
        proof {
            assert(newly_unlocked@.take(newly_unlocked@.len() as int) =~= newly_unlocked@);
            assert forall|x: u32| #[trigger] self.unlocked_achievements@.contains(x) implies unl0.contains(x) || old(self).has_achievement(x) by {
                if !unl0.contains(x) {
                    assert(newly_unlocked@.contains(x));
                    let j = choose|j: int| 0 <= j < ach.len() && (#[trigger] ach[j]).id == x;
                    assert(old(self).achievements@[j].id == x);
                }
            }
            if distinct {
                assert(self.unlocked_achievements@ =~= unl0.union(Set::new(|id: u32| unlocks_on(*old(self), mem, id)))) by {
                    assert forall|x: u32| unlocks_on(*old(self), mem, x) implies #[trigger] newly_unlocked@.contains(x) by {
                        let j = choose|j: int| 0 <= j < old(self).achievements@.len() && #[trigger] old(self).achievements@[j].id == x;
                        assert(ach[j].id == x);
                    }
                }
            }
        }
        Ok(())
    }

    /// Whether the achievement list holds `id`.
    pub open spec fn has_achievement(&self, id: u32) -> bool {
        exists|i: int| 0 <= i < self.achievements@.len() && #[trigger] self.achievements@[i].id == id
    }

    /// Unlock a known achievement: it joins the unlocked set (the popup, the sound and
    /// the report to the service are the host's). An unknown id changes nothing.
    pub fn unlock_achievement(&mut self, achievement_id: u32) -> (r: Result<(), RAError>)
        requires
            old(self).ready(),
        ensures
            r is Ok,
            final(self).ready(),
            final(self).unlocked_achievements@ == (if old(self).has_achievement(achievement_id) {
                old(self).unlocked_achievements@.insert(achievement_id)
            } else {
                old(self).unlocked_achievements@
            }),
            *final(self) == (RetroAchievementsManager { unlocked_achievements: final(self).unlocked_achievements, ..*old(self) }),
    {
        let mut i: usize = 0;
        while i < self.achievements.len()
            invariant
                i <= self.achievements@.len(),
                *self == *old(self),
                self.ready(),
                forall|j: int| 0 <= j < i ==> self.achievements@[j].id != achievement_id,
            decreases self.achievements@.len() - i,
        {
            if self.achievements[i].id == achievement_id {
                self.unlocked_achievements.insert(achievement_id);
                return Ok(());
            }
            i = i + 1;
        }
        Ok(())
    }

    /// Submit a leaderboard score: the report to the service is the host's, and nothing
    /// here changes.
    pub fn submit_leaderboard_score(&mut self, leaderboard_id: u32, value: i32) -> (r: Result<(), RAError>)
        ensures
            r is Ok,
            *final(self) == *old(self),
    {
        Ok(())
    }
}

/// Whether hardcore achievements may be earned: no cheats, no save states, and the
/// emulator running at normal speed.
pub fn validate_hardcore_requirements(cheats_enabled: bool, save_states_used: bool, normal_speed: bool) -> (r: bool)
    ensures
        r == (!cheats_enabled && !save_states_used && normal_speed),
{
    if cheats_enabled {
        return false;
    }
    if save_states_used {
        return false;
    }
    if !normal_speed {
        return false;
    }
    true
}
} // verus!
