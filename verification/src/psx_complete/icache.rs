//! The CPU instruction cache: 256 lines of four words.

use vstd::prelude::*;

verus! {

/// One cache line: a tag, a valid bit and four words.
#[derive(Clone, Copy)]
pub struct CacheLine {
    pub tag: u32,
    pub valid: bool,
    pub data: [u32; 4],
}

/// Instruction cache: 256 lines of 16 bytes, 4KB in all.
pub struct ICache {
    pub lines: [CacheLine; 256],
}

/// Only KUSEG, KSEG0 and KSEG1 are cached.
pub open spec fn is_cacheable(addr: u32) -> bool {
    addr < 0xc0000000
}

/// The line an address maps to (bits 11:4).
pub open spec fn line_of(addr: u32) -> int {
    ((addr >> 4u32) & 0xff) as int
}

/// The tag of an address (bits 31:12).
pub open spec fn tag_of(addr: u32) -> u32 {
    addr >> 12u32
}

/// The word of a line an address maps to (bits 3:2).
pub open spec fn word_of(addr: u32) -> int {
    ((addr >> 2u32) & 0x3) as int
}

/// What a fetch of `addr` returns from `lines`.
pub open spec fn cache_lookup(lines: Seq<CacheLine>, addr: u32) -> Option<u32> {
    let line = lines[line_of(addr)];
    if is_cacheable(addr) && line.valid && line.tag == tag_of(addr) {
        Some(line.data@[word_of(addr)])
    } else {
        None
    }
}

/// Whether storing for `addr` replaces the contents of its line.
pub open spec fn refills(line: CacheLine, addr: u32) -> bool {
    !line.valid || line.tag != tag_of(addr)
}

/// `new` is the line `old` becomes once `instruction` is stored for `addr`.
pub open spec fn line_stored(old: CacheLine, new: CacheLine, addr: u32, instruction: u32) -> bool {
    &&& new.valid
    &&& new.tag == tag_of(addr)
    &&& new.data@ == (if refills(old, addr) { seq![0u32, 0u32, 0u32, 0u32] } else { old.data@ }).update(
        word_of(addr),
        instruction,
    )
}

proof fn lemma_field_bounds(addr: u32)
    ensures
        0 <= line_of(addr) < 256,
        0 <= word_of(addr) < 4,
{
    crate::bits::lemma_and_le(addr >> 4u32, 0xff);
    crate::bits::lemma_and_le(addr >> 2u32, 0x3);
}

impl ICache {
    /// All lines invalid.
    pub fn new() -> (r: Self)
        ensures
            forall|i: int| 0 <= i < 256 ==> !(#[trigger] r.lines@[i]).valid,
    {
        ICache { lines: [CacheLine { tag: 0, valid: false, data: [0; 4] }; 256] }
    }

    fn is_cacheable(&self, addr: u32) -> (r: bool)
        ensures
            r == is_cacheable(addr),
    {
        addr < 0xc0000000
    }

    /// The cached word for `addr`, if its line is valid with a matching tag.
    pub fn fetch(&self, addr: u32) -> (r: Option<u32>)
        ensures
            r == cache_lookup(self.lines@, addr),
    {
        proof { lemma_field_bounds(addr); }
        if !self.is_cacheable(addr) {
            return None;
        }
        let index = ((addr >> 4) & 0xff) as usize;
        let tag = addr >> 12;
        let word = ((addr >> 2) & 0x3) as usize;
        let line = &self.lines[index];
        if line.valid && line.tag == tag {
            Some(line.data[word])
        } else {
            None
        }
    }
}

impl ICache {
    /// Store `instruction` for `addr`, refilling the line if it held another tag.
    pub fn store(&mut self, addr: u32, instruction: u32)
        ensures
            !is_cacheable(addr) ==> final(self).lines@ == old(self).lines@,
            is_cacheable(addr) ==> {
                &&& final(self).lines@.len() == 256
                &&& forall|i: int| 0 <= i < 256 && i != line_of(addr) ==> #[trigger] final(self).lines@[i] == old(self).lines@[i]
                &&& line_stored(old(self).lines@[line_of(addr)], final(self).lines@[line_of(addr)], addr, instruction)
            },
    {
        proof { lemma_field_bounds(addr); }
        if !self.is_cacheable(addr) {
            return;
        }
        let index = ((addr >> 4) & 0xff) as usize;
        let tag = addr >> 12;
        let word = ((addr >> 2) & 0x3) as usize;
        let mut line = self.lines[index];
        if !line.valid || line.tag != tag {
            line.tag = tag;
            line.valid = true;
            line.data = [0; 4];
            assert(line.data@ =~= seq![0u32, 0u32, 0u32, 0u32]);
        }
        line.data.set(word, instruction);
        self.lines.set(index, line);
    }

    /// Mark every line invalid.
    pub fn invalidate(&mut self)
        ensures
            final(self).lines@.len() == 256,
            forall|i: int| 0 <= i < 256 ==> !(#[trigger] final(self).lines@[i]).valid,
            forall|i: int| 0 <= i < 256 ==> (#[trigger] final(self).lines@[i]).tag == old(self).lines@[i].tag
                && final(self).lines@[i].data == old(self).lines@[i].data,
    {
        let mut i: usize = 0;
        while i < 256
            invariant
                i <= 256,
                self.lines@.len() == 256,
                forall|j: int| 0 <= j < i ==> !(#[trigger] self.lines@[j]).valid,
                forall|j: int| 0 <= j < 256 ==> (#[trigger] self.lines@[j]).tag == old(self).lines@[j].tag
                    && self.lines@[j].data == old(self).lines@[j].data,
            decreases 256 - i,
        {
            let mut line = self.lines[i];
            line.valid = false;
            self.lines.set(i, line);
            i += 1;
        }
    }
}

/// What a store writes, a fetch of the same address gives back.
pub proof fn lemma_store_then_fetch(old: Seq<CacheLine>, new: Seq<CacheLine>, addr: u32, instruction: u32)
    requires
        old.len() == 256,
        is_cacheable(addr),
        new.len() == 256,
        line_stored(old[line_of(addr)], new[line_of(addr)], addr, instruction),
    ensures
        cache_lookup(new, addr) == Some(instruction),
{
    lemma_field_bounds(addr);
}

/// After invalidation every fetch misses.
pub proof fn lemma_invalidated_misses(lines: Seq<CacheLine>, addr: u32)
    requires
        lines.len() == 256,
        forall|i: int| 0 <= i < 256 ==> !(#[trigger] lines[i]).valid,
    ensures
        cache_lookup(lines, addr).is_none(),
{
    lemma_field_bounds(addr);
}

} // verus!
