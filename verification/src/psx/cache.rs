//! The R3000A's 4KB instruction cache, the 1KB data scratchpad and the cache control
//! register.

use vstd::prelude::*;

verus! {

/// Cache control register bits.
#[derive(Debug, Clone, Copy, PartialEq, Eq, Structural)]
pub struct CacheControl {
    pub icache_enable: bool,
    pub dcache_enable: bool,
    pub tag_test_mode: bool,
    pub invalidate_icache: bool,
    pub load_icache: bool,
    pub cache_lock: bool,
    pub cache_isolated: bool,
    pub scratchpad_enable: bool,
    pub write_through: bool,
    pub burst_mode: bool,
    /// The raw register value, whose bits above the flags are kept.
    pub raw: u32,
}

/// Whether bit `mask` is set in `v`.
pub open spec fn bit_set(v: u32, mask: u32) -> bool {
    v & mask != 0
}

/// The control word that `c` writes back: its flags in bits 0..9 and the raw word's
/// upper bits.
pub open spec fn control_word(c: CacheControl) -> u32 {
    (if c.icache_enable { 0x0001u32 } else { 0 })
        | (if c.dcache_enable { 0x0002u32 } else { 0 })
        | (if c.tag_test_mode { 0x0004u32 } else { 0 })
        | (if c.invalidate_icache { 0x0008u32 } else { 0 })
        | (if c.load_icache { 0x0010u32 } else { 0 })
        | (if c.cache_lock { 0x0020u32 } else { 0 })
        | (if c.cache_isolated { 0x0040u32 } else { 0 })
        | (if c.scratchpad_enable { 0x0080u32 } else { 0 })
        | (if c.write_through { 0x0100u32 } else { 0 })
        | (if c.burst_mode { 0x0200u32 } else { 0 })
        | (c.raw & 0xFFFFFC00)
}

/// The control register decoded from `value`.
pub open spec fn control_of(value: u32) -> CacheControl {
    CacheControl {
        icache_enable: bit_set(value, 0x0001),
        dcache_enable: bit_set(value, 0x0002),
        tag_test_mode: bit_set(value, 0x0004),
        invalidate_icache: bit_set(value, 0x0008),
        load_icache: bit_set(value, 0x0010),
        cache_lock: bit_set(value, 0x0020),
        cache_isolated: bit_set(value, 0x0040),
        scratchpad_enable: bit_set(value, 0x0080),
        write_through: bit_set(value, 0x0100),
        burst_mode: bit_set(value, 0x0200),
        raw: value,
    }
}

impl CacheControl {
    /// The reset value: only the scratchpad enabled.
    pub fn new() -> (r: Self)
        ensures
            r == (CacheControl {
                icache_enable: false,
                dcache_enable: false,
                tag_test_mode: false,
                invalidate_icache: false,
                load_icache: false,
                cache_lock: false,
                cache_isolated: false,
                scratchpad_enable: true,
                write_through: false,
                burst_mode: false,
                raw: 0,
            }),
    {
        CacheControl {
            icache_enable: false,
            dcache_enable: false,
            tag_test_mode: false,
            invalidate_icache: false,
            load_icache: false,
            cache_lock: false,
            cache_isolated: false,
            scratchpad_enable: true,
            write_through: false,
            burst_mode: false,
            raw: 0,
        }
    }

    /// Decode a control register value.
    pub fn from_u32(value: u32) -> (r: Self)
        ensures
            r == control_of(value),
    {
        CacheControl {
            icache_enable: (value & 0x0001) != 0,
            dcache_enable: (value & 0x0002) != 0,
            tag_test_mode: (value & 0x0004) != 0,
            invalidate_icache: (value & 0x0008) != 0,
            load_icache: (value & 0x0010) != 0,
            cache_lock: (value & 0x0020) != 0,
            cache_isolated: (value & 0x0040) != 0,
            scratchpad_enable: (value & 0x0080) != 0,
            write_through: (value & 0x0100) != 0,
            burst_mode: (value & 0x0200) != 0,
            raw: value,
        }
    }

    /// Encode the register value: the flags, over the raw word's unknown upper bits.
    pub fn to_u32(&self) -> (r: u32)
        ensures
            r == control_word(*self),
    {
        (if self.icache_enable { 0x0001u32 } else { 0 })
            | (if self.dcache_enable { 0x0002u32 } else { 0 })
            | (if self.tag_test_mode { 0x0004u32 } else { 0 })
            | (if self.invalidate_icache { 0x0008u32 } else { 0 })
            | (if self.load_icache { 0x0010u32 } else { 0 })
            | (if self.cache_lock { 0x0020u32 } else { 0 })
            | (if self.cache_isolated { 0x0040u32 } else { 0 })
            | (if self.scratchpad_enable { 0x0080u32 } else { 0 })
            | (if self.write_through { 0x0100u32 } else { 0 })
            | (if self.burst_mode { 0x0200u32 } else { 0 })
            | (self.raw & 0xFFFFFC00)
    }
}

/// Decoding a control value and encoding it again gives the value back.
pub proof fn lemma_control_roundtrip(value: u32)
    ensures
        control_word(control_of(value)) == value,
{
    assert(((if value & 1 != 0 { 0x0001u32 } else { 0 })
        | (if value & 2 != 0 { 0x0002u32 } else { 0 })
        | (if value & 4 != 0 { 0x0004u32 } else { 0 })
        | (if value & 8 != 0 { 0x0008u32 } else { 0 })
        | (if value & 0x10 != 0 { 0x0010u32 } else { 0 })
        | (if value & 0x20 != 0 { 0x0020u32 } else { 0 })
        | (if value & 0x40 != 0 { 0x0040u32 } else { 0 })
        | (if value & 0x80 != 0 { 0x0080u32 } else { 0 })
        | (if value & 0x100 != 0 { 0x0100u32 } else { 0 })
        | (if value & 0x200 != 0 { 0x0200u32 } else { 0 })
        | (value & 0xFFFFFC00)) == value) by (bit_vector);
}

/// One 16-byte cache line.
#[derive(Debug, Clone, Copy)]
pub struct CacheLine {
    /// Physical address bits 31:12.
    pub tag: u32,
    pub valid: bool,
    pub dirty: bool,
    pub lru: u8,
    pub data: [u32; 4],
}

impl CacheLine {
    /// An empty, invalid line.
    pub fn new() -> (r: Self)
        ensures
            r.tag == 0 && !r.valid && !r.dirty && r.lru == 0,
            r.data@ == seq![0u32, 0u32, 0u32, 0u32],
    {
        CacheLine { tag: 0, valid: false, dirty: false, lru: 0, data: [0; 4] }
    }

    /// Whether the line is valid and tagged for `addr`.
    pub fn matches(&self, addr: u32) -> (r: bool)
        ensures
            r == (self.valid && self.tag == addr >> 12u32),
    {
        if !self.valid {
            return false;
        }
        let addr_tag = addr >> 12;
        self.tag == addr_tag
    }

    /// Drop the line's contents.
    pub fn invalidate(&mut self)
        ensures
            *final(self) == (CacheLine { valid: false, dirty: false, ..*old(self) }),
    {
        self.valid = false;
        self.dirty = false;
    }
}

/// The cache line that holds `addr`: bits 11:4.
pub open spec fn line_of(addr: u32) -> int {
    ((addr >> 4u32) & 0xff) as int
}

/// The word within its line that holds `addr`: bits 3:2.
pub open spec fn word_of(addr: u32) -> int {
    ((addr >> 2u32) & 0x3) as int
}

/// The 4KB instruction cache: 256 lines of four words.
pub struct InstructionCache {
    pub lines: [CacheLine; 256],
    pub hits: u64,
    pub misses: u64,
    pub enabled: bool,
    pub isolated: bool,
}

impl InstructionCache {
    /// An enabled cache with every line invalid.
    pub fn new() -> (r: Self)
        ensures
            forall|i: int| 0 <= i < 256 ==> !(#[trigger] r.lines@[i]).valid,
            r.hits == 0 && r.misses == 0,
            r.enabled && !r.isolated,
    {
        InstructionCache { lines: [CacheLine::new(); 256], hits: 0, misses: 0, enabled: true, isolated: false }
    }

    fn line_index(addr: u32) -> (r: usize)
        ensures
            r == line_of(addr),
            r < 256,
    {
        proof { crate::bits::lemma_and_le(addr >> 4u32, 0xff); }
        ((addr >> 4) & 0xFF) as usize
    }

    fn word_offset(addr: u32) -> (r: usize)
        ensures
            r == word_of(addr),
            r < 4,
    {
        proof { crate::bits::lemma_and_le(addr >> 2u32, 0x3); }
        ((addr >> 2) & 0x3) as usize
    }

    /// Look up the instruction at `addr`: `None` when the cache is off or misses.
    pub fn read(&mut self, addr: u32) -> (r: Option<u32>)
        requires
            old(self).hits < u64::MAX,
            old(self).misses < u64::MAX,
        ensures
            ({
                let line = old(self).lines@[line_of(addr)];
                if !old(self).enabled {
                    r.is_none() && *final(self) == *old(self)
                } else if line.valid && line.tag == addr >> 12u32 {
                    &&& r == Some(line.data@[word_of(addr)])
                    &&& final(self).hits == old(self).hits + 1
                    &&& final(self).misses == old(self).misses
                    &&& final(self).lines@ == old(self).lines@.update(line_of(addr), CacheLine { lru: 0, ..line })
                } else {
                    &&& r.is_none()
                    &&& final(self).misses == old(self).misses + 1
                    &&& final(self).hits == old(self).hits
                    &&& final(self).lines@ == old(self).lines@
                }
            }),
            final(self).enabled == old(self).enabled,
            final(self).isolated == old(self).isolated,
    {
        if !self.enabled {
            return None;
        }
        let index = Self::line_index(addr);
        let offset = Self::word_offset(addr);
        let mut line = self.lines[index];
        if line.matches(addr) {
            self.hits = self.hits + 1;
            line.lru = 0;
            self.lines.set(index, line);
            Some(line.data[offset])
        } else {
            self.misses = self.misses + 1;
            None
        }
    }

    /// Fill the line that holds `addr` with `data`, unless the cache is off or isolated.
    pub fn fill(&mut self, addr: u32, data: [u32; 4])
        ensures
            !old(self).enabled || old(self).isolated ==> *final(self) == *old(self),
            old(self).enabled && !old(self).isolated ==> final(self).lines@ == old(self).lines@.update(
                line_of(addr),
                CacheLine { tag: addr >> 12u32, valid: true, dirty: false, lru: 0, data: data },
            ),
            final(self).hits == old(self).hits && final(self).misses == old(self).misses,
            final(self).enabled == old(self).enabled && final(self).isolated == old(self).isolated,
    {
        if !self.enabled || self.isolated {
            return;
        }
        let index = Self::line_index(addr);
        let line = CacheLine { tag: addr >> 12, valid: true, dirty: false, lru: 0, data: data };
        self.lines.set(index, line);
    }

    /// Invalidate every line.
    pub fn invalidate(&mut self)
        ensures
            forall|i: int| 0 <= i < 256 ==> #[trigger] final(self).lines@[i] == (CacheLine {
                valid: false,
                dirty: false,
                ..old(self).lines@[i]
            }),
            final(self).hits == old(self).hits && final(self).misses == old(self).misses,
            final(self).enabled == old(self).enabled && final(self).isolated == old(self).isolated,
    {
        let mut i: usize = 0;
        while i < 256
            invariant
                i <= 256,
                self.hits == old(self).hits && self.misses == old(self).misses,
                self.enabled == old(self).enabled && self.isolated == old(self).isolated,
                forall|j: int| 0 <= j < 256 ==> #[trigger] self.lines@[j] == (if j < i {
                    CacheLine { valid: false, dirty: false, ..old(self).lines@[j] }
                } else {
                    old(self).lines@[j]
                }),
            decreases 256 - i,
        {
            let mut line = self.lines[i];
            line.invalidate();
            self.lines.set(i, line);
            i = i + 1;
        }
    }

    /// Switch the cache on or off; switching it off invalidates every line.
    pub fn set_enabled(&mut self, enabled: bool)
        ensures
            final(self).enabled == enabled,
            final(self).isolated == old(self).isolated,
            final(self).hits == old(self).hits && final(self).misses == old(self).misses,
            enabled ==> final(self).lines@ == old(self).lines@,
            !enabled ==> forall|i: int| 0 <= i < 256 ==> !(#[trigger] final(self).lines@[i]).valid,
    {
        self.enabled = enabled;
        if !enabled {
            self.invalidate();
        }
    }

    /// Set isolation: an isolated cache is not refilled.
    pub fn set_isolated(&mut self, isolated: bool)
        ensures
            *final(self) == (InstructionCache { isolated: isolated, ..*old(self) }),
    {
        self.isolated = isolated;
    }

    /// (hits, misses).
    pub fn stats(&self) -> (r: (u64, u64))
        ensures
            r == (self.hits, self.misses),
    {
        (self.hits, self.misses)
    }
}

/// After a fill of an enabled, unisolated cache, a read of the same address hits and
/// returns the filled word.
pub proof fn lemma_fill_then_read(c: InstructionCache, addr: u32, data: [u32; 4])
    requires
        c.enabled && !c.isolated,
    ensures
        ({
            let line = c.lines@.update(
                line_of(addr),
                CacheLine { tag: addr >> 12u32, valid: true, dirty: false, lru: 0, data: data },
            )[line_of(addr)];
            line.valid && line.tag == addr >> 12u32 && line.data@[word_of(addr)] == data@[word_of(addr)]
        }),
{
    crate::bits::lemma_and_le(addr >> 4u32, 0xff);
}

/// Width of a memory access.
#[derive(Debug, Clone, Copy, PartialEq, Eq, Structural)]
pub enum AccessWidth {
    Byte,
    HalfWord,
    Word,
}

/// The byte at `i` of the scratchpad, or 0 past its end.
pub open spec fn sp_byte(sp: Seq<u8>, i: int) -> u32 {
    if 0 <= i < sp.len() { sp[i] as u32 } else { 0 }
}

/// What a scratchpad read of `width` at `offset` returns.
pub open spec fn scratch_read(sp: Seq<u8>, offset: u32, width: AccessWidth) -> u32 {
    let o = (offset & 0x3ff) as int;
    match width {
        AccessWidth::Byte => sp_byte(sp, o),
        AccessWidth::HalfWord => sp_byte(sp, o) | (sp_byte(sp, o + 1) << 8u32),
        AccessWidth::Word => sp_byte(sp, o) | (sp_byte(sp, o + 1) << 8u32) | (sp_byte(sp, o + 2) << 16u32)
            | (sp_byte(sp, o + 3) << 24u32),
    }
}

/// The scratchpad after a write of `width` of `val` at `offset`: bytes past its end are
/// dropped.
pub open spec fn scratch_written(sp: Seq<u8>, offset: u32, width: AccessWidth, val: u32) -> Seq<u8> {
    let o = (offset & 0x3ff) as int;
    let n = match width {
        AccessWidth::Byte => 1int,
        AccessWidth::HalfWord => 2int,
        AccessWidth::Word => 4int,
    };
    Seq::new(sp.len(), |i: int| if o <= i < o + n { (val >> (8 * (i - o)) as u32) as u8 } else { sp[i] })
}

/// The 1KB scratchpad.
pub struct DataCache {
    pub scratchpad: [u8; 1024],
    pub enabled: bool,
}

impl DataCache {
    /// An enabled, zeroed scratchpad.
    pub fn new() -> (r: Self)
        ensures
            r.enabled,
            forall|i: int| 0 <= i < 1024 ==> #[trigger] r.scratchpad@[i] == 0,
    {
        DataCache { scratchpad: [0; 1024], enabled: true }
    }

    fn byte_at(&self, i: usize) -> (r: u32)
        ensures
            r == sp_byte(self.scratchpad@, i as int),
    {
        if i < 1024 { self.scratchpad[i] as u32 } else { 0 }
    }

    /// Read `width` bytes at `offset` (within the 1KB window), little-endian; all ones
    /// when disabled.
    pub fn read(&self, offset: u32, width: AccessWidth) -> (r: u32)
        ensures
            !self.enabled ==> r == 0xFFFFFFFF,
            self.enabled ==> r == scratch_read(self.scratchpad@, offset, width),
    {
        if !self.enabled {
            return 0xFFFFFFFF;
        }
        proof { crate::bits::lemma_and_le(offset, 0x3ff); }
        let o = (offset & 0x3FF) as usize;
        match width {
            AccessWidth::Byte => self.byte_at(o),
            AccessWidth::HalfWord => self.byte_at(o) | (self.byte_at(o + 1) << 8),
            AccessWidth::Word => self.byte_at(o) | (self.byte_at(o + 1) << 8) | (self.byte_at(o + 2) << 16)
                | (self.byte_at(o + 3) << 24),
        }
    }

    /// Write the low `width` bytes of `val` at `offset`, little-endian; nothing when disabled.
    pub fn write(&mut self, offset: u32, width: AccessWidth, val: u32)
        ensures
            !old(self).enabled ==> *final(self) == *old(self),
            old(self).enabled ==> final(self).scratchpad@ == scratch_written(old(self).scratchpad@, offset, width, val),
            final(self).enabled == old(self).enabled,
    {
        if !self.enabled {
            return;
        }
        proof { crate::bits::lemma_and_le(offset, 0x3ff); }
        let o = (offset & 0x3FF) as usize;
        let n: usize = match width {
            AccessWidth::Byte => 1,
            AccessWidth::HalfWord => 2,
            AccessWidth::Word => 4,
        };
        let ghost old_sp = self.scratchpad@;
        let mut i: usize = 0;
        while i < n
            invariant
                n <= 4,
                o < 1024,
                i <= n,
                self.enabled,
                self.scratchpad@.len() == 1024,
                forall|j: int| 0 <= j < 1024 ==> #[trigger] self.scratchpad@[j] == (
                    if o <= j < o + i { (val >> (8 * (j - o)) as u32) as u8 } else { old_sp[j] }),
            decreases n - i,
        {
            if o + i < 1024 {
                let shift = (i * 8) as u32;
                self.scratchpad.set(o + i, (val >> shift) as u8);
            }
            i = i + 1;
        }
        assert(self.scratchpad@ =~= scratch_written(old_sp, offset, width, val));
    }

    /// Switch the scratchpad on or off.
    pub fn set_enabled(&mut self, enabled: bool)
        ensures
            *final(self) == (DataCache { enabled: enabled, ..*old(self) }),
    {
        self.enabled = enabled;
    }
}

/// Instruction cache, scratchpad and control register together.
pub struct CacheSystem {
    pub icache: InstructionCache,
    pub dcache: DataCache,
    pub control: CacheControl,
}

impl CacheSystem {
    /// Both caches at reset.
    pub fn new() -> (r: Self)
        ensures
            r.control == CacheControl::new_spec(),
            r.icache.enabled && !r.icache.isolated && r.dcache.enabled,
            forall|i: int| 0 <= i < 256 ==> !(#[trigger] r.icache.lines@[i]).valid,
    {
        CacheSystem { icache: InstructionCache::new(), dcache: DataCache::new(), control: CacheControl::new() }
    }

    /// Write the control register: a rising invalidate bit clears the instruction cache,
    /// and the enable, isolation and scratchpad bits take effect.
    pub fn set_control(&mut self, value: u32)
        ensures
            final(self).control == control_of(value),
            final(self).icache.enabled == bit_set(value, 0x0001),
            final(self).icache.isolated == bit_set(value, 0x0040),
            final(self).dcache == (DataCache { enabled: bit_set(value, 0x0080), ..old(self).dcache }),
            (bit_set(value, 0x0008) && !old(self).control.invalidate_icache) || !bit_set(value, 0x0001) ==>
                forall|i: int| 0 <= i < 256 ==> !(#[trigger] final(self).icache.lines@[i]).valid,
            !(bit_set(value, 0x0008) && !old(self).control.invalidate_icache) && bit_set(value, 0x0001) ==>
                final(self).icache.lines@ == old(self).icache.lines@,
    {
        let new_control = CacheControl::from_u32(value);
        if new_control.invalidate_icache && !self.control.invalidate_icache {
            self.icache.invalidate();
        }
        self.icache.set_enabled(new_control.icache_enable);
        self.icache.set_isolated(new_control.cache_isolated);
        self.dcache.set_enabled(new_control.scratchpad_enable);
        self.control = new_control;
    }

    /// The control register's value.
    pub fn control(&self) -> (r: u32)
        ensures
            r == control_word(self.control),
    {
        self.control.to_u32()
    }

    /// Tag test: in tag-test mode, the tag of the line holding `addr` shifted up, with the
    /// valid bit in bit 0; otherwise 0.
    pub fn tag_test(&self, addr: u32) -> (r: u32)
        ensures
            !self.control.tag_test_mode ==> r == 0,
            self.control.tag_test_mode ==> r == ((self.icache.lines@[line_of(addr)].tag << 12u32)
                | (if self.icache.lines@[line_of(addr)].valid { 1u32 } else { 0u32 })),
    {
        if !self.control.tag_test_mode {
            return 0;
        }
        let index = InstructionCache::line_index(addr);
        let line = self.icache.lines[index];
        (line.tag << 12) | (if line.valid { 1u32 } else { 0u32 })
    }
}

impl CacheControl {
    /// The reset value of the control register.
    pub open spec fn new_spec() -> CacheControl {
        CacheControl {
            icache_enable: false,
            dcache_enable: false,
            tag_test_mode: false,
            invalidate_icache: false,
            load_icache: false,
            cache_lock: false,
            cache_isolated: false,
            scratchpad_enable: true,
            write_through: false,
            burst_mode: false,
            raw: 0,
        }
    }
}

} // verus!
