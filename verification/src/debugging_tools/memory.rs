//! Memory inspection: named watches with a bounded history of value changes, address
//! breakpoints with access conditions, a bounded access log, and value search over main
//! RAM that can be narrowed step by step.
//!
//! Memory is read from an image of main RAM (2 MiB, the size the search range covers);
//! an address selects its byte by its low 21 bits, so every RAM mirror reads the same.

use vstd::prelude::*;
use vstd::string::StringExecFns;
use std::collections::VecDeque;

verus! {

/// Bytes of main RAM.
pub const RAM_BYTES: usize = 0x20_0000;

/// Width of a watched value.
#[derive(Debug, Clone, Copy, PartialEq, Eq, Structural)]
pub enum WatchSize {
    Byte,
    Half,
    Word,
}

/// Width of a searched value.
#[derive(Debug, Clone, Copy, PartialEq, Eq, Structural)]
pub enum SearchSize {
    Byte,
    Half,
    Word,
}

/// The number of bytes of a search width.
pub open spec fn size_bytes(s: SearchSize) -> nat {
    match s {
        SearchSize::Byte => 1,
        SearchSize::Half => 2,
        SearchSize::Word => 4,
    }
}

impl SearchSize {
    /// The number of bytes.
    pub fn bytes(&self) -> (r: usize)
        ensures
            r == size_bytes(*self),
    {
        match self {
            SearchSize::Byte => 1,
            SearchSize::Half => 2,
            SearchSize::Word => 4,
        }
    }
}

/// The search width of the same size as a watch width.
pub open spec fn watch_search_size(w: WatchSize) -> SearchSize {
    match w {
        WatchSize::Byte => SearchSize::Byte,
        WatchSize::Half => SearchSize::Half,
        WatchSize::Word => SearchSize::Word,
    }
}

/// The RAM byte at offset `i` (taken modulo the RAM size).
pub open spec fn ram_byte(ram: Seq<u8>, i: int) -> int {
    ram[i % (RAM_BYTES as int)] as int
}

/// The little-endian value of `size` bytes at `addr`.
pub open spec fn ram_read(ram: Seq<u8>, addr: u32, size: SearchSize) -> u32 {
    let i = (addr % (RAM_BYTES as u32)) as int;
    match size {
        SearchSize::Byte => ram_byte(ram, i) as u32,
        SearchSize::Half => (ram_byte(ram, i) + ram_byte(ram, i + 1) * 0x100) as u32,
        SearchSize::Word => (ram_byte(ram, i) + ram_byte(ram, i + 1) * 0x100 + ram_byte(ram, i + 2) * 0x1_0000
            + ram_byte(ram, i + 3) * 0x100_0000) as u32,
    }
}

/// Read `size` bytes at `addr` from the RAM image.
pub fn read_ram(ram: &[u8], addr: u32, size: SearchSize) -> (r: u32)
    requires
        ram@.len() == RAM_BYTES,
    ensures
        r == ram_read(ram@, addr, size),
{
    let i = (addr % (RAM_BYTES as u32)) as usize;
    let b0 = ram[i] as u32;
    match size {
        SearchSize::Byte => b0,
        SearchSize::Half => {
            let b1 = ram[(i + 1) % RAM_BYTES] as u32;
            b0 + b1 * 0x100
        },
        SearchSize::Word => {
            let b1 = ram[(i + 1) % RAM_BYTES] as u32;
            let b2 = ram[(i + 2) % RAM_BYTES] as u32;
            let b3 = ram[(i + 3) % RAM_BYTES] as u32;
            b0 + b1 * 0x100 + b2 * 0x1_0000 + b3 * 0x100_0000
        },
    }
}

/// A named watch on a memory location.
pub struct MemoryWatch {
    pub name: String,
    pub address: u32,
    pub size: WatchSize,
    /// (cycle, value) of the latest changes, oldest first, at most 100.
    pub history: VecDeque<(u64, u32)>,
    pub last_value: u32,
}

/// When a breakpoint fires.
#[derive(Debug, Clone, Copy, PartialEq, Eq, Structural)]
pub enum BreakCondition {
    Read,
    Write,
    ReadWrite,
    ValueEqual(u32),
    ValueChanged,
}

/// A breakpoint on an address.
#[derive(Debug, Clone, Copy, PartialEq, Eq, Structural)]
pub struct MemoryBreakpoint {
    pub address: u32,
    pub condition: BreakCondition,
    pub hit_count: u32,
    pub enabled: bool,
}

/// One logged memory access.
#[derive(Debug, Clone, Copy, PartialEq, Eq, Structural)]
pub struct MemoryAccess {
    pub address: u32,
    pub value: u32,
    pub is_write: bool,
    pub pc: u32,
    pub cycle: u64,
}

/// The memory map shown by the inspector.
#[derive(Debug, Clone, Copy, PartialEq, Eq, Structural)]
pub struct MemoryMap;

impl MemoryMap {
    pub fn new() -> (r: Self) {
        MemoryMap
    }
}

/// The inspector.
pub struct MemoryInspector {
    pub watches: Vec<MemoryWatch>,
    pub breakpoints: Vec<MemoryBreakpoint>,
    /// The latest accesses, oldest first, at most 10000.
    pub access_log: VecDeque<MemoryAccess>,
    pub search_results: Vec<u32>,
    pub memory_map: MemoryMap,
}

/// The value the inspector compares against for "value changed" breakpoints: it keeps no
/// per-address history, so every address counts as having held 0.
pub open spec fn last_value_of(address: u32) -> u32 {
    0
}

/// Whether breakpoint `bp` fires on an access of `value` at `address`.
pub open spec fn fires(bp: MemoryBreakpoint, address: u32, value: u32, is_write: bool) -> bool {
    &&& bp.enabled
    &&& bp.address == address
    &&& match bp.condition {
        BreakCondition::Read => !is_write,
        BreakCondition::Write => is_write,
        BreakCondition::ReadWrite => true,
        BreakCondition::ValueEqual(v) => value == v,
        BreakCondition::ValueChanged => value != last_value_of(address),
    }
}

/// The address of search step `j`.
pub open spec fn search_addr(size: SearchSize, j: int) -> u32 {
    (0x8000_0000 + j * size_bytes(size)) as u32
}

/// The number of search steps over main RAM.
pub open spec fn search_steps(size: SearchSize) -> nat {
    (RAM_BYTES as nat) / size_bytes(size)
}

/// The addresses among the first `n` search steps that hold `value`, in address order.
pub open spec fn hits(ram: Seq<u8>, value: u32, size: SearchSize, n: nat) -> Seq<u32>
    decreases n,
{
    if n == 0 {
        Seq::empty()
    } else {
        let a = search_addr(size, n - 1);
        hits(ram, value, size, (n - 1) as nat) + if ram_read(ram, a, size) == value { seq![a] } else { Seq::empty() }
    }
}

/// The addresses of `s` that hold `value`, in order.
pub open spec fn keep_matching(ram: Seq<u8>, value: u32, size: SearchSize, s: Seq<u32>) -> Seq<u32>
    decreases s.len(),
{
    if s.len() == 0 {
        Seq::empty()
    } else {
        keep_matching(ram, value, size, s.drop_last()) + if ram_read(ram, s.last(), size) == value {
            seq![s.last()]
        } else {
            Seq::empty()
        }
    }
}

/// Every address that a search keeps holds the value searched for.
pub proof fn lemma_hits_hold_value(ram: Seq<u8>, value: u32, size: SearchSize, n: nat)
    ensures
        forall|k: int| 0 <= k < hits(ram, value, size, n).len() ==> ram_read(ram, #[trigger] hits(ram, value, size, n)[k], size) == value,
    decreases n,
{
    if n > 0 {
        lemma_hits_hold_value(ram, value, size, (n - 1) as nat);
        let prev = hits(ram, value, size, (n - 1) as nat);
        assert forall|k: int| 0 <= k < hits(ram, value, size, n).len() implies ram_read(ram, #[trigger] hits(ram, value, size, n)[k], size) == value by {
            if k < prev.len() {
                assert(hits(ram, value, size, n)[k] == prev[k]);
            }
        }
    }
}

/// The addresses of the first `n` search steps, in order.
pub open spec fn search_addrs(size: SearchSize, n: nat) -> Seq<u32> {
    Seq::new(n, |j: int| search_addr(size, j))
}

/// A search keeps exactly the step addresses that hold the value, in the order of the
/// steps; over main RAM the step addresses rise strictly, so the results do too and
/// none occurs twice.
pub proof fn lemma_hits_are_filter(ram: Seq<u8>, value: u32, size: SearchSize, n: nat)
    requires
        n <= search_steps(size),
    ensures
        hits(ram, value, size, n) == search_addrs(size, n).filter(|a: u32| ram_read(ram, a, size) == value),
        forall|i: int, j: int| 0 <= i < j < n ==> search_addr(size, i) < search_addr(size, j),
    decreases n,
{
    reveal(Seq::filter);
    let pred = |a: u32| ram_read(ram, a, size) == value;
    if n == 0 {
        assert(search_addrs(size, 0) =~= Seq::<u32>::empty());
    } else {
        lemma_hits_are_filter(ram, value, size, (n - 1) as nat);
        assert(search_addrs(size, n).drop_last() =~= search_addrs(size, (n - 1) as nat));
        assert(search_addrs(size, n).last() == search_addr(size, n - 1));
        let prev = search_addrs(size, (n - 1) as nat).filter(pred);
        assert(search_addrs(size, n).filter(pred) == (if pred(search_addr(size, n - 1)) { prev.push(search_addr(size, n - 1)) } else { prev }));
        assert(hits(ram, value, size, n) =~= search_addrs(size, n).filter(pred));
    }
    assert forall|i: int, j: int| 0 <= i < j < n implies search_addr(size, i) < search_addr(size, j) by {
        let b = size_bytes(size) as int;
        assert(1 <= b <= 4);
        assert(j * b < 0x20_0000) by (nonlinear_arith)
            requires j < n, n <= 0x20_0000int / b, 1 <= b <= 4;
        assert(i * b < j * b) by (nonlinear_arith)
            requires 0 <= i < j, b >= 1;
    }
}

/// Every address that a refinement keeps was a previous result and holds the value.
pub proof fn lemma_refined_hold_value(ram: Seq<u8>, value: u32, size: SearchSize, s: Seq<u32>)
    ensures
        forall|k: int| 0 <= k < keep_matching(ram, value, size, s).len() ==> ram_read(ram, #[trigger] keep_matching(ram, value, size, s)[k], size) == value,
        forall|k: int| 0 <= k < keep_matching(ram, value, size, s).len() ==> s.contains(#[trigger] keep_matching(ram, value, size, s)[k]),
    decreases s.len(),
{
    if s.len() > 0 {
        lemma_refined_hold_value(ram, value, size, s.drop_last());
        let prev = keep_matching(ram, value, size, s.drop_last());
        assert forall|k: int| 0 <= k < keep_matching(ram, value, size, s).len() implies s.contains(#[trigger] keep_matching(ram, value, size, s)[k]) by {
            if k < prev.len() {
                assert(s.drop_last().contains(prev[k]));
                let j = choose|j: int| 0 <= j < s.drop_last().len() && s.drop_last()[j] == prev[k];
                assert(s[j] == prev[k]);
            } else {
                assert(s[s.len() - 1] == s.last());
            }
        }
    }
}

/// Refining twice with the same RAM, value and size keeps what the first refinement
/// kept.
pub proof fn lemma_refine_idempotent(ram: Seq<u8>, value: u32, size: SearchSize, s: Seq<u32>)
    ensures
        keep_matching(ram, value, size, keep_matching(ram, value, size, s)) == keep_matching(ram, value, size, s),
    decreases s.len(),
{
    if s.len() > 0 {
        let prev = keep_matching(ram, value, size, s.drop_last());
        lemma_refine_idempotent(ram, value, size, s.drop_last());
        if ram_read(ram, s.last(), size) == value {
            let k = prev.push(s.last());
            assert(keep_matching(ram, value, size, s) =~= k);
            assert(k.drop_last() =~= prev);
        } else {
            assert(keep_matching(ram, value, size, s) =~= prev);
        }
    }
}

/// The text of the memory map.
pub open spec fn memory_map_text() -> Seq<char> {
    "PlayStation Memory Map:\n┌─────────────┬──────────────────────────┐\n│   Address   │       Description        │\n├─────────────┼──────────────────────────┤\n│ 0x00000000  │ Kernel (64KB)            │\n│ 0x80000000  │ Main RAM (2MB)           │\n│ 0x1F000000  │ Expansion Region 1       │\n│ 0x1F800000  │ Scratchpad (1KB)         │\n│ 0x1F801000  │ Hardware Registers       │\n│ 0x1FC00000  │ BIOS ROM (512KB)         │\n│ 0xFFFE0000  │ Cache Control            │\n└─────────────┴──────────────────────────┘\n"@
}

impl MemoryInspector {
    /// No watches, breakpoints, log or search results.
    pub fn new() -> (r: Self)
        ensures
            r.watches@.len() == 0,
            r.breakpoints@.len() == 0,
            r.access_log@.len() == 0,
            r.search_results@.len() == 0,
    {
        MemoryInspector {
            watches: Vec::new(),
            breakpoints: Vec::new(),
            access_log: VecDeque::new(),
            search_results: Vec::new(),
            memory_map: MemoryMap::new(),
        }
    }

    /// Watch `size` bytes at `address` under `name`.
    pub fn add_watch(&mut self, name: &str, address: u32, size: WatchSize)
        ensures
            final(self).watches@.len() == old(self).watches@.len() + 1,
            forall|i: int| 0 <= i < old(self).watches@.len() ==> final(self).watches@[i] == old(self).watches@[i],
            ({
                let w = final(self).watches@.last();
                &&& w.name@ == name@
                &&& w.address == address
                &&& w.size == size
                &&& w.history@.len() == 0
                &&& w.last_value == 0
            }),
            *final(self) == (MemoryInspector { watches: final(self).watches, ..*old(self) }),
    {
        self.watches.push(MemoryWatch {
            name: String::from_str(name),
            address,
            size,
            history: VecDeque::new(),
            last_value: 0,
        });
    }

    /// Add an enabled breakpoint at `address`.
    pub fn set_breakpoint(&mut self, address: u32, condition: BreakCondition)
        ensures
            final(self).breakpoints@ == old(self).breakpoints@.push(MemoryBreakpoint {
                address,
                condition,
                hit_count: 0,
                enabled: true,
            }),
            *final(self) == (MemoryInspector { breakpoints: final(self).breakpoints, ..*old(self) }),
    {
        self.breakpoints.push(MemoryBreakpoint { address, condition, hit_count: 0, enabled: true });
    }

    /// Find every address of main RAM (0x80000000 up, in steps of the value's size) that
    /// holds `value`; the results are kept for refinement.
    pub fn search_memory(&mut self, ram: &[u8], value: u32, size: SearchSize) -> (r: Vec<u32>)
        requires
            ram@.len() == RAM_BYTES,
        ensures
            r@ == hits(ram@, value, size, search_steps(size)),
            final(self).search_results@ == r@,
            *final(self) == (MemoryInspector { search_results: final(self).search_results, ..*old(self) }),
    {
        let step = size.bytes();
        let n = RAM_BYTES / step;
        let mut results: Vec<u32> = Vec::new();
        let mut j: usize = 0;
        while j < n
            invariant
                ram@.len() == RAM_BYTES,
                step == size_bytes(size),
                n == search_steps(size),
                j <= n,
                results@ == hits(ram@, value, size, j as nat),
            decreases n - j,
        {
            assert(j * step < RAM_BYTES) by (nonlinear_arith)
                requires
                    j < n,
                    n == RAM_BYTES / step,
                    1 <= step <= 4,
            ;
            let addr = (0x8000_0000u32 + (j * step) as u32);
            assert(addr == search_addr(size, j as int));
            let v = read_ram(ram, addr, size);
            if v == value {
                results.push(addr);
            }
            j = j + 1;
            assert(results@ =~= hits(ram@, value, size, j as nat));
        }
        self.search_results = results.clone();
        results
    }

    /// Keep only the previous results that now hold `value`.
    pub fn refine_search(&mut self, ram: &[u8], value: u32, size: SearchSize) -> (r: Vec<u32>)
        requires
            ram@.len() == RAM_BYTES,
        ensures
            r@ == keep_matching(ram@, value, size, old(self).search_results@),
            final(self).search_results@ == r@,
            *final(self) == (MemoryInspector { search_results: final(self).search_results, ..*old(self) }),
    {
        let mut kept: Vec<u32> = Vec::new();
        let mut k: usize = 0;
        let ghost s = self.search_results@;
        while k < self.search_results.len()
            invariant
                ram@.len() == RAM_BYTES,
                s == self.search_results@,
                k <= s.len(),
                kept@ == keep_matching(ram@, value, size, s.take(k as int)),
            decreases s.len() - k,
        {
            let addr = self.search_results[k];
            let v = read_ram(ram, addr, size);
            if v == value {
                kept.push(addr);
            }
            k = k + 1;
            assert(s.take(k as int).drop_last() =~= s.take(k - 1));
            assert(kept@ =~= keep_matching(ram@, value, size, s.take(k as int)));
        }
        assert(s.take(s.len() as int) =~= s);
        self.search_results = kept.clone();
        kept
    }

    /// Report an access to the breakpoints: the first enabled breakpoint on `address`
    /// whose condition holds counts a hit, and `true` is returned.
    pub fn check_breakpoints(&mut self, address: u32, value: u32, is_write: bool) -> (r: bool)
        requires
            forall|k: int|
                0 <= k < old(self).breakpoints@.len() && fires(#[trigger] old(self).breakpoints@[k], address, value, is_write)
                    && (forall|j: int| 0 <= j < k ==> !fires(#[trigger] old(self).breakpoints@[j], address, value, is_write))
                    ==> old(self).breakpoints@[k].hit_count < u32::MAX,
        ensures
            r ==> exists|k: int| {
                &&& 0 <= k < old(self).breakpoints@.len()
                &&& fires(old(self).breakpoints@[k], address, value, is_write)
                &&& forall|j: int| 0 <= j < k ==> !fires(#[trigger] old(self).breakpoints@[j], address, value, is_write)
                &&& final(self).breakpoints@ == old(self).breakpoints@.update(k, MemoryBreakpoint {
                    hit_count: (old(self).breakpoints@[k].hit_count + 1) as u32,
                    ..old(self).breakpoints@[k]
                })
            },
            !r ==> forall|j: int| 0 <= j < old(self).breakpoints@.len() ==> !fires(#[trigger] old(self).breakpoints@[j], address, value, is_write),
            !r ==> final(self).breakpoints@ == old(self).breakpoints@,
            *final(self) == (MemoryInspector { breakpoints: final(self).breakpoints, ..*old(self) }),
    {
        let mut i: usize = 0;
        while i < self.breakpoints.len()
            invariant
                forall|k: int|
                    0 <= k < old(self).breakpoints@.len() && fires(#[trigger] old(self).breakpoints@[k], address, value, is_write)
                        && (forall|j: int| 0 <= j < k ==> !fires(#[trigger] old(self).breakpoints@[j], address, value, is_write))
                        ==> old(self).breakpoints@[k].hit_count < u32::MAX,
                self.breakpoints@ == old(self).breakpoints@,
                *self == (MemoryInspector { breakpoints: self.breakpoints, ..*old(self) }),
                i <= self.breakpoints@.len(),
                forall|j: int| 0 <= j < i ==> !fires(#[trigger] old(self).breakpoints@[j], address, value, is_write),
            decreases self.breakpoints@.len() - i,
        {
            let bp = self.breakpoints[i];
            if bp.enabled && bp.address == address {
                let triggered = match bp.condition {
                    BreakCondition::Read => !is_write,
                    BreakCondition::Write => is_write,
                    BreakCondition::ReadWrite => true,
                    BreakCondition::ValueEqual(v) => value == v,
                    BreakCondition::ValueChanged => value != self.get_last_value(address),
                };
                if triggered {
                    self.breakpoints.set(i, MemoryBreakpoint { hit_count: bp.hit_count + 1, ..bp });
                    return true;
                }
            }
            i = i + 1;
        }
        false
    }

    /// Read every watch and record each change with the cycle it was seen at, keeping
    /// the latest 100.
    pub fn update_watches(&mut self, ram: &[u8], cycle: u64)
        requires
            ram@.len() == RAM_BYTES,
        ensures
            final(self).watches@.len() == old(self).watches@.len(),
            forall|i: int| 0 <= i < old(self).watches@.len() ==> {
                let w = #[trigger] old(self).watches@[i];
                let nw = final(self).watches@[i];
                let v = ram_read(ram@, w.address, watch_search_size(w.size));
                &&& nw.name == w.name && nw.address == w.address && nw.size == w.size
                &&& nw.last_value == v
                &&& v == w.last_value ==> nw.history@ == w.history@
                &&& v != w.last_value ==> nw.history@ == (if w.history@.len() + 1 > 100 {
                    w.history@.push((cycle, v)).drop_first()
                } else {
                    w.history@.push((cycle, v))
                })
            },
            *final(self) == (MemoryInspector { watches: final(self).watches, ..*old(self) }),
    {
        let mut rest: Vec<MemoryWatch> = Vec::new();
        std::mem::swap(&mut rest, &mut self.watches);
        let ghost old_watches = rest@;
        let n0 = rest.len();
        let mut k: usize = 0;
        while rest.len() > 0
            invariant
                ram@.len() == RAM_BYTES,
                old_watches == old(self).watches@,
                old_watches.len() == n0,
                k + rest@.len() == old_watches.len(),
                rest@ == old_watches.skip(k as int),
                self.watches@.len() == k,
                *self == (MemoryInspector { watches: self.watches, ..*old(self) }),
                forall|i: int| 0 <= i < k ==> {
                    let w = #[trigger] old_watches[i];
                    let nw = self.watches@[i];
                    let v = ram_read(ram@, w.address, watch_search_size(w.size));
                    &&& nw.name == w.name && nw.address == w.address && nw.size == w.size
                    &&& nw.last_value == v
                    &&& v == w.last_value ==> nw.history@ == w.history@
                    &&& v != w.last_value ==> nw.history@ == (if w.history@.len() + 1 > 100 {
                        w.history@.push((cycle, v)).drop_first()
                    } else {
                        w.history@.push((cycle, v))
                    })
                },
            decreases rest@.len(),
        {
            let mut w = rest.remove(0);
            assert(w == old_watches[k as int]);
            let size = match w.size {
                WatchSize::Byte => SearchSize::Byte,
                WatchSize::Half => SearchSize::Half,
                WatchSize::Word => SearchSize::Word,
            };
            let value = read_ram(ram, w.address, size);
            if value != w.last_value {
                w.history.push_back((cycle, value));
                if w.history.len() > 100 {
                    w.history.pop_front();
                }
                w.last_value = value;
            }
            self.watches.push(w);
            k = k + 1;
            assert(rest@ =~= old_watches.skip(k as int));
        }
    }

    /// Log an access, keeping the latest 10000.
    pub fn log_access(&mut self, access: MemoryAccess)
        ensures
            final(self).access_log@ == (if old(self).access_log@.len() + 1 > 10000 {
                old(self).access_log@.push(access).drop_first()
            } else {
                old(self).access_log@.push(access)
            }),
            *final(self) == (MemoryInspector { access_log: final(self).access_log, ..*old(self) }),
    {
        self.access_log.push_back(access);
        if self.access_log.len() > 10000 {
            self.access_log.pop_front();
        }
    }

    /// The memory map as a table.
    pub fn visualize_memory_map(&self) -> (r: String)
        ensures
            r@ == memory_map_text(),
    {
        String::from_str(
            "PlayStation Memory Map:\n┌─────────────┬──────────────────────────┐\n│   Address   │       Description        │\n├─────────────┼──────────────────────────┤\n│ 0x00000000  │ Kernel (64KB)            │\n│ 0x80000000  │ Main RAM (2MB)           │\n│ 0x1F000000  │ Expansion Region 1       │\n│ 0x1F800000  │ Scratchpad (1KB)         │\n│ 0x1F801000  │ Hardware Registers       │\n│ 0x1FC00000  │ BIOS ROM (512KB)         │\n│ 0xFFFE0000  │ Cache Control            │\n└─────────────┴──────────────────────────┘\n",
        )
    }

    /// The value that "value changed" breakpoints compare against.
    pub fn get_last_value(&self, address: u32) -> (r: u32)
        ensures
            r == last_value_of(address),
    {
        0
    }
}

} // verus!
