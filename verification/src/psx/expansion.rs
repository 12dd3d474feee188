//! The expansion port: parallel port, development cartridges, cheat devices and RAM
//! expansions.

use vstd::prelude::*;
use std::collections::HashMap;
use super::cache::AccessWidth;
use crate::psx_complete::Psx;
use vstd::std_specs::iter::IteratorSpec;

verus! {

broadcast use vstd::std_specs::hash::group_hash_axioms;

/// The device on the expansion port.
#[derive(Debug, Clone, Copy, PartialEq, Eq, Structural)]
pub enum ExpansionDevice {
    NoDevice,
    ParallelPort,
    DevelopmentCart,
    ActionReplay,
    GameShark,
    RamExpansion,
}

/// The expansion port controller.
pub struct ExpansionPort {
    pub device: ExpansionDevice,
    pub device_memory: Vec<u8>,
    pub parallel_data: u8,
    pub parallel_status: u8,
    pub parallel_control: u8,
    pub dev_cart_rom: Option<Vec<u8>>,
    pub cheat_codes: HashMap<u32, u32>,
}

/// Byte `i` of `s`, or 0 past its end.
pub open spec fn pad_byte(s: Seq<u8>, i: int) -> u32 {
    if 0 <= i < s.len() { s[i] as u32 } else { 0 }
}

/// The number of bytes of an access.
pub open spec fn width_bytes(w: AccessWidth) -> int {
    match w {
        AccessWidth::Byte => 1,
        AccessWidth::HalfWord => 2,
        AccessWidth::Word => 4,
    }
}

/// A little-endian read of `width` bytes of `s` at `o`, missing bytes read as 0.
pub open spec fn le_read(s: Seq<u8>, o: int, width: AccessWidth) -> u32 {
    match width {
        AccessWidth::Byte => pad_byte(s, o),
        AccessWidth::HalfWord => pad_byte(s, o) | (pad_byte(s, o + 1) << 8u32),
        AccessWidth::Word => pad_byte(s, o) | (pad_byte(s, o + 1) << 8u32) | (pad_byte(s, o + 2) << 16u32)
            | (pad_byte(s, o + 3) << 24u32),
    }
}

/// `s` after a little-endian write of the low `width` bytes of `val` at `o`; bytes past
/// its end are dropped.
pub open spec fn le_written(s: Seq<u8>, o: int, width: AccessWidth, val: u32) -> Seq<u8> {
    Seq::new(s.len(), |i: int| if o <= i < o + width_bytes(width) { (val >> (8 * (i - o)) as u32) as u8 } else { s[i] })
}

/// What a read of `width` at `offset` returns from `port`.
pub open spec fn port_read(port: ExpansionPort, offset: u32, width: AccessWidth) -> u32 {
    let mem = port.device_memory@;
    match port.device {
        ExpansionDevice::NoDevice => 0xFFFFFFFF,
        ExpansionDevice::ParallelPort => {
            let r = offset & 0xf;
            if r == 0 {
                port.parallel_data as u32
            } else if r == 4 {
                port.parallel_status as u32
            } else if r == 8 {
                port.parallel_control as u32
            } else {
                0xFFFFFFFF
            }
        },
        ExpansionDevice::DevelopmentCart => match port.dev_cart_rom {
            Some(rom) => if offset < rom@.len() { le_read(rom@, offset as int, width) } else { 0xFFFFFFFF },
            None => 0xFFFFFFFF,
        },
        ExpansionDevice::ActionReplay | ExpansionDevice::GameShark => {
            if offset < mem.len() { le_read(mem, offset as int, width) } else { 0xFFFFFFFF }
        },
        ExpansionDevice::RamExpansion => {
            if offset < mem.len() { le_read(mem, offset as int, width) } else { 0 }
        },
    }
}

/// Whether a read of `width` at `offset` stays inside a cheat device's memory, which it
/// reads without padding.
pub open spec fn port_read_ok(port: ExpansionPort, offset: u32, width: AccessWidth) -> bool {
    (port.device == ExpansionDevice::ActionReplay || port.device == ExpansionDevice::GameShark)
        && offset < port.device_memory@.len() ==> offset + width_bytes(width) <= port.device_memory@.len()
}

fn byte_or_zero(s: &Vec<u8>, o: usize, k: usize) -> (r: u32)
    requires
        o < s@.len(),
        k < 4,
    ensures
        r == pad_byte(s@, o + k),
{
    if k < s.len() - o { s[o + k] as u32 } else { 0 }
}

fn read_le(s: &Vec<u8>, o: usize, width: AccessWidth) -> (r: u32)
    requires
        o < s@.len(),
    ensures
        r == le_read(s@, o as int, width),
{
    match width {
        AccessWidth::Byte => byte_or_zero(s, o, 0),
        AccessWidth::HalfWord => byte_or_zero(s, o, 0) | (byte_or_zero(s, o, 1) << 8),
        AccessWidth::Word => byte_or_zero(s, o, 0) | (byte_or_zero(s, o, 1) << 8) | (byte_or_zero(s, o, 2) << 16)
            | (byte_or_zero(s, o, 3) << 24),
    }
}

fn write_le(s: &mut Vec<u8>, o: usize, width: AccessWidth, val: u32)
    requires
        o < old(s)@.len(),
    ensures
        final(s)@ == le_written(old(s)@, o as int, width, val),
{
    let n: usize = match width {
        AccessWidth::Byte => 1,
        AccessWidth::HalfWord => 2,
        AccessWidth::Word => 4,
    };
    let mut i: usize = 0;
    while i < n
        invariant
            n == width_bytes(width),
            i <= n,
            o < s@.len(),
            s@.len() == old(s)@.len(),
            forall|j: int| 0 <= j < s@.len() ==> #[trigger] s@[j] == (
                if o <= j < o + i { (val >> (8 * (j - o)) as u32) as u8 } else { old(s)@[j] }),
        decreases n - i,
    {
        if i < s.len() - o {
            let shift = (i * 8) as u32;
            s.set(o + i, (val >> shift) as u8);
        }
        i = i + 1;
    }
    assert(s@ =~= le_written(old(s)@, o as int, width, val));
}

impl ExpansionPort {
    /// Nothing connected, 512KB of device space, parallel port ready.
    pub fn new() -> (r: Self)
        ensures
            r.device == ExpansionDevice::NoDevice,
            r.device_memory@.len() == 0x80000,
            forall|i: int| 0 <= i < 0x80000 ==> #[trigger] r.device_memory@[i] == 0,
            r.parallel_data == 0 && r.parallel_status == 0x80 && r.parallel_control == 0,
            r.dev_cart_rom.is_none(),
            r.cheat_codes@ == Map::<u32, u32>::empty(),
    {
        ExpansionPort {
            device: ExpansionDevice::NoDevice,
            device_memory: vec![0; 0x80000],
            parallel_data: 0,
            parallel_status: 0x80,
            parallel_control: 0,
            dev_cart_rom: None,
            cheat_codes: HashMap::new(),
        }
    }

    /// Connect `device`: a parallel port comes up ready, a RAM expansion brings the
    /// device space to 2MB.
    pub fn connect_device(&mut self, device: ExpansionDevice)
        ensures
            final(self).device == device,
            device == ExpansionDevice::ParallelPort ==> final(self).parallel_status == 0x80,
            device != ExpansionDevice::ParallelPort ==> final(self).parallel_status == old(self).parallel_status,
            device == ExpansionDevice::RamExpansion ==> {
                &&& final(self).device_memory@.len() == 0x200000
                &&& forall|i: int| 0 <= i < 0x200000 ==> #[trigger] final(self).device_memory@[i] == (
                    if i < old(self).device_memory@.len() { old(self).device_memory@[i] } else { 0 })
            },
            device != ExpansionDevice::RamExpansion ==> final(self).device_memory@ == old(self).device_memory@,
            final(self).parallel_data == old(self).parallel_data,
            final(self).parallel_control == old(self).parallel_control,
            final(self).dev_cart_rom == old(self).dev_cart_rom,
            final(self).cheat_codes@ == old(self).cheat_codes@,
    {
        self.device = device;
        match device {
            ExpansionDevice::ParallelPort => {
                self.parallel_status = 0x80;
            },
            ExpansionDevice::RamExpansion => {
                let ghost before = self.device_memory@;
                if self.device_memory.len() > 0x200000 {
                    self.device_memory.truncate(0x200000);
                }
                let ghost pre = *self;
                while self.device_memory.len() < 0x200000
                    invariant
                        *self == (ExpansionPort { device_memory: self.device_memory, ..pre }),
                        self.device_memory@.len() <= 0x200000,
                        self.device_memory@.len() < 0x200000 ==> self.device_memory@.len() >= before.len(),
                        forall|i: int| 0 <= i < self.device_memory@.len() ==> #[trigger] self.device_memory@[i] == (
                            if i < before.len() { before[i] } else { 0 }),
                    decreases 0x200000 - self.device_memory@.len(),
                {
                    self.device_memory.push(0);
                }
            },
            _ => {},
        }
    }

    /// Insert a development cartridge ROM.
    pub fn load_dev_cart(&mut self, rom_data: Vec<u8>)
        ensures
            final(self).device == ExpansionDevice::DevelopmentCart,
            final(self).dev_cart_rom == Some(rom_data),
            final(self).device_memory == old(self).device_memory,
            final(self).parallel_data == old(self).parallel_data,
            final(self).parallel_status == old(self).parallel_status,
            final(self).parallel_control == old(self).parallel_control,
            final(self).cheat_codes@ == old(self).cheat_codes@,
    {
        self.dev_cart_rom = Some(rom_data);
        self.device = ExpansionDevice::DevelopmentCart;
    }

    /// Record a cheat code; with nothing connected, an Action Replay is assumed.
    pub fn add_cheat_code(&mut self, address: u32, value: u32)
        ensures
            final(self).cheat_codes@ == old(self).cheat_codes@.insert(address, value),
            old(self).device == ExpansionDevice::NoDevice ==> final(self).device == ExpansionDevice::ActionReplay,
            old(self).device != ExpansionDevice::NoDevice ==> final(self).device == old(self).device,
            final(self).device_memory == old(self).device_memory,
            final(self).dev_cart_rom == old(self).dev_cart_rom,
    {
        self.cheat_codes.insert(address, value);
        if self.device == ExpansionDevice::NoDevice {
            self.device = ExpansionDevice::ActionReplay;
        }
    }

    /// Read `width` bytes at `offset`; the caller keeps the low bytes of the result.
    pub fn load(&self, offset: u32, width: AccessWidth) -> (r: u32)
        requires
            port_read_ok(*self, offset, width),
        ensures
            r == port_read(*self, offset, width),
    {
        match self.device {
            ExpansionDevice::NoDevice => 0xFFFFFFFF,
            ExpansionDevice::ParallelPort => self.load_parallel_port(offset),
            ExpansionDevice::DevelopmentCart => self.read_dev_cart(offset, width),
            ExpansionDevice::ActionReplay | ExpansionDevice::GameShark => self.load_cheat_device(offset, width),
            ExpansionDevice::RamExpansion => self.load_ram_expansion(offset, width),
        }
    }

    /// Write the low `width` bytes of `value` at `offset`.
    pub fn store(&mut self, offset: u32, width: AccessWidth, value: u32)
        ensures
            final(self).device == old(self).device,
            final(self).dev_cart_rom == old(self).dev_cart_rom,
            final(self).cheat_codes@ == old(self).cheat_codes@,
            final(self).parallel_status == old(self).parallel_status,
            old(self).device == ExpansionDevice::ParallelPort ==> {
                &&& final(self).parallel_data == (if offset & 0xf == 0 { value as u8 } else { old(self).parallel_data })
                &&& final(self).parallel_control == (if offset & 0xf == 8 { value as u8 } else { old(self).parallel_control })
                &&& final(self).device_memory == old(self).device_memory
            },
            (old(self).device == ExpansionDevice::ActionReplay || old(self).device == ExpansionDevice::GameShark
                || old(self).device == ExpansionDevice::RamExpansion) ==> {
                &&& final(self).device_memory@ == (if offset < old(self).device_memory@.len() {
                    le_written(old(self).device_memory@, offset as int, width, value)
                } else {
                    old(self).device_memory@
                })
                &&& final(self).parallel_data == old(self).parallel_data
                &&& final(self).parallel_control == old(self).parallel_control
            },
            (old(self).device == ExpansionDevice::NoDevice || old(self).device == ExpansionDevice::DevelopmentCart) ==> {
                &&& final(self).device_memory == old(self).device_memory
                &&& final(self).parallel_data == old(self).parallel_data
                &&& final(self).parallel_control == old(self).parallel_control
            },
    {
        match self.device {
            ExpansionDevice::NoDevice => {},
            ExpansionDevice::ParallelPort => self.store_parallel_port(offset, value),
            ExpansionDevice::DevelopmentCart => {},
            ExpansionDevice::ActionReplay | ExpansionDevice::GameShark => self.store_cheat_device(offset, width, value),
            ExpansionDevice::RamExpansion => self.store_ram_expansion(offset, width, value),
        }
    }

    fn load_parallel_port(&self, offset: u32) -> (r: u32)
        ensures
            r == (if offset & 0xf == 0 {
                self.parallel_data as u32
            } else if offset & 0xf == 4 {
                self.parallel_status as u32
            } else if offset & 0xf == 8 {
                self.parallel_control as u32
            } else {
                0xFFFFFFFF
            }),
    {
        let reg = offset & 0xF;
        if reg == 0x0 {
            self.parallel_data as u32
        } else if reg == 0x4 {
            self.parallel_status as u32
        } else if reg == 0x8 {
            self.parallel_control as u32
        } else {
            0xFFFFFFFF
        }
    }

    fn store_parallel_port(&mut self, offset: u32, value: u32)
        ensures
            *final(self) == (ExpansionPort {
                parallel_data: if offset & 0xf == 0 { value as u8 } else { old(self).parallel_data },
                parallel_control: if offset & 0xf == 8 { value as u8 } else { old(self).parallel_control },
                ..*old(self)
            }),
    {
        let val = value as u8;
        let reg = offset & 0xF;
        if reg == 0x0 {
            self.parallel_data = val;
        } else if reg == 0x8 {
            self.parallel_control = val;
        }
    }

    fn read_dev_cart(&self, offset: u32, width: AccessWidth) -> (r: u32)
        ensures
            r == (match self.dev_cart_rom {
                Some(rom) => if offset < rom@.len() { le_read(rom@, offset as int, width) } else { 0xFFFFFFFF },
                None => 0xFFFFFFFF,
            }),
    {
        match &self.dev_cart_rom {
            Some(rom) => {
                if (offset as usize) < rom.len() {
                    read_le(rom, offset as usize, width)
                } else {
                    0xFFFFFFFF
                }
            },
            None => 0xFFFFFFFF,
        }
    }

    fn load_cheat_device(&self, offset: u32, width: AccessWidth) -> (r: u32)
        requires
            offset < self.device_memory@.len() ==> offset + width_bytes(width) <= self.device_memory@.len(),
        ensures
            r == (if offset < self.device_memory@.len() { le_read(self.device_memory@, offset as int, width) } else { 0xFFFFFFFF }),
    {
        if (offset as usize) < self.device_memory.len() {
            read_le(&self.device_memory, offset as usize, width)
        } else {
            0xFFFFFFFF
        }
    }

    fn store_cheat_device(&mut self, offset: u32, width: AccessWidth, value: u32)
        ensures
            final(self).device_memory@ == (if offset < old(self).device_memory@.len() {
                le_written(old(self).device_memory@, offset as int, width, value)
            } else {
                old(self).device_memory@
            }),
            *final(self) == (ExpansionPort { device_memory: final(self).device_memory, ..*old(self) }),
    {
        if (offset as usize) < self.device_memory.len() {
            write_le(&mut self.device_memory, offset as usize, width, value);
        }
    }

    fn load_ram_expansion(&self, offset: u32, width: AccessWidth) -> (r: u32)
        ensures
            r == (if offset < self.device_memory@.len() { le_read(self.device_memory@, offset as int, width) } else { 0 }),
    {
        if (offset as usize) < self.device_memory.len() {
            read_le(&self.device_memory, offset as usize, width)
        } else {
            0
        }
    }

    fn store_ram_expansion(&mut self, offset: u32, width: AccessWidth, value: u32)
        ensures
            final(self).device_memory@ == (if offset < old(self).device_memory@.len() {
                le_written(old(self).device_memory@, offset as int, width, value)
            } else {
                old(self).device_memory@
            }),
            *final(self) == (ExpansionPort { device_memory: final(self).device_memory, ..*old(self) }),
    {
        if (offset as usize) < self.device_memory.len() {
            write_le(&mut self.device_memory, offset as usize, width, value);
        }
    }

    /// Apply the cheat codes to main RAM: each code whose address lies in RAM (below
    /// 0x200000) writes its value there as a little-endian word, in the order the code
    /// table is walked (bytes past the end of RAM are dropped).
    pub fn apply_cheats(&self, psx: &mut Psx)
        ensures
            exists|order: Seq<(u32, u32)>|
                #[trigger] is_listing(order, self.cheat_codes@) && final(psx).ram@ == ram_with_codes(old(psx).ram@, order),
            *final(psx) == (Psx { ram: final(psx).ram, ..*old(psx) }),
            final(psx).ram@.len() == old(psx).ram@.len(),
            forall|j: int|
                0 <= j < old(psx).ram@.len() && !covered_by_code(self.cheat_codes@, j, None)
                    ==> #[trigger] final(psx).ram@[j] == old(psx).ram@[j],
            forall|k: u32, j: int|
                #![trigger self.cheat_codes@.contains_key(k), final(psx).ram@[j]]
                self.cheat_codes@.contains_key(k) && k < 0x200000 && k <= j < k + 4 && j < old(psx).ram@.len()
                    && !covered_by_code(self.cheat_codes@, j, Some(k))
                    ==> final(psx).ram@[j] == (self.cheat_codes@[k] >> (8 * (j - k)) as u32) as u8,
    {
        let ghost start = psx.ram@;
        let codes = self.cheat_codes.iter();
        let ghost all = codes.remaining();
        proof {
            assert(all == vstd::std_specs::hash::spec_hash_map_iter(&self.cheat_codes).remaining());
        }
        for item in it: codes
            invariant
                it.seq() == all,
                *psx == (Psx { ram: psx.ram, ..*old(psx) }),
                psx.ram@ == ram_with_codes(start, all.unref().take(it.index() as int)),
        {
            let (a, v) = item;
            let address: u32 = *a;
            let value: u32 = *v;
            proof {
                assert(all.unref().take(it.index() + 1).drop_last() =~= all.unref().take(it.index() as int));
            }
            if address < 0x200000 {
                write_word(&mut psx.ram, address as usize, value);
            }
        }
        proof {
            let order = all.unref();
            assert(order.take(all.len() as int) =~= order);
            assert(order.no_duplicates()) by {
                assert forall|i: int, j: int| 0 <= i < order.len() && 0 <= j < order.len() && i != j implies order[i] != order[j] by {
                    assert(all[i] != all[j]);
                }
            }
            assert(is_listing(order, self.cheat_codes@));
            lemma_codes_len(start, order);
            let m = self.cheat_codes@;
            assert forall|j: int|
                0 <= j < start.len() && !covered_by_code(m, j, None) implies #[trigger] psx.ram@[j] == start[j] by {
                assert forall|i: int| 0 <= i < order.len() implies !code_covers(#[trigger] order[i], j) by {
                    assert(order.to_set().contains(order[i]));
                    assert(m.contains_key(order[i].0));
                }
                lemma_codes_untouched(start, order, j);
            }
            assert forall|k: u32, j: int|
                #![trigger m.contains_key(k), psx.ram@[j]]
                m.contains_key(k) && k < 0x200000 && k <= j < k + 4 && j < start.len() && !covered_by_code(m, j, Some(k))
                    implies psx.ram@[j] == (m[k] >> (8 * (j - k)) as u32) as u8 by {
                assert(m.kv_pairs().contains((k, m[k])));
                assert(order.to_set().contains((k, m[k])));
                let i = choose|i: int| 0 <= i < order.len() && order[i] == (k, m[k]);
                assert forall|i2: int| 0 <= i2 < order.len() && i2 != i implies !code_covers(#[trigger] order[i2], j) by {
                    assert(order.to_set().contains(order[i2]));
                    assert(m.contains_key(order[i2].0));
                    assert(order[i2] != order[i]);
                }
                lemma_code_written(start, order, i, j);
            }
        }
    }
}

/// Whether the code `(address, value)` writes the byte at `j` of RAM.
pub open spec fn code_covers(code: (u32, u32), j: int) -> bool {
    code.0 < 0x200000 && code.0 <= j < code.0 + 4
}

/// Whether some code of `codes` other than the one at `except` writes the byte at `j` of RAM.
pub open spec fn covered_by_code(codes: Map<u32, u32>, j: int, except: Option<u32>) -> bool {
    exists|k: u32| #[trigger] codes.contains_key(k) && except != Some(k) && code_covers((k, codes[k]), j)
}

proof fn lemma_codes_untouched(ram: Seq<u8>, order: Seq<(u32, u32)>, j: int)
    requires
        0 <= j < ram.len(),
        forall|i: int| 0 <= i < order.len() ==> !code_covers(#[trigger] order[i], j),
    ensures
        ram_with_codes(ram, order).len() == ram.len(),
        ram_with_codes(ram, order)[j] == ram[j],
    decreases order.len(),
{
    if order.len() > 0 {
        let prev = order.drop_last();
        assert forall|i: int| 0 <= i < prev.len() implies !code_covers(#[trigger] prev[i], j) by {
            assert(prev[i] == order[i]);
        }
        lemma_codes_untouched(ram, prev, j);
        assert(!code_covers(order[order.len() - 1], j));
    }
}

proof fn lemma_code_written(ram: Seq<u8>, order: Seq<(u32, u32)>, i: int, j: int)
    requires
        0 <= j < ram.len(),
        0 <= i < order.len(),
        code_covers(order[i], j),
        forall|i2: int| 0 <= i2 < order.len() && i2 != i ==> !code_covers(#[trigger] order[i2], j),
    ensures
        ram_with_codes(ram, order).len() == ram.len(),
        ram_with_codes(ram, order)[j] == (order[i].1 >> (8 * (j - order[i].0)) as u32) as u8,
    decreases order.len(),
{
    let prev = order.drop_last();
    if i == order.len() - 1 {
        lemma_codes_len(ram, prev);
    } else {
        assert(prev[i] == order[i]);
        assert forall|i2: int| 0 <= i2 < prev.len() && i2 != i implies !code_covers(#[trigger] prev[i2], j) by {
            assert(prev[i2] == order[i2]);
        }
        lemma_code_written(ram, prev, i, j);
        assert(!code_covers(order[order.len() - 1], j));
    }
}

proof fn lemma_codes_len(ram: Seq<u8>, order: Seq<(u32, u32)>)
    ensures
        ram_with_codes(ram, order).len() == ram.len(),
    decreases order.len(),
{
    if order.len() > 0 {
        lemma_codes_len(ram, order.drop_last());
    }
}

/// Whether `order` lists every code of `codes` exactly once.
pub open spec fn is_listing(order: Seq<(u32, u32)>, codes: Map<u32, u32>) -> bool {
    &&& order.no_duplicates()
    &&& order.to_set() == codes.kv_pairs()
}

/// `ram` after one cheat code: a code in RAM writes its value as a little-endian word.
pub open spec fn ram_with_code(ram: Seq<u8>, address: u32, value: u32) -> Seq<u8> {
    if address < 0x200000 { le_written(ram, address as int, AccessWidth::Word, value) } else { ram }
}

/// `ram` after the cheat codes of `codes`, in that order.
pub open spec fn ram_with_codes(ram: Seq<u8>, codes: Seq<(u32, u32)>) -> Seq<u8>
    decreases codes.len(),
{
    if codes.len() == 0 {
        ram
    } else {
        ram_with_code(ram_with_codes(ram, codes.drop_last()), codes.last().0, codes.last().1)
    }
}

/// Write `value` little-endian at `o`, dropping bytes past the end.
fn write_word(ram: &mut Vec<u8>, o: usize, value: u32)
    requires
        o < 0x200000,
    ensures
        final(ram)@ == le_written(old(ram)@, o as int, AccessWidth::Word, value),
{
    let mut i: usize = 0;
    while i < 4
        invariant
            i <= 4,
            o < 0x200000,
            ram@.len() == old(ram)@.len(),
            forall|j: int| 0 <= j < ram@.len() ==> #[trigger] ram@[j] == (if o <= j < o + i { (value >> (8 * (j - o)) as u32) as u8 } else { old(ram)@[j] }),
        decreases 4 - i,
    {
        if o + i < ram.len() {
            ram.set(o + i, (value >> (8 * i as u32)) as u8);
        }
        i = i + 1;
    }
    assert(ram@ =~= le_written(old(ram)@, o as int, AccessWidth::Word, value));
}

/// A value stored to expansion RAM is read back by a load of the same width.
pub proof fn lemma_ram_expansion_store_then_load(old: ExpansionPort, new: ExpansionPort, offset: u32, width: AccessWidth, value: u32)
    requires
        old.device == ExpansionDevice::RamExpansion,
        offset + width_bytes(width) <= old.device_memory@.len(),
        new.device == old.device,
        new.device_memory@ == le_written(old.device_memory@, offset as int, width, value),
    ensures
        port_read(new, offset, width) == (match width {
            AccessWidth::Byte => value & 0xff,
            AccessWidth::HalfWord => value & 0xffff,
            AccessWidth::Word => value,
        }),
{
    let m = new.device_memory@;
    let o = offset as int;
    match width {
        AccessWidth::Byte => {
            assert(m[o] == (value >> 0u32) as u8);
            assert(((value >> 0u32) as u8) as u32 == value & 0xff) by (bit_vector);
        },
        AccessWidth::HalfWord => {
            assert(m[o] == (value >> 0u32) as u8);
            assert(m[o + 1] == (value >> 8u32) as u8);
            assert((((value >> 0u32) as u8) as u32) | ((((value >> 8u32) as u8) as u32) << 8u32) == value & 0xffff) by (bit_vector);
        },
        AccessWidth::Word => {
            assert(m[o] == (value >> 0u32) as u8);
            assert(m[o + 1] == (value >> 8u32) as u8);
            assert(m[o + 2] == (value >> 16u32) as u8);
            assert(m[o + 3] == (value >> 24u32) as u8);
            assert((((value >> 0u32) as u8) as u32) | ((((value >> 8u32) as u8) as u32) << 8u32)
                | ((((value >> 16u32) as u8) as u32) << 16u32) | ((((value >> 24u32) as u8) as u32) << 24u32) == value) by (bit_vector);
        },
    }
}

} // verus!
