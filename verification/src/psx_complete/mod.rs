//! The complete console: CPU, coprocessors, GPU, DMA, timers, interrupts and the bus.

pub mod cop0;
pub mod irq;
pub mod dma;
pub mod gte;
pub mod timers;
pub mod icache;
pub mod gpu;
pub mod cpu;

use vstd::prelude::*;
use crate::error::{PsxError, Result};
use self::cpu::Cpu;
use self::cop0::{Cop0, Exception};
use self::gte::Gte;
use self::gpu::Gpu;
use self::dma::Dma;
use self::irq::{Interrupt, InterruptState};
use self::timers::Timers;

verus! {

/// CPU clock frequency in Hz.
pub const CPU_FREQ_HZ: u32 = 33_868_800;
/// Main RAM size in bytes (2MB).
pub const RAM_SIZE: usize = 2097152;
/// BIOS ROM size in bytes (512KB).
pub const BIOS_SIZE: usize = 524288;
/// Scratchpad size in bytes.
pub const SCRATCHPAD_SIZE: usize = 1024;
/// VBlank period in CPU cycles.
pub const VBLANK_PERIOD: i32 = 560000;

/// The physical address seen by the bus: KSEG0 and KSEG1 drop their segment bits, KUSEG
/// and KSEG2 pass unchanged.
pub open spec fn spec_mask_region(addr: u32) -> u32 {
    let region = addr >> 29u32;
    if region == 4 {
        addr & 0x7fffffff
    } else if region == 5 {
        addr & 0x1fffffff
    } else {
        addr
    }
}

/// Physical address translation.
pub fn mask_region(addr: u32) -> (r: u32)
    ensures
        r == spec_mask_region(addr),
{
    let region = addr >> 29;
    if region == 4 {
        addr & 0x7fffffff
    } else if region == 5 {
        addr & 0x1fffffff
    } else {
        addr
    }
}

/// Little-endian composition of four bytes.
pub open spec fn le32(b0: u8, b1: u8, b2: u8, b3: u8) -> u32 {
    (b0 as u32) | ((b1 as u32) << 8u32) | ((b2 as u32) << 16u32) | ((b3 as u32) << 24u32)
}

/// Main RAM: physical 0x00000000..=0x001fffff.
pub open spec fn in_ram(p: u32) -> bool {
    p <= 0x001fffff
}

/// Scratchpad as this bus maps it: physical 0x1f000000..=0x1f0003ff.
pub open spec fn in_scratchpad(p: u32) -> bool {
    0x1f000000 <= p <= 0x1f0003ff
}

/// BIOS ROM: physical 0x1fc00000..=0x1fc7ffff.
pub open spec fn in_bios(p: u32) -> bool {
    0x1fc00000 <= p <= 0x1fc7ffff
}

/// DMA channel registers: physical 0x1f801080..=0x1f8010ef.
pub open spec fn in_dma_channels(p: u32) -> bool {
    0x1f801080 <= p <= 0x1f8010ef
}

/// Root counter registers: physical 0x1f801100..=0x1f80112f.
pub open spec fn in_timers(p: u32) -> bool {
    0x1f801100 <= p <= 0x1f80112f
}

/// A word access at `addr` stays inside the memory it targets.
pub open spec fn word_in_bounds(addr: u32) -> bool {
    let p = spec_mask_region(addr);
    &&& in_ram(p) ==> (p & 0x1fffff) + 3 < RAM_SIZE
    &&& in_scratchpad(p) ==> (p & 0x3ff) + 3 < SCRATCHPAD_SIZE
    &&& in_bios(p) ==> (p & 0x7ffff) + 3 < BIOS_SIZE
}

/// Whether a byte or word access at `addr` costs a bus cycle.
pub open spec fn ticks(addr: u32) -> bool {
    let p = spec_mask_region(addr);
    in_ram(p) || in_scratchpad(p) || in_bios(p)
}

/// The whole console.
pub struct Psx {
    pub cpu: Cpu,
    pub cop0: Cop0,
    pub gte: Gte,
    pub gpu: Gpu,
    pub dma: Dma,
    pub irq: InterruptState,
    pub timers: Timers,
    pub ram: Vec<u8>,
    pub bios: Vec<u8>,
    pub scratchpad: Vec<u8>,
    pub cycle_counter: i32,
    pub next_event: i32,
    pub vblank_counter: i32,
    pub frame_done: bool,
}

impl Psx {
    /// The memories have their hardware sizes and the GPU is consistent.
    pub open spec fn wf(&self) -> bool {
        &&& self.ram@.len() == RAM_SIZE
        &&& self.bios@.len() == BIOS_SIZE
        &&& self.scratchpad@.len() == SCRATCHPAD_SIZE
        &&& self.gpu.wf()
        &&& self.gpu.gp0_wf()
    }

    /// The byte a read of `addr` returns.
    pub open spec fn load8_value(&self, addr: u32) -> u8 {
        let p = spec_mask_region(addr);
        if in_ram(p) {
            self.ram@[(p & 0x1fffff) as int]
        } else if in_scratchpad(p) {
            self.scratchpad@[(p & 0x3ff) as int]
        } else if in_bios(p) {
            self.bios@[(p & 0x7ffff) as int]
        } else {
            0xff
        }
    }

    /// The word a read of `addr` returns.
    pub open spec fn load32_value(&self, addr: u32) -> u32 {
        let p = spec_mask_region(addr);
        if in_ram(p) {
            let o = (p & 0x1fffff) as int;
            le32(self.ram@[o], self.ram@[o + 1], self.ram@[o + 2], self.ram@[o + 3])
        } else if in_scratchpad(p) {
            let o = (p & 0x3ff) as int;
            le32(self.scratchpad@[o], self.scratchpad@[o + 1], self.scratchpad@[o + 2], self.scratchpad@[o + 3])
        } else if p == 0x1f801070 {
            self.irq.status as u32
        } else if p == 0x1f801074 {
            self.irq.mask as u32
        } else if in_dma_channels(p) {
            let ch = self.dma.channels@[((p - 0x1f801080) / 0x10) as int];
            let off = (p & 0xf) / 4;
            if off == 0 { ch.base } else if off == 1 { ch.block_control } else if off == 2 { ch.control } else { 0 }
        } else if p == 0x1f8010f0 {
            self.dma.control
        } else if p == 0x1f8010f4 {
            self.dma.interrupt
        } else if in_timers(p) {
            let t = self.timers.timers@[((p - 0x1f801100) / 0x10) as int];
            let off = (p & 0xf) / 4;
            if off == 0 { t.counter as u32 } else if off == 1 { t.mode as u32 } else if off == 2 { t.target as u32 } else { 0 }
        } else if p == 0x1f801810 {
            self.gpu.gpu_read
        } else if p == 0x1f801814 {
            self.gpu.status | 0x1c000000
        } else if in_bios(p) {
            let o = (p & 0x7ffff) as int;
            le32(self.bios@[o], self.bios@[o + 1], self.bios@[o + 2], self.bios@[o + 3])
        } else {
            0xffffffff
        }
    }

    /// The console after a memory access that may cost a bus cycle.
    pub open spec fn after_access(&self, addr: u32) -> Psx {
        Psx { cycle_counter: if ticks(addr) { self.cycle_counter.wrapping_add(1) } else { self.cycle_counter }, ..*self }
    }

    /// Advance the cycle counter.
    pub fn tick(&mut self, cycles: i32)
        ensures
            *final(self) == (Psx { cycle_counter: old(self).cycle_counter.wrapping_add(cycles), ..*old(self) }),
    {
        self.cycle_counter = self.cycle_counter.wrapping_add(cycles);
    }

    /// Read a byte.
    pub fn load8(&mut self, addr: u32) -> (r: Result<u8>)
        requires
            old(self).wf(),
        ensures
            r == Ok::<u8, PsxError>(old(self).load8_value(addr)),
            *final(self) == old(self).after_access(addr),
    {
        let physical = mask_region(addr);
        if physical <= 0x001fffff {
            self.tick(1);
            proof { crate::bits::lemma_and_le(physical, 0x1fffff); }
            Ok(self.ram[(physical & 0x1fffff) as usize])
        } else if 0x1f000000 <= physical && physical <= 0x1f0003ff {
            self.tick(1);
            proof { crate::bits::lemma_and_le(physical, 0x3ff); }
            Ok(self.scratchpad[(physical & 0x3ff) as usize])
        } else if 0x1fc00000 <= physical && physical <= 0x1fc7ffff {
            self.tick(1);
            proof { crate::bits::lemma_and_le(physical, 0x7ffff); }
            Ok(self.bios[(physical & 0x7ffff) as usize])
        } else {
            Ok(0xff)
        }
    }
}

/// `new` is `old` with four little-endian bytes of `val` written at `o`.
pub open spec fn bytes_stored32(old: Seq<u8>, new: Seq<u8>, o: int, val: u32) -> bool {
    new == old.update(o, val as u8).update(o + 1, (val >> 8u32) as u8).update(o + 2, (val >> 16u32) as u8).update(o + 3, (val >> 24u32) as u8)
}

/// The effect of a word store of `val` at `addr` on `old`, leaving `new`.
pub open spec fn store32_post(old: Psx, new: Psx, addr: u32, val: u32) -> bool {
    let p = spec_mask_region(addr);
    if in_ram(p) {
        &&& bytes_stored32(old.ram@, new.ram@, (p & 0x1fffff) as int, val)
        &&& new == (Psx { ram: new.ram, cycle_counter: old.cycle_counter.wrapping_add(1), ..old })
    } else if in_scratchpad(p) {
        &&& bytes_stored32(old.scratchpad@, new.scratchpad@, (p & 0x3ff) as int, val)
        &&& new == (Psx { scratchpad: new.scratchpad, cycle_counter: old.cycle_counter.wrapping_add(1), ..old })
    } else if p == 0x1f801070 {
        new == (Psx { irq: InterruptState { status: old.irq.status & (val as u16), ..old.irq }, ..old })
    } else if p == 0x1f801074 {
        new == (Psx { irq: InterruptState { mask: val as u16, ..old.irq }, ..old })
    } else if in_dma_channels(p) {
        let i = ((p - 0x1f801080) / 0x10) as int;
        let off = (p & 0xf) / 4;
        let ch = old.dma.channels@[i];
        if off == 0 {
            new == (Psx { dma: Dma { channels: new.dma.channels, ..old.dma }, ..old })
                && new.dma.channels@ == old.dma.channels@.update(i, self::dma::DmaChannel { base: val & 0xffffff, ..ch })
        } else if off == 1 {
            new == (Psx { dma: Dma { channels: new.dma.channels, ..old.dma }, ..old })
                && new.dma.channels@ == old.dma.channels@.update(i, self::dma::DmaChannel { block_control: val, ..ch })
        } else if off == 2 {
            if val & 0x01000000 != 0 {
                &&& new == (Psx {
                    dma: Dma { channels: new.dma.channels, ..old.dma },
                    irq: InterruptState { status: old.irq.status | 0x0008, ..old.irq },
                    ..old
                })
                &&& new.dma.channels@ == old.dma.channels@.update(i, self::dma::DmaChannel { control: val & !0x01000000u32, ..ch })
            } else {
                new == (Psx { dma: Dma { channels: new.dma.channels, ..old.dma }, ..old })
                    && new.dma.channels@ == old.dma.channels@.update(i, self::dma::DmaChannel { control: val, ..ch })
            }
        } else {
            new == old
        }
    } else if p == 0x1f8010f0 {
        new == (Psx { dma: Dma { control: val, ..old.dma }, ..old })
    } else if p == 0x1f8010f4 {
        new == (Psx { dma: Dma { interrupt: val, ..old.dma }, ..old })
    } else if in_timers(p) {
        let i = ((p - 0x1f801100) / 0x10) as int;
        let off = (p & 0xf) / 4;
        let t = old.timers.timers@[i];
        if off == 0 {
            new == (Psx { timers: new.timers, ..old })
                && new.timers.timers@ == old.timers.timers@.update(i, self::timers::Timer { counter: val as u16, ..t })
        } else if off == 1 {
            new == (Psx { timers: new.timers, ..old })
                && new.timers.timers@ == old.timers.timers@.update(i, self::timers::Timer { mode: val as u16, counter: 0, ..t })
        } else if off == 2 {
            new == (Psx { timers: new.timers, ..old })
                && new.timers.timers@ == old.timers.timers@.update(i, self::timers::Timer { target: val as u16, ..t })
        } else {
            new == old
        }
    } else if p == 0x1f801810 {
        new == (Psx { gpu: new.gpu, ..old }) && self::gpu::gp0_written(old.gpu, new.gpu, val)
    } else if p == 0x1f801814 {
        new == (Psx { gpu: new.gpu, ..old }) && self::gpu::gp1_written(old.gpu, new.gpu, val)
    } else {
        new == old
    }
}

/// The effect of a halfword store: the low byte at `addr`, then the high byte after it.
pub open spec fn store16_post(old: Psx, new: Psx, addr: u32, val: u16) -> bool {
    exists|mid: Psx| store8_post(old, mid, addr, val as u8)
        && #[trigger] store8_post(mid, new, (addr + 1) as u32, (val >> 8u16) as u8)
}

/// The effect of a byte store of `val` at `addr` on `old`, leaving `new`.
pub open spec fn store8_post(old: Psx, new: Psx, addr: u32, val: u8) -> bool {
    let p = spec_mask_region(addr);
    if in_ram(p) {
        &&& new.ram@ == old.ram@.update((p & 0x1fffff) as int, val)
        &&& new == (Psx { ram: new.ram, cycle_counter: old.cycle_counter.wrapping_add(1), ..old })
    } else if in_scratchpad(p) {
        &&& new.scratchpad@ == old.scratchpad@.update((p & 0x3ff) as int, val)
        &&& new == (Psx { scratchpad: new.scratchpad, cycle_counter: old.cycle_counter.wrapping_add(1), ..old })
    } else {
        new == old
    }
}

proof fn lemma_region_fields(p: u32)
    ensures
        p & 0x1fffff <= 0x1fffff,
        p & 0x3ff <= 0x3ff,
        p & 0x7ffff <= 0x7ffff,
        p <= 0x1fffff ==> p & 0x1fffff == p,
        0x1f801080 <= p <= 0x1f8010ef ==> (p - 0x1f801080) / 0x10 < 7,
        0x1f801100 <= p <= 0x1f80112f ==> (p - 0x1f801100) / 0x10 < 3,
{
    crate::bits::lemma_and_le(p, 0x1fffff);
    crate::bits::lemma_and_le(p, 0x3ff);
    crate::bits::lemma_and_le(p, 0x7ffff);
    assert(p <= 0x1fffff ==> p & 0x1fffff == p) by (bit_vector);
}

impl Psx {
    /// Read a halfword as two byte reads.
    pub fn load16(&mut self, addr: u32) -> (r: Result<u16>)
        requires
            old(self).wf(),
            addr < 0xffffffff,
        ensures
            r == Ok::<u16, PsxError>(((old(self).load8_value(addr) as u16) | ((old(self).load8_value((addr + 1) as u32) as u16) << 8u16)) as u16),
            *final(self) == old(self).after_access(addr).after_access((addr + 1) as u32),
    {
        let b0 = self.load8(addr)? as u16;
        let b1 = self.load8(addr + 1)? as u16;
        Ok(b0 | (b1 << 8))
    }

    /// Read a word: memory, interrupt, DMA, timer and GPU registers.
    pub fn load32(&mut self, addr: u32) -> (r: Result<u32>)
        requires
            old(self).wf(),
            word_in_bounds(addr),
        ensures
            r == Ok::<u32, PsxError>(old(self).load32_value(addr)),
            *final(self) == old(self).after_access(addr),
    {
        let physical = mask_region(addr);
        proof { lemma_region_fields(physical); }
        if physical <= 0x001fffff {
            self.tick(1);
            let offset = (physical & 0x1fffff) as usize;
            Ok(self.ram[offset] as u32 | ((self.ram[offset + 1] as u32) << 8) | ((self.ram[offset + 2] as u32) << 16) | ((self.ram[offset + 3] as u32) << 24))
        } else if 0x1f000000 <= physical && physical <= 0x1f0003ff {
            self.tick(1);
            let offset = (physical & 0x3ff) as usize;
            Ok(self.scratchpad[offset] as u32 | ((self.scratchpad[offset + 1] as u32) << 8) | ((self.scratchpad[offset + 2] as u32) << 16) | ((self.scratchpad[offset + 3] as u32) << 24))
        } else if physical == 0x1f801070 {
            Ok(self.irq.status() as u32)
        } else if physical == 0x1f801074 {
            Ok(self.irq.mask() as u32)
        } else if 0x1f801080 <= physical && physical <= 0x1f8010ef {
            let channel = ((physical - 0x1f801080) / 0x10) as usize;
            let offset = (physical & 0xf) / 4;
            if offset == 0 {
                Ok(self.dma.channel(channel).base())
            } else if offset == 1 {
                Ok(self.dma.channel(channel).block_control())
            } else if offset == 2 {
                Ok(self.dma.channel(channel).control())
            } else {
                Ok(0)
            }
        } else if physical == 0x1f8010f0 {
            Ok(self.dma.control())
        } else if physical == 0x1f8010f4 {
            Ok(self.dma.interrupt())
        } else if 0x1f801100 <= physical && physical <= 0x1f80112f {
            let timer = ((physical - 0x1f801100) / 0x10) as usize;
            let offset = (physical & 0xf) / 4;
            if offset == 0 {
                Ok(self.timers.timer(timer).counter() as u32)
            } else if offset == 1 {
                Ok(self.timers.timer(timer).mode() as u32)
            } else if offset == 2 {
                Ok(self.timers.timer(timer).target() as u32)
            } else {
                Ok(0)
            }
        } else if physical == 0x1f801810 {
            Ok(self.gpu.get_read())
        } else if physical == 0x1f801814 {
            Ok(self.gpu.get_status())
        } else if 0x1fc00000 <= physical && physical <= 0x1fc7ffff {
            self.tick(1);
            let offset = (physical & 0x7ffff) as usize;
            Ok(self.bios[offset] as u32 | ((self.bios[offset + 1] as u32) << 8) | ((self.bios[offset + 2] as u32) << 16) | ((self.bios[offset + 3] as u32) << 24))
        } else {
            Ok(0xffffffff)
        }
    }

    /// Write a byte to RAM or the scratchpad; other addresses ignore byte writes.
    pub fn store8(&mut self, addr: u32, val: u8) -> (r: Result<()>)
        requires
            old(self).wf(),
        ensures
            r is Ok,
            final(self).wf(),
            store8_post(*old(self), *final(self), addr, val),
    {
        let physical = mask_region(addr);
        proof { lemma_region_fields(physical); }
        if physical <= 0x001fffff {
            self.tick(1);
            self.ram.set((physical & 0x1fffff) as usize, val);
        } else if 0x1f000000 <= physical && physical <= 0x1f0003ff {
            self.tick(1);
            self.scratchpad.set((physical & 0x3ff) as usize, val);
        }
        Ok(())
    }

    /// Write a halfword as two byte writes, low byte first.
    pub fn store16(&mut self, addr: u32, val: u16) -> (r: Result<()>)
        requires
            old(self).wf(),
            addr < 0xffffffff,
        ensures
            r is Ok,
            final(self).wf(),
            store16_post(*old(self), *final(self), addr, val),
    {
        let ghost before = *self;
        self.store8(addr, val as u8)?;
        let ghost mid = *self;
        self.store8(addr + 1, (val >> 8) as u8)?;
        assert(store8_post(before, mid, addr, val as u8) && store8_post(mid, *self, (addr + 1) as u32, (val >> 8u16) as u8));
        Ok(())
    }

    /// Run a DMA transfer on `channel`: this model completes it at once, clearing the busy
    /// bit and raising the DMA interrupt.
    fn do_dma(&mut self, channel: usize)
        requires
            channel < 7,
        ensures
            final(self).dma.channels@ == old(self).dma.channels@.update(channel as int, self::dma::DmaChannel { control: old(self).dma.channels@[channel as int].control & !0x01000000u32, ..old(self).dma.channels@[channel as int] }),
            *final(self) == (Psx {
                dma: Dma { channels: final(self).dma.channels, ..old(self).dma },
                irq: InterruptState { status: old(self).irq.status | 0x0008, ..old(self).irq },
                ..*old(self)
            }),
    {
        let control = self.dma.channel(channel).control() & !0x01000000;
        self.dma.channel_mut(channel).set_control(control);
        self.irq.request(Interrupt::Dma);
    }
}

impl Psx {
    /// Write a word: memory, interrupt, DMA, timer and GPU registers. Starting a DMA
    /// channel completes its transfer at once.
    pub fn store32(&mut self, addr: u32, val: u32) -> (r: Result<()>)
        requires
            old(self).wf(),
            word_in_bounds(addr),
        ensures
            r is Ok,
            final(self).wf(),
            store32_post(*old(self), *final(self), addr, val),
    {
        let ghost old_self = *self;
        let physical = mask_region(addr);
        proof { lemma_region_fields(physical); }
        if physical <= 0x001fffff {
            self.tick(1);
            let offset = (physical & 0x1fffff) as usize;
            self.ram.set(offset, val as u8);
            self.ram.set(offset + 1, (val >> 8) as u8);
            self.ram.set(offset + 2, (val >> 16) as u8);
            self.ram.set(offset + 3, (val >> 24) as u8);
            assert(store32_post(old_self, *self, addr, val));
        } else if 0x1f000000 <= physical && physical <= 0x1f0003ff {
            self.tick(1);
            let offset = (physical & 0x3ff) as usize;
            self.scratchpad.set(offset, val as u8);
            self.scratchpad.set(offset + 1, (val >> 8) as u8);
            self.scratchpad.set(offset + 2, (val >> 16) as u8);
            self.scratchpad.set(offset + 3, (val >> 24) as u8);
            assert(store32_post(old_self, *self, addr, val));
        } else if physical == 0x1f801070 {
            self.irq.set_status(val as u16);
            assert(store32_post(old_self, *self, addr, val));
        } else if physical == 0x1f801074 {
            self.irq.set_mask(val as u16);
            assert(store32_post(old_self, *self, addr, val));
        } else if 0x1f801080 <= physical && physical <= 0x1f8010ef {
            let channel = ((physical - 0x1f801080) / 0x10) as usize;
            let offset = (physical & 0xf) / 4;
            if offset == 0 {
                self.dma.channel_mut(channel).set_base(val);
            } else if offset == 1 {
                self.dma.channel_mut(channel).set_block_control(val);
            } else if offset == 2 {
                self.dma.channel_mut(channel).set_control(val);
                if self.dma.channel(channel).is_active() {
                    self.do_dma(channel);
                    assert(self.dma.channels@ =~= old_self.dma.channels@.update(channel as int, self::dma::DmaChannel { control: val & !0x01000000u32, ..old_self.dma.channels@[channel as int] }));
                }
            }
            assert(store32_post(old_self, *self, addr, val));
        } else if physical == 0x1f8010f0 {
            self.dma.set_control(val);
            assert(store32_post(old_self, *self, addr, val));
        } else if physical == 0x1f8010f4 {
            self.dma.set_interrupt(val);
            assert(store32_post(old_self, *self, addr, val));
        } else if 0x1f801100 <= physical && physical <= 0x1f80112f {
            let timer = ((physical - 0x1f801100) / 0x10) as usize;
            let offset = (physical & 0xf) / 4;
            if offset == 0 {
                self.timers.timer_mut(timer).set_counter(val as u16);
            } else if offset == 1 {
                self.timers.timer_mut(timer).set_mode(val as u16);
            } else if offset == 2 {
                self.timers.timer_mut(timer).set_target(val as u16);
            }
            assert(store32_post(old_self, *self, addr, val));
        } else if physical == 0x1f801810 {
            self.gpu.gp0_write(val);
            assert(store32_post(old_self, *self, addr, val));
        } else if physical == 0x1f801814 {
            self.gpu.gp1_write(val);
            assert(store32_post(old_self, *self, addr, val));
        }
        Ok(())
    }
}

/// What a word store writes to RAM, a word load of the same address reads back.
pub proof fn lemma_ram_store_then_load(old: Psx, new: Psx, addr: u32, val: u32)
    requires
        old.wf(),
        word_in_bounds(addr),
        in_ram(spec_mask_region(addr)),
        store32_post(old, new, addr, val),
    ensures
        new.load32_value(addr) == val,
        new.wf(),
{
    lemma_region_fields(spec_mask_region(addr));
    assert(le32(val as u8, (val >> 8u32) as u8, (val >> 16u32) as u8, (val >> 24u32) as u8) == val) by (bit_vector);
}

/// What a byte store writes to RAM or the scratchpad, a byte load of the same address
/// reads back.
pub proof fn lemma_store8_then_load8(old: Psx, new: Psx, addr: u32, val: u8)
    requires
        old.wf(),
        in_ram(spec_mask_region(addr)) || in_scratchpad(spec_mask_region(addr)),
        store8_post(old, new, addr, val),
    ensures
        new.load8_value(addr) == val,
{
    lemma_region_fields(spec_mask_region(addr));
}

/// A store to one RAM word leaves every byte outside it unchanged.
pub proof fn lemma_ram_store_frame(old: Psx, new: Psx, addr: u32, val: u32, other: int)
    requires
        old.wf(),
        word_in_bounds(addr),
        in_ram(spec_mask_region(addr)),
        store32_post(old, new, addr, val),
        0 <= other < RAM_SIZE,
        other < (spec_mask_region(addr) & 0x1fffff) || other > (spec_mask_region(addr) & 0x1fffff) + 3,
    ensures
        new.ram@[other] == old.ram@[other],
{
}

/// Register `i` of the console's CPU.
pub open spec fn qr(p: Psx, i: int) -> u32 {
    p.cpu.regs@[i]
}

/// `np` is `op` with CPU register `i` set to `v` (when `i` is not 0), nothing else changed.
pub open spec fn quick_reg(op: Psx, np: Psx, i: int, v: u32) -> bool {
    &&& np.cpu.regs@ == (if i != 0 { op.cpu.regs@.update(i, v) } else { op.cpu.regs@ })
    &&& np == (Psx { cpu: Cpu { regs: np.cpu.regs, ..op.cpu }, ..op })
}

/// `np` is `op` with the CPU's next PC set to `t`.
pub open spec fn quick_jump(op: Psx, np: Psx, t: u32) -> bool {
    np == (Psx { cpu: Cpu { next_pc: t, ..op.cpu }, ..op })
}

/// Whether a halfword access at `a` can be made as two byte accesses.
pub open spec fn half_ok(a: u32) -> bool {
    a < 0xffffffff
}

/// The effect of the frame loop's instruction executor on `op`, before register 0 is
/// cleared. Arithmetic wraps instead of trapping, branches have no delay flag, and loads
/// write their register at once.
pub open spec fn quick_core(op: Psx, np: Psx, ins: u32) -> bool {
    let opcode = (ins >> 26u32) & 0x3f;
    let rs = ((ins >> 21u32) & 0x1f) as int;
    let rt = ((ins >> 16u32) & 0x1f) as int;
    let rd = ((ins >> 11u32) & 0x1f) as int;
    let imm = ins & 0xffff;
    let se = ((imm as i16) as i32) as u32;
    let pc = op.cpu.pc;
    if opcode == 0x00 {
        let funct = ins & 0x3f;
        let sa = (ins >> 6u32) & 0x1f;
        if funct == 0x00 { quick_reg(op, np, rd, qr(op, rt) << sa) }
        else if funct == 0x02 { quick_reg(op, np, rd, qr(op, rt) >> sa) }
        else if funct == 0x08 { quick_jump(op, np, qr(op, rs)) }
        else if funct == 0x09 {
            &&& np.cpu.regs@ == (if rd != 0 { op.cpu.regs@.update(rd, op.cpu.next_pc) } else { op.cpu.regs@ })
            &&& np == (Psx { cpu: Cpu { regs: np.cpu.regs, next_pc: qr(op, rs), ..op.cpu }, ..op })
        }
        else if funct == 0x20 { quick_reg(op, np, rd, ((qr(op, rs) as i32).wrapping_add(qr(op, rt) as i32)) as u32) }
        else if funct == 0x21 { quick_reg(op, np, rd, qr(op, rs).wrapping_add(qr(op, rt))) }
        else if funct == 0x23 { quick_reg(op, np, rd, qr(op, rs).wrapping_sub(qr(op, rt))) }
        else if funct == 0x24 { quick_reg(op, np, rd, qr(op, rs) & qr(op, rt)) }
        else if funct == 0x25 { quick_reg(op, np, rd, qr(op, rs) | qr(op, rt)) }
        else if funct == 0x26 { quick_reg(op, np, rd, qr(op, rs) ^ qr(op, rt)) }
        else if funct == 0x27 { quick_reg(op, np, rd, !(qr(op, rs) | qr(op, rt))) }
        else if funct == 0x2a { quick_reg(op, np, rd, if (qr(op, rs) as i32) < (qr(op, rt) as i32) { 1 } else { 0 }) }
        else if funct == 0x2b { quick_reg(op, np, rd, if qr(op, rs) < qr(op, rt) { 1 } else { 0 }) }
        else { np == op }
    } else if opcode == 0x02 {
        quick_jump(op, np, (pc & 0xf0000000) | ((ins & 0x3ffffff) << 2u32))
    } else if opcode == 0x03 {
        &&& np.cpu.regs@ == op.cpu.regs@.update(31, op.cpu.next_pc)
        &&& np == (Psx { cpu: Cpu { regs: np.cpu.regs, next_pc: (pc & 0xf0000000) | ((ins & 0x3ffffff) << 2u32), ..op.cpu }, ..op })
    } else if opcode == 0x04 || opcode == 0x05 || opcode == 0x06 || opcode == 0x07 {
        let taken = if opcode == 0x04 { qr(op, rs) == qr(op, rt) }
            else if opcode == 0x05 { qr(op, rs) != qr(op, rt) }
            else if opcode == 0x06 { (qr(op, rs) as i32) <= 0 }
            else { (qr(op, rs) as i32) > 0 };
        if taken { quick_jump(op, np, pc.wrapping_add(se << 2u32)) } else { np == op }
    } else if opcode == 0x08 { quick_reg(op, np, rt, ((qr(op, rs) as i32).wrapping_add(se as i32)) as u32) }
    else if opcode == 0x09 { quick_reg(op, np, rt, qr(op, rs).wrapping_add(se)) }
    else if opcode == 0x0a { quick_reg(op, np, rt, if (qr(op, rs) as i32) < (se as i32) { 1 } else { 0 }) }
    else if opcode == 0x0b { quick_reg(op, np, rt, if qr(op, rs) < se { 1 } else { 0 }) }
    else if opcode == 0x0c { quick_reg(op, np, rt, qr(op, rs) & imm) }
    else if opcode == 0x0d { quick_reg(op, np, rt, qr(op, rs) | imm) }
    else if opcode == 0x0e { quick_reg(op, np, rt, qr(op, rs) ^ imm) }
    else if opcode == 0x0f { quick_reg(op, np, rt, imm << 16u32) }
    else if opcode == 0x10 {
        let cop_op = (ins >> 21u32) & 0x1f;
        if cop_op == 0x00 { quick_reg(op, np, rt, op.cop0.regs@[rd]) }
        else if cop_op == 0x04 {
            &&& np == (Psx { cop0: np.cop0, ..op })
            &&& np.cop0.regs@ == op.cop0.regs@.update(rd, cop0::cop0_written(rd as u8, op.cop0.regs@[rd], qr(op, rt)))
        } else if cop_op == 0x10 && ins & 0x3f == 0x10 {
            &&& np == (Psx { cop0: np.cop0, ..op })
            &&& np.cop0.regs@ == op.cop0.regs@.update(12, cop0::status_after_rfe(op.cop0.regs@[12]))
        } else { np == op }
    } else if opcode == 0x20 || opcode == 0x24 {
        let a = qr(op, rs).wrapping_add(se);
        if rt != 0 {
            let b = op.load8_value(a);
            quick_reg(op.after_access(a), np, rt, if opcode == 0x20 { ((b as i8) as i32) as u32 } else { b as u32 })
        } else { np == op }
    } else if opcode == 0x21 || opcode == 0x25 {
        let a = qr(op, rs).wrapping_add(se);
        if rt != 0 && half_ok(a) {
            let h = ((op.load8_value(a) as u16) | ((op.load8_value((a + 1) as u32) as u16) << 8u16)) as u16;
            quick_reg(op.after_access(a).after_access((a + 1) as u32), np, rt, if opcode == 0x21 { ((h as i16) as i32) as u32 } else { h as u32 })
        } else { np == op }
    } else if opcode == 0x23 {
        let a = qr(op, rs).wrapping_add(se);
        if rt != 0 && word_in_bounds(a) {
            quick_reg(op.after_access(a), np, rt, op.load32_value(a))
        } else { np == op }
    } else if opcode == 0x28 {
        store8_post(op, np, qr(op, rs).wrapping_add(se), qr(op, rt) as u8)
    } else if opcode == 0x29 {
        let a = qr(op, rs).wrapping_add(se);
        if half_ok(a) { store16_post(op, np, a, qr(op, rt) as u16) } else { np == op }
    } else if opcode == 0x2b {
        let a = qr(op, rs).wrapping_add(se);
        if word_in_bounds(a) { store32_post(op, np, a, qr(op, rt)) } else { np == op }
    } else {
        np == op
    }
}

/// The effect of the frame loop's instruction executor: the core effect, then register 0
/// cleared.
pub open spec fn quick_exec_post(op: Psx, np: Psx, ins: u32) -> bool {
    exists|mid: Psx| #[trigger] quick_core(op, mid, ins)
        && np.cpu.regs@ == mid.cpu.regs@.update(0, 0)
        && np == (Psx { cpu: Cpu { regs: np.cpu.regs, ..mid.cpu }, ..mid })
}

/// Whether a word access at `addr` stays in bounds, computed.
pub fn word_access_in_bounds(addr: u32) -> (r: bool)
    ensures
        r == word_in_bounds(addr),
{
    let p = mask_region(addr);
    proof { lemma_region_fields(p); }
    let ram_ok = !(p <= 0x001fffff) || (p & 0x1fffff) as usize + 3 < RAM_SIZE;
    let sp_ok = !(0x1f000000 <= p && p <= 0x1f0003ff) || (p & 0x3ff) as usize + 3 < SCRATCHPAD_SIZE;
    let bios_ok = !(0x1fc00000 <= p && p <= 0x1fc7ffff) || (p & 0x7ffff) as usize + 3 < BIOS_SIZE;
    ram_ok && sp_ok && bios_ok
}

impl Psx {
    fn qreg(&self, i: usize) -> (r: u32)
        requires
            i < 32,
        ensures
            r == self.cpu.regs@[i as int],
    {
        self.cpu.regs[i]
    }

    fn qset(&mut self, i: usize, v: u32)
        requires
            i < 32,
        ensures
            final(self).cpu.regs@ == old(self).cpu.regs@.update(i as int, v),
            *final(self) == (Psx { cpu: Cpu { regs: final(self).cpu.regs, ..old(self).cpu }, ..*old(self) }),
    {
        self.cpu.regs.set(i, v);
    }

    /// Execute one instruction word the way the frame loop does.
    fn execute_cpu_instruction(&mut self, instruction: u32)
        requires
            old(self).wf(),
        ensures
            final(self).wf(),
            quick_exec_post(*old(self), *final(self), instruction),
    {
        let ghost op = *self;
        let opcode = (instruction >> 26) & 0x3f;
        let rs = ((instruction >> 21) & 0x1f) as usize;
        let rt = ((instruction >> 16) & 0x1f) as usize;
        let rd = ((instruction >> 11) & 0x1f) as usize;
        let imm = instruction & 0xffff;
        let imm_se = (imm as i16) as i32 as u32;
        proof {
            crate::bits::lemma_and_le(instruction >> 21u32, 0x1f);
            crate::bits::lemma_and_le(instruction >> 16u32, 0x1f);
            crate::bits::lemma_and_le(instruction >> 11u32, 0x1f);
            crate::bits::lemma_and_le(instruction >> 6u32, 0x1f);
        }
        if opcode == 0x00 {
            let funct = instruction & 0x3f;
            if funct == 0x00 {
                let sa = ((instruction >> 6) & 0x1f) as u32;
                if rd != 0 { let v = self.qreg(rt) << sa; self.qset(rd, v); }
            } else if funct == 0x02 {
                let sa = ((instruction >> 6) & 0x1f) as u32;
                if rd != 0 { let v = self.qreg(rt) >> sa; self.qset(rd, v); }
            } else if funct == 0x08 {
                self.cpu.next_pc = self.qreg(rs);
            } else if funct == 0x09 {
                let ra = self.cpu.next_pc;
                self.cpu.next_pc = self.qreg(rs);
                if rd != 0 { self.qset(rd, ra); }
            } else if funct == 0x20 {
                if rd != 0 { let v = (self.qreg(rs) as i32).wrapping_add(self.qreg(rt) as i32) as u32; self.qset(rd, v); }
            } else if funct == 0x21 {
                if rd != 0 { let v = self.qreg(rs).wrapping_add(self.qreg(rt)); self.qset(rd, v); }
            } else if funct == 0x23 {
                if rd != 0 { let v = self.qreg(rs).wrapping_sub(self.qreg(rt)); self.qset(rd, v); }
            } else if funct == 0x24 {
                if rd != 0 { let v = self.qreg(rs) & self.qreg(rt); self.qset(rd, v); }
            } else if funct == 0x25 {
                if rd != 0 { let v = self.qreg(rs) | self.qreg(rt); self.qset(rd, v); }
            } else if funct == 0x26 {
                if rd != 0 { let v = self.qreg(rs) ^ self.qreg(rt); self.qset(rd, v); }
            } else if funct == 0x27 {
                if rd != 0 { let v = !(self.qreg(rs) | self.qreg(rt)); self.qset(rd, v); }
            } else if funct == 0x2a {
                if rd != 0 { let v = if (self.qreg(rs) as i32) < (self.qreg(rt) as i32) { 1 } else { 0 }; self.qset(rd, v); }
            } else if funct == 0x2b {
                if rd != 0 { let v = if self.qreg(rs) < self.qreg(rt) { 1 } else { 0 }; self.qset(rd, v); }
            }
        } else if opcode == 0x02 {
            self.cpu.next_pc = (self.cpu.pc & 0xf0000000) | ((instruction & 0x3ffffff) << 2);
        } else if opcode == 0x03 {
            let ra = self.cpu.next_pc;
            self.qset(31, ra);
            self.cpu.next_pc = (self.cpu.pc & 0xf0000000) | ((instruction & 0x3ffffff) << 2);
        } else if opcode == 0x04 {
            if self.qreg(rs) == self.qreg(rt) { self.cpu.next_pc = self.cpu.pc.wrapping_add(imm_se << 2); }
        } else if opcode == 0x05 {
            if self.qreg(rs) != self.qreg(rt) { self.cpu.next_pc = self.cpu.pc.wrapping_add(imm_se << 2); }
        } else if opcode == 0x06 {
            if (self.qreg(rs) as i32) <= 0 { self.cpu.next_pc = self.cpu.pc.wrapping_add(imm_se << 2); }
        } else if opcode == 0x07 {
            if (self.qreg(rs) as i32) > 0 { self.cpu.next_pc = self.cpu.pc.wrapping_add(imm_se << 2); }
        } else if opcode == 0x08 {
            if rt != 0 { let v = (self.qreg(rs) as i32).wrapping_add(imm_se as i32) as u32; self.qset(rt, v); }
        } else if opcode == 0x09 {
            if rt != 0 { let v = self.qreg(rs).wrapping_add(imm_se); self.qset(rt, v); }
        } else if opcode == 0x0a {
            if rt != 0 { let v = if (self.qreg(rs) as i32) < (imm_se as i32) { 1 } else { 0 }; self.qset(rt, v); }
        } else if opcode == 0x0b {
            if rt != 0 { let v = if self.qreg(rs) < imm_se { 1 } else { 0 }; self.qset(rt, v); }
        } else if opcode == 0x0c {
            if rt != 0 { let v = self.qreg(rs) & imm; self.qset(rt, v); }
        } else if opcode == 0x0d {
            if rt != 0 { let v = self.qreg(rs) | imm; self.qset(rt, v); }
        } else if opcode == 0x0e {
            if rt != 0 { let v = self.qreg(rs) ^ imm; self.qset(rt, v); }
        } else if opcode == 0x0f {
            if rt != 0 { self.qset(rt, imm << 16); }
        } else if opcode == 0x10 {
            let cop_op = (instruction >> 21) & 0x1f;
            if cop_op == 0x00 {
                if rt != 0 { let v = self.cop0.read_reg(rd as u8); self.qset(rt, v); }
            } else if cop_op == 0x04 {
                let v = self.qreg(rt);
                self.cop0.write_reg(rd as u8, v);
            } else if cop_op == 0x10 {
                if instruction & 0x3f == 0x10 { self.cop0.rfe(); }
            }
        } else if opcode == 0x20 || opcode == 0x24 {
            let addr = self.qreg(rs).wrapping_add(imm_se);
            if rt != 0 {
                if let Ok(val) = self.load8(addr) {
                    let v = if opcode == 0x20 { (val as i8) as i32 as u32 } else { val as u32 };
                    self.qset(rt, v);
                }
            }
        } else if opcode == 0x21 || opcode == 0x25 {
            let addr = self.qreg(rs).wrapping_add(imm_se);
            if rt != 0 && addr < 0xffffffff {
                if let Ok(val) = self.load16(addr) {
                    let v = if opcode == 0x21 { (val as i16) as i32 as u32 } else { val as u32 };
                    self.qset(rt, v);
                }
            }
        } else if opcode == 0x23 {
            let addr = self.qreg(rs).wrapping_add(imm_se);
            if rt != 0 && word_access_in_bounds(addr) {
                if let Ok(val) = self.load32(addr) {
                    self.qset(rt, val);
                }
            }
        } else if opcode == 0x28 {
            let addr = self.qreg(rs).wrapping_add(imm_se);
            let v = self.qreg(rt) as u8;
            let _ = self.store8(addr, v);
        } else if opcode == 0x29 {
            let addr = self.qreg(rs).wrapping_add(imm_se);
            if addr < 0xffffffff {
                let v = self.qreg(rt) as u16;
                let _ = self.store16(addr, v);
            }
        } else if opcode == 0x2b {
            let addr = self.qreg(rs).wrapping_add(imm_se);
            if word_access_in_bounds(addr) {
                let v = self.qreg(rt);
                let _ = self.store32(addr, v);
            }
        }
        let ghost mid = *self;
        assert(quick_core(op, mid, instruction));
        self.qset(0, 0);
    }
}


/// The little-endian word of `d` at offset `o`.
pub open spec fn exe_word(d: Seq<u8>, o: int) -> u32 {
    le32(d[o], d[o + 1], d[o + 2], d[o + 3])
}

/// Whether `d` starts with the executable magic "PS-X EXE".
pub open spec fn has_exe_magic(d: Seq<u8>) -> bool {
    &&& d.len() >= 8
    &&& d[0] == 0x50 && d[1] == 0x53 && d[2] == 0x2d && d[3] == 0x58
    &&& d[4] == 0x20 && d[5] == 0x45 && d[6] == 0x58 && d[7] == 0x45
}

/// Whether `d` is accepted as an executable: a full header and the magic.
pub open spec fn exe_valid(d: Seq<u8>) -> bool {
    d.len() >= 0x800 && has_exe_magic(d)
}

/// How many bytes of the executable's body are copied to RAM.
pub open spec fn exe_copy_len(d: Seq<u8>) -> int {
    let size = exe_word(d, 0x1c) as int;
    let avail = d.len() - 0x800;
    if size < avail { size } else { avail }
}

/// RAM after an executable body is copied in, when it fits.
pub open spec fn exe_ram(old_ram: Seq<u8>, d: Seq<u8>) -> Seq<u8> {
    let dest = (exe_word(d, 0x18) & 0x1fffff) as int;
    let n = exe_copy_len(d);
    if dest + n <= old_ram.len() {
        Seq::new(old_ram.len(), |i: int| if dest <= i < dest + n { d[0x800 + i - dest] } else { old_ram[i] })
    } else {
        old_ram
    }
}

/// The console after the valid executable `d` is loaded into `old`.
pub open spec fn exe_loaded(old: Psx, new: Psx, d: Seq<u8>) -> bool {
    let pc = exe_word(d, 0x10);
    let gp = exe_word(d, 0x14);
    let sp = exe_word(d, 0x30);
    &&& new.ram@ == exe_ram(old.ram@, d)
    &&& new.cpu.regs@ == old.cpu.regs@.update(28, gp).update(29, if sp != 0 { sp } else { 0x801fff00 })
    &&& new == (Psx {
        ram: new.ram,
        cpu: Cpu { pc: pc, next_pc: (pc + 4) as u32, regs: new.cpu.regs, ..old.cpu },
        ..old
    })
}

/// Set every byte of `v` to zero.
fn clear_bytes(v: &mut Vec<u8>)
    ensures
        final(v)@.len() == old(v)@.len(),
        forall|i: int| 0 <= i < final(v)@.len() ==> #[trigger] final(v)@[i] == 0,
{
    let mut i: usize = 0;
    while i < v.len()
        invariant
            i <= v@.len(),
            v@.len() == old(v)@.len(),
            forall|j: int| 0 <= j < i ==> #[trigger] v@[j] == 0,
        decreases v@.len() - i,
    {
        v.set(i, 0);
        i = i + 1;
    }
}

/// The little-endian word of `d` at offset `o`, computed.
fn read_word(d: &[u8], o: usize) -> (r: u32)
    requires
        o + 4 <= d@.len(),
    ensures
        r == exe_word(d@, o as int),
{
    (d[o] as u32) | ((d[o + 1] as u32) << 8) | ((d[o + 2] as u32) << 16) | ((d[o + 3] as u32) << 24)
}

/// Whether `d` starts with the executable magic, computed.
fn check_exe_magic(d: &[u8]) -> (r: bool)
    ensures
        r == has_exe_magic(d@),
{
    d.len() >= 8 && d[0] == 0x50 && d[1] == 0x53 && d[2] == 0x2d && d[3] == 0x58
        && d[4] == 0x20 && d[5] == 0x45 && d[6] == 0x58 && d[7] == 0x45
}

impl Psx {
    /// The power-on state: zeroed registers and memories, reset vector, first event due.
    pub open spec fn after_reset(&self) -> bool {
        &&& self.wf()
        &&& self.cpu.regs@ == Seq::new(32, |i: int| 0u32)
        &&& self.cpu.pc == 0xbfc00000 && self.cpu.next_pc == 0xbfc00004
        &&& forall|i: int| 0 <= i < RAM_SIZE ==> #[trigger] self.ram@[i] == 0
        &&& forall|i: int| 0 <= i < SCRATCHPAD_SIZE ==> #[trigger] self.scratchpad@[i] == 0
        &&& forall|i: int| 0 <= i < gpu::VRAM_SIZE ==> #[trigger] self.gpu.vram@[i] == 0
        &&& self.cop0.regs@[12] == 0x10900000
        &&& self.irq.status == 0 && self.irq.mask == 0
        &&& self.dma.control == 0x07654321
        &&& self.cycle_counter == 0 && self.next_event == 100
        &&& !self.frame_done
    }

    /// A console at power-on, with a blank BIOS.
    pub fn new() -> (r: Result<Psx>)
        ensures
            r matches Ok(p) && p.after_reset() && p.vblank_counter == 0
                && forall|i: int| 0 <= i < BIOS_SIZE ==> #[trigger] p.bios@[i] == 0,
    {
        let gpu = Gpu::new();
        let p = Psx {
            cpu: Cpu::new(),
            cop0: Cop0::new(),
            gte: Gte::new(),
            gpu: gpu,
            dma: Dma::new(),
            irq: InterruptState::new(),
            timers: Timers::new(),
            ram: vec![0; RAM_SIZE],
            bios: vec![0; BIOS_SIZE],
            scratchpad: vec![0; SCRATCHPAD_SIZE],
            cycle_counter: 0,
            next_event: 100,
            vblank_counter: 0,
            frame_done: false,
        };
        proof {
            assert(p.gpu.gp0_wf());
        }
        Ok(p)
    }

    /// Return to the power-on state, keeping the BIOS.
    pub fn reset(&mut self)
        requires
            old(self).wf(),
        ensures
            final(self).after_reset(),
            final(self).bios == old(self).bios,
            final(self).vblank_counter == old(self).vblank_counter,
    {
        self.cpu.reset();
        self.cop0 = Cop0::new();
        self.gte = Gte::new();
        self.gpu = Gpu::new();
        self.dma = Dma::new();
        self.irq = InterruptState::new();
        self.timers = Timers::new();
        clear_bytes(&mut self.ram);
        clear_bytes(&mut self.scratchpad);
        self.cycle_counter = 0;
        self.next_event = 100;
        self.frame_done = false;
    }

    /// Prepare for a boot from disc; the BIOS does the rest.
    pub fn init_with_disc(&mut self) -> (r: Result<()>)
        ensures
            r is Ok,
            *final(self) == *old(self),
    {
        Ok(())
    }

    /// Install a BIOS image: it must be exactly `BIOS_SIZE` bytes.
    pub fn load_bios(&mut self, data: &[u8]) -> (r: Result<()>)
        requires
            old(self).bios@.len() == BIOS_SIZE,
        ensures
            data@.len() == BIOS_SIZE ==> r is Ok && final(self).bios@ == data@
                && *final(self) == (Psx { bios: final(self).bios, ..*old(self) }),
            data@.len() != BIOS_SIZE ==> (r matches Err(PsxError::InvalidBios { .. })) && *final(self) == *old(self),
    {
        if data.len() != BIOS_SIZE {
            return Err(PsxError::invalid_bios("Invalid BIOS size"));
        }
        let mut i: usize = 0;
        while i < data.len()
            invariant
                data@.len() == BIOS_SIZE,
                i <= BIOS_SIZE,
                self.bios@.len() == BIOS_SIZE,
                *self == (Psx { bios: self.bios, ..*old(self) }),
                forall|j: int| 0 <= j < i ==> #[trigger] self.bios@[j] == data@[j],
            decreases BIOS_SIZE - i,
        {
            self.bios.set(i, data[i]);
            i = i + 1;
        }
        assert(self.bios@ =~= data@);
        Ok(())
    }

    /// Load a PS-X EXE image: copy its body to RAM and set PC, GP and SP from its header.
    pub fn load_exe(&mut self, data: &[u8]) -> (r: Result<()>)
        requires
            old(self).wf(),
            exe_valid(data@) ==> exe_word(data@, 0x10) <= 0xfffffffb,
        ensures
            exe_valid(data@) ==> r is Ok && exe_loaded(*old(self), *final(self), data@),
            !exe_valid(data@) ==> (r matches Err(PsxError::InvalidExe { .. })) && *final(self) == *old(self),
    {
        if data.len() < 0x800 {
            return Err(PsxError::invalid_exe("Invalid EXE size"));
        }
        if !check_exe_magic(data) {
            return Err(PsxError::invalid_exe("Invalid EXE size"));
        }
        let pc = read_word(data, 0x10);
        let gp = read_word(data, 0x14);
        let dest = read_word(data, 0x18);
        let size = read_word(data, 0x1c) as usize;
        let sp = read_word(data, 0x30);
        let dest_offset = (dest & 0x1fffff) as usize;
        let avail = data.len() - 0x800;
        let exe_size = if size < avail { size } else { avail };
        proof {
            crate::bits::lemma_and_le(dest, 0x1fffff);
        }
        let ghost old_ram = self.ram@;
        if exe_size <= self.ram.len() - dest_offset {
            let mut i: usize = 0;
            while i < exe_size
                invariant
                    self.ram@.len() == old_ram.len(),
                    old_ram.len() == RAM_SIZE,
                    dest_offset + exe_size <= old_ram.len(),
                    exe_size + 0x800 <= data@.len(),
                    data@.len() <= usize::MAX,
                    i <= exe_size,
                    forall|j: int| 0 <= j < old_ram.len() ==> #[trigger] self.ram@[j] == (
                        if dest_offset <= j < dest_offset + i { data@[0x800 + j - dest_offset] } else { old_ram[j] }),
                    *self == (Psx { ram: self.ram, ..*old(self) }),
                decreases exe_size - i,
            {
                self.ram.set(dest_offset + i, data[0x800 + i]);
                i = i + 1;
            }
        }
        assert(self.ram@ =~= exe_ram(old_ram, data@));
        self.cpu.pc = pc;
        self.cpu.next_pc = pc + 4;
        self.cpu.regs.set(28, gp);
        self.cpu.regs.set(29, if sp != 0 { sp } else { 0x801fff00 });
        Ok(())
    }

    /// Controller input is accepted and ignored.
    pub fn set_controller_state(&mut self, controller: usize, state: u16)
        ensures
            *final(self) == *old(self),
    {
    }

    /// Render the GPU's displayed area as 640x480 RGBA bytes.
    pub fn get_framebuffer(&self, buffer: &mut Vec<u8>)
        requires
            self.wf(),
        ensures
            gpu::framebuffer_of(final(buffer)@, self.gpu.vram@, self.gpu.display_x, self.gpu.display_y),
    {
        self.gpu.get_framebuffer(buffer);
    }
}


/// What the frame loop's instruction executor leaves alone, and how far it moves the
/// cycle counter: it makes at most two counted bus accesses.
proof fn lemma_quick_core_timing(op: Psx, np: Psx, ins: u32)
    requires
        quick_core(op, np, ins),
    ensures
        np.next_event == op.next_event,
        np.vblank_counter == op.vblank_counter,
        np.frame_done == op.frame_done,
        np.cycle_counter == op.cycle_counter
            || np.cycle_counter == op.cycle_counter.wrapping_add(1)
            || np.cycle_counter == op.cycle_counter.wrapping_add(1).wrapping_add(1),
{
}

proof fn lemma_quick_exec_timing(op: Psx, np: Psx, ins: u32)
    requires
        quick_exec_post(op, np, ins),
    ensures
        np.next_event == op.next_event,
        np.vblank_counter == op.vblank_counter,
        np.frame_done == op.frame_done,
        np.cycle_counter == op.cycle_counter
            || np.cycle_counter == op.cycle_counter.wrapping_add(1)
            || np.cycle_counter == op.cycle_counter.wrapping_add(1).wrapping_add(1),
{
    let mid = choose|mid: Psx| #[trigger] quick_core(op, mid, ins)
        && np.cpu.regs@ == mid.cpu.regs@.update(0, 0)
        && np == (Psx { cpu: Cpu { regs: np.cpu.regs, ..mid.cpu }, ..mid });
    lemma_quick_core_timing(op, mid, ins);
}

impl Psx {
    /// Advance the event clock: count toward the next vertical blank, and at it raise the
    /// VBlank interrupt and end the frame.
    fn handle_events(&mut self)
        requires
            0 <= old(self).vblank_counter < VBLANK_PERIOD,
            0 < old(self).next_event <= 0x7400_0000,
        ensures
            final(self).next_event == old(self).next_event + 1000,
            old(self).vblank_counter + old(self).next_event >= VBLANK_PERIOD ==> {
                &&& final(self).vblank_counter == 0
                &&& final(self).frame_done
                &&& final(self).irq.status == old(self).irq.status | irq::interrupt_bit(Interrupt::VBlank)
            },
            old(self).vblank_counter + old(self).next_event < VBLANK_PERIOD ==> {
                &&& final(self).vblank_counter == old(self).vblank_counter + old(self).next_event
                &&& final(self).frame_done == old(self).frame_done
                &&& final(self).irq == old(self).irq
            },
            *final(self) == (Psx {
                next_event: final(self).next_event,
                vblank_counter: final(self).vblank_counter,
                frame_done: final(self).frame_done,
                irq: final(self).irq,
                ..*old(self)
            }),
    {
        self.vblank_counter = self.vblank_counter + self.next_event;
        if self.vblank_counter >= VBLANK_PERIOD {
            self.vblank_counter = 0;
            self.irq.request(Interrupt::VBlank);
            self.frame_done = true;
        }
        self.next_event = self.next_event + 1000;
    }

    /// Run the CPU until the next vertical blank.
    pub fn run_frame(&mut self) -> (r: Result<()>)
        requires
            old(self).wf(),
            0 <= old(self).vblank_counter < VBLANK_PERIOD,
            0 < old(self).next_event <= 0x5000_0000,
        ensures
            r is Ok,
            final(self).wf(),
            final(self).frame_done,
            final(self).vblank_counter == 0,
            final(self).irq.status & irq::interrupt_bit(Interrupt::VBlank) != 0,
            final(self).next_event > old(self).next_event,
            final(self).cycle_counter >= final(self).next_event - 1000,
    {
        self.frame_done = false;
        let ghost n0 = self.next_event;
        let ghost v0 = self.vblank_counter;
        let ghost mut k: int = 0;
        while !self.frame_done
            invariant
                self.wf(),
                0 < n0 <= 0x5000_0000,
                0 <= v0 < VBLANK_PERIOD,
                n0 == old(self).next_event,
                0 <= k <= VBLANK_PERIOD,
                self.next_event == n0 + 1000 * k,
                !self.frame_done ==> v0 + k <= self.vblank_counter < VBLANK_PERIOD,
                self.frame_done ==> {
                    &&& self.vblank_counter == 0
                    &&& self.irq.status & irq::interrupt_bit(Interrupt::VBlank) != 0
                    &&& self.cycle_counter >= self.next_event - 1000
                    &&& k >= 1
                },
            decreases VBLANK_PERIOD - k,
        {
            let ghost ne = self.next_event;
            let ghost cc0 = self.cycle_counter;
            while self.cycle_counter < self.next_event
                invariant
                    self.wf(),
                    self.next_event == ne,
                    0 < ne <= 0x5000_0000 + 1000 * VBLANK_PERIOD,
                    !self.frame_done,
                    v0 + k <= self.vblank_counter < VBLANK_PERIOD,
                    self.cycle_counter <= ne + 3 || self.cycle_counter == cc0,
                decreases ne + 3 - self.cycle_counter,
            {
                let ghost head = self.cycle_counter;
                proof {
                    assert(head < 0x7fff_0000 ==> head.wrapping_add(1) == head + 1) by (bit_vector);
                }
                self.cpu.current_pc = self.cpu.pc;
                let pc = self.cpu.pc;
                let instruction = if word_access_in_bounds(pc) {
                    match self.load32(pc) {
                        Ok(v) => v,
                        Err(_) => 0,
                    }
                } else {
                    0
                };
                self.cpu.pc = self.cpu.next_pc;
                self.cpu.next_pc = self.cpu.pc.wrapping_add(4);
                let ghost before = *self;
                assert(before.cycle_counter == head || before.cycle_counter == head + 1);
                self.execute_cpu_instruction(instruction);
                proof {
                    lemma_quick_exec_timing(before, *self, instruction);
                    let c = before.cycle_counter;
                    assert(c < 0x7fff_0000 ==> c.wrapping_add(1) == c + 1 && c.wrapping_add(1).wrapping_add(1) == c + 2) by (bit_vector);
                }
                self.cycle_counter = self.cycle_counter + 1;
                if self.cop0.interrupt_pending(&self.irq) {
                    let handler = self.cop0.exception(Exception::Interrupt, self.cpu.current_pc, false);
                    self.cpu.pc = handler;
                    self.cpu.next_pc = handler.wrapping_add(4);
                }
            }
            let ghost s_before = *self;
            self.handle_events();
            proof {
                k = k + 1;
                if self.frame_done {
                    let st = s_before.irq.status;
                    assert((st | 1u16) & 1u16 != 0) by (bit_vector);
                }
            }
        }
        Ok(())
    }
}

} // verus!
