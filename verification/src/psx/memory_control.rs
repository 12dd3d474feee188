//! Memory control: per-region timing parameters, wait states and the RAM size setting.

use vstd::prelude::*;
use super::cache::AccessWidth;

verus! {

/// Data bus width of a memory region.
#[derive(Debug, Clone, Copy, PartialEq, Eq, Structural)]
pub enum BusWidth {
    Width8,
    Width16,
    Width32,
}

/// Timing parameters of one memory region.
#[derive(Debug, Clone, Copy, PartialEq, Eq, Structural)]
pub struct MemoryTiming {
    pub first_access_time: u8,
    pub sequential_access_time: u8,
    pub min_access_delay: u8,
    pub recovery_time: u8,
    pub hold_time: u8,
    pub float_time: u8,
    pub pre_strobe: u8,
    pub strobe_width: u8,
    pub use_com_delays: bool,
    pub bus_width: BusWidth,
    pub auto_increment: bool,
}

/// The timing decoded from a delay/size register value.
pub open spec fn timing_of(value: u32) -> MemoryTiming {
    MemoryTiming {
        first_access_time: (value & 0x1f) as u8,
        sequential_access_time: ((value >> 5u32) & 0x1f) as u8,
        min_access_delay: ((value >> 10u32) & 0x07) as u8,
        recovery_time: ((value >> 13u32) & 0x03) as u8,
        hold_time: ((value >> 16u32) & 0x03) as u8,
        float_time: ((value >> 18u32) & 0x03) as u8,
        pre_strobe: ((value >> 20u32) & 0x01) as u8,
        strobe_width: ((value >> 21u32) & 0x03) as u8,
        use_com_delays: value & 0x01000000 != 0,
        bus_width: if (value >> 25u32) & 0x03 == 0 {
            BusWidth::Width8
        } else if (value >> 25u32) & 0x03 == 1 {
            BusWidth::Width16
        } else {
            BusWidth::Width32
        },
        auto_increment: value & 0x10000000 != 0,
    }
}

/// The register field that encodes a bus width.
pub open spec fn width_bits(w: BusWidth) -> u32 {
    match w {
        BusWidth::Width8 => 0,
        BusWidth::Width16 => 1,
        BusWidth::Width32 => 2,
    }
}

/// The register value that encodes `t`; each field is cut to its width.
pub open spec fn timing_word(t: MemoryTiming) -> u32 {
    ((t.first_access_time as u32) & 0x1f)
        | (((t.sequential_access_time as u32) & 0x1f) << 5u32)
        | (((t.min_access_delay as u32) & 0x07) << 10u32)
        | (((t.recovery_time as u32) & 0x03) << 13u32)
        | (((t.hold_time as u32) & 0x03) << 16u32)
        | (((t.float_time as u32) & 0x03) << 18u32)
        | (((t.pre_strobe as u32) & 0x01) << 20u32)
        | (((t.strobe_width as u32) & 0x03) << 21u32)
        | (if t.use_com_delays { 0x01000000u32 } else { 0 })
        | (width_bits(t.bus_width) << 25u32)
        | (if t.auto_increment { 0x10000000u32 } else { 0 })
}

/// The access time of `t` in cycles: the base time plus recovery, plus the strobe, hold
/// and float delays when COM delays are on, and at least the minimum delay.
pub open spec fn access_time(t: MemoryTiming, sequential: bool) -> i32 {
    let base = if sequential { t.sequential_access_time } else { t.first_access_time };
    let extra = if t.use_com_delays {
        t.pre_strobe + t.strobe_width + t.hold_time + t.float_time
    } else {
        0
    };
    let total = base + t.recovery_time + extra;
    if total >= t.min_access_delay { total as i32 } else { t.min_access_delay as i32 }
}

impl MemoryTiming {
    /// The default timing: 4/2 cycles, 32-bit bus.
    pub fn new() -> (r: Self)
        ensures
            r == (MemoryTiming {
                first_access_time: 4,
                sequential_access_time: 2,
                min_access_delay: 1,
                recovery_time: 1,
                hold_time: 1,
                float_time: 1,
                pre_strobe: 1,
                strobe_width: 1,
                use_com_delays: false,
                bus_width: BusWidth::Width32,
                auto_increment: false,
            }),
    {
        MemoryTiming {
            first_access_time: 4,
            sequential_access_time: 2,
            min_access_delay: 1,
            recovery_time: 1,
            hold_time: 1,
            float_time: 1,
            pre_strobe: 1,
            strobe_width: 1,
            use_com_delays: false,
            bus_width: BusWidth::Width32,
            auto_increment: false,
        }
    }

    /// Decode a delay/size register value.
    pub fn from_u32(value: u32) -> (r: Self)
        ensures
            r == timing_of(value),
    {
        let w = (value >> 25) & 0x03;
        MemoryTiming {
            first_access_time: (value & 0x1F) as u8,
            sequential_access_time: ((value >> 5) & 0x1F) as u8,
            min_access_delay: ((value >> 10) & 0x07) as u8,
            recovery_time: ((value >> 13) & 0x03) as u8,
            hold_time: ((value >> 16) & 0x03) as u8,
            float_time: ((value >> 18) & 0x03) as u8,
            pre_strobe: ((value >> 20) & 0x01) as u8,
            strobe_width: ((value >> 21) & 0x03) as u8,
            use_com_delays: (value & 0x01000000) != 0,
            bus_width: if w == 0 {
                BusWidth::Width8
            } else if w == 1 {
                BusWidth::Width16
            } else {
                BusWidth::Width32
            },
            auto_increment: (value & 0x10000000) != 0,
        }
    }

    /// Encode as a delay/size register value.
    pub fn to_u32(&self) -> (r: u32)
        ensures
            r == timing_word(*self),
    {
        let width_bits: u32 = match self.bus_width {
            BusWidth::Width8 => 0,
            BusWidth::Width16 => 1,
            BusWidth::Width32 => 2,
        };
        ((self.first_access_time as u32) & 0x1F)
            | (((self.sequential_access_time as u32) & 0x1F) << 5)
            | (((self.min_access_delay as u32) & 0x07) << 10)
            | (((self.recovery_time as u32) & 0x03) << 13)
            | (((self.hold_time as u32) & 0x03) << 16)
            | (((self.float_time as u32) & 0x03) << 18)
            | (((self.pre_strobe as u32) & 0x01) << 20)
            | (((self.strobe_width as u32) & 0x03) << 21)
            | (if self.use_com_delays { 0x01000000u32 } else { 0 })
            | (width_bits << 25)
            | (if self.auto_increment { 0x10000000u32 } else { 0 })
    }

    /// The access time in cycles.
    pub fn calculate_access_time(&self, sequential: bool) -> (r: i32)
        ensures
            r == access_time(*self, sequential),
    {
        let base_time = if sequential { self.sequential_access_time } else { self.first_access_time };
        let mut total: i32 = base_time as i32;
        total = total + self.recovery_time as i32;
        if self.use_com_delays {
            total = total + self.pre_strobe as i32;
            total = total + self.strobe_width as i32;
            total = total + self.hold_time as i32;
            total = total + self.float_time as i32;
        }
        let min = self.min_access_delay as i32;
        if total >= min { total } else { min }
    }
}

/// Encoding a decoded register value keeps every field bit, as long as the bus width
/// field is not the reserved value 3.
pub proof fn lemma_timing_roundtrip(value: u32)
    requires
        (value >> 25u32) & 0x03 != 3,
    ensures
        timing_word(timing_of(value)) == value & 0x177F7FFF,
{
    let w = (value >> 25u32) & 0x03;
    crate::bits::lemma_and_le(value >> 25u32, 0x03);
    assert(w == (value >> 25u32) & 0x03 ==>
        (((value & 0x1f) as u8 as u32) & 0x1f)
        | (((((value >> 5u32) & 0x1f) as u8 as u32) & 0x1f) << 5u32)
        | (((((value >> 10u32) & 0x07) as u8 as u32) & 0x07) << 10u32)
        | (((((value >> 13u32) & 0x03) as u8 as u32) & 0x03) << 13u32)
        | (((((value >> 16u32) & 0x03) as u8 as u32) & 0x03) << 16u32)
        | (((((value >> 18u32) & 0x03) as u8 as u32) & 0x03) << 18u32)
        | (((((value >> 20u32) & 0x01) as u8 as u32) & 0x01) << 20u32)
        | (((((value >> 21u32) & 0x03) as u8 as u32) & 0x03) << 21u32)
        | (if value & 0x01000000 != 0 { 0x01000000u32 } else { 0 })
        | (w << 25u32)
        | (if value & 0x10000000 != 0 { 0x10000000u32 } else { 0 }) == value & 0x177F7FFF) by (bit_vector);
}

/// The RAM size setting.
#[derive(Debug, Clone, Copy, PartialEq, Eq, Structural)]
pub enum RamSize {
    Ram2MB,
    Ram8MB,
}

/// The memory control registers.
pub struct MemoryControl {
    pub exp1_base: u32,
    pub exp2_base: u32,
    pub exp3_base: u32,
    pub exp1_config: MemoryTiming,
    pub exp2_config: MemoryTiming,
    pub exp3_config: MemoryTiming,
    pub bios_config: MemoryTiming,
    pub spu_config: MemoryTiming,
    pub cdrom_config: MemoryTiming,
    pub common_delay: u32,
    pub ram_size: RamSize,
    pub registers: [u32; 9],
}

/// The timing that applies to `address` under `c`.
pub open spec fn timing_for(c: MemoryControl, address: u32) -> MemoryTiming {
    let top = address >> 24u32;
    if top <= 0x7f {
        MemoryTiming { first_access_time: 1, sequential_access_time: 1, ..MemoryTiming::default_spec() }
    } else if top == 0xbf {
        c.bios_config
    } else {
        MemoryTiming::default_spec()
    }
}

/// The access penalty for `width` on a region with timing `t`: the access time, doubled
/// or quadrupled when the bus is narrower than the access.
pub open spec fn penalty_for(t: MemoryTiming, width: AccessWidth, sequential: bool) -> i32 {
    let p = access_time(t, sequential);
    match (t.bus_width, width) {
        (BusWidth::Width8, AccessWidth::HalfWord) => (p * 2) as i32,
        (BusWidth::Width8, AccessWidth::Word) => (p * 4) as i32,
        (BusWidth::Width16, AccessWidth::Word) => (p * 2) as i32,
        _ => p,
    }
}

impl MemoryTiming {
    /// The default timing, as a value.
    pub open spec fn default_spec() -> MemoryTiming {
        MemoryTiming {
            first_access_time: 4,
            sequential_access_time: 2,
            min_access_delay: 1,
            recovery_time: 1,
            hold_time: 1,
            float_time: 1,
            pre_strobe: 1,
            strobe_width: 1,
            use_com_delays: false,
            bus_width: BusWidth::Width32,
            auto_increment: false,
        }
    }
}

impl MemoryControl {
    /// The configuration the BIOS sets up.
    pub fn new() -> (r: Self)
        ensures
            r.exp1_base == 0x1F000000 && r.exp2_base == 0x1F802000 && r.exp3_base == 0x1FA00000,
            r.exp1_config == timing_of(0x0013243F),
            r.exp2_config == timing_of(0x00003022),
            r.exp3_config == timing_of(0x0013243F),
            r.bios_config == timing_of(0x0013243F),
            r.spu_config == timing_of(0x200931E1),
            r.cdrom_config == timing_of(0x00020843),
            r.common_delay == 0x00031125,
            r.ram_size == RamSize::Ram2MB,
            r.registers@ == seq![
                0x1F000000u32,
                0x1F802000u32,
                timing_word(timing_of(0x0013243F)),
                timing_word(timing_of(0x0013243F)),
                timing_word(timing_of(0x0013243F)),
                timing_word(timing_of(0x200931E1)),
                timing_word(timing_of(0x00020843)),
                timing_word(timing_of(0x00003022)),
                0x00031125u32,
            ],
    {
        let mut ctrl = MemoryControl {
            exp1_base: 0x1F000000,
            exp2_base: 0x1F802000,
            exp3_base: 0x1FA00000,
            exp1_config: MemoryTiming::from_u32(0x0013243F),
            exp2_config: MemoryTiming::from_u32(0x00003022),
            exp3_config: MemoryTiming::from_u32(0x0013243F),
            bios_config: MemoryTiming::from_u32(0x0013243F),
            spu_config: MemoryTiming::from_u32(0x200931E1),
            cdrom_config: MemoryTiming::from_u32(0x00020843),
            common_delay: 0x00031125,
            ram_size: RamSize::Ram2MB,
            registers: [0; 9],
        };
        let r0 = ctrl.exp1_base;
        let r1 = ctrl.exp2_base;
        let r2 = ctrl.exp1_config.to_u32();
        let r3 = ctrl.exp3_config.to_u32();
        let r4 = ctrl.bios_config.to_u32();
        let r5 = ctrl.spu_config.to_u32();
        let r6 = ctrl.cdrom_config.to_u32();
        let r7 = ctrl.exp2_config.to_u32();
        let r8 = ctrl.common_delay;
        ctrl.registers = [r0, r1, r2, r3, r4, r5, r6, r7, r8];
        ctrl
    }

    /// Read register `index`; all ones past the ninth.
    pub fn read(&self, index: usize) -> (r: u32)
        ensures
            index < 9 ==> r == self.registers@[index as int],
            index >= 9 ==> r == 0xFFFFFFFF,
    {
        if index < 9 {
            self.registers[index]
        } else {
            0xFFFFFFFF
        }
    }

    /// Write register `index` and update the configuration it controls; writes past the
    /// ninth register are ignored.
    pub fn write(&mut self, index: usize, value: u32)
        ensures
            index >= 9 ==> *final(self) == *old(self),
            index < 9 ==> final(self).registers@ == old(self).registers@.update(index as int, value),
            index < 9 ==> *final(self) == (MemoryControl {
                registers: final(self).registers,
                exp1_base: if index == 0 { value & 0xFFFFFF00 } else { old(self).exp1_base },
                exp2_base: if index == 1 { value & 0xFFFFFF00 } else { old(self).exp2_base },
                exp1_config: if index == 2 { timing_of(value) } else { old(self).exp1_config },
                exp3_config: if index == 3 { timing_of(value) } else { old(self).exp3_config },
                bios_config: if index == 4 { timing_of(value) } else { old(self).bios_config },
                spu_config: if index == 5 { timing_of(value) } else { old(self).spu_config },
                cdrom_config: if index == 6 { timing_of(value) } else { old(self).cdrom_config },
                exp2_config: if index == 7 { timing_of(value) } else { old(self).exp2_config },
                common_delay: if index == 8 { value } else { old(self).common_delay },
                ..*old(self)
            }),
    {
        if index >= 9 {
            return;
        }
        self.registers.set(index, value);
        if index == 0 {
            self.exp1_base = value & 0xFFFFFF00;
        } else if index == 1 {
            self.exp2_base = value & 0xFFFFFF00;
        } else if index == 2 {
            self.exp1_config = MemoryTiming::from_u32(value);
        } else if index == 3 {
            self.exp3_config = MemoryTiming::from_u32(value);
        } else if index == 4 {
            self.bios_config = MemoryTiming::from_u32(value);
        } else if index == 5 {
            self.spu_config = MemoryTiming::from_u32(value);
        } else if index == 6 {
            self.cdrom_config = MemoryTiming::from_u32(value);
        } else if index == 7 {
            self.exp2_config = MemoryTiming::from_u32(value);
        } else {
            self.common_delay = value;
        }
    }

    /// The timing that applies to `address`: RAM timing below 0x80000000, the BIOS
    /// timing in the 0xBF region, the default elsewhere.
    pub fn get_timing(&self, address: u32) -> (r: MemoryTiming)
        ensures
            r == timing_for(*self, address),
    {
        let top = address >> 24;
        if top <= 0x7F {
            let mut timing = MemoryTiming::new();
            timing.first_access_time = 1;
            timing.sequential_access_time = 1;
            timing
        } else if top == 0xBF {
            self.bios_config
        } else {
            MemoryTiming::new()
        }
    }

    /// The penalty in cycles of an access of `width` at `address`.
    pub fn calculate_access_penalty(&self, address: u32, width: AccessWidth, sequential: bool) -> (r: i32)
        ensures
            r == penalty_for(timing_for(*self, address), width, sequential),
    {
        let timing = self.get_timing(address);
        let penalty = timing.calculate_access_time(sequential);
        match (timing.bus_width, width) {
            (BusWidth::Width8, AccessWidth::HalfWord) => penalty * 2,
            (BusWidth::Width8, AccessWidth::Word) => penalty * 4,
            (BusWidth::Width16, AccessWidth::Word) => penalty * 2,
            _ => penalty,
        }
    }

    /// Set the RAM size from bits 9..11 of `value`: all three set selects 8MB.
    pub fn set_ram_size(&mut self, value: u32)
        ensures
            *final(self) == (MemoryControl {
                ram_size: if (value >> 9u32) & 0x7 == 0x7 { RamSize::Ram8MB } else { RamSize::Ram2MB },
                ..*old(self)
            }),
    {
        self.ram_size = if (value >> 9) & 0x7 == 0x7 { RamSize::Ram8MB } else { RamSize::Ram2MB };
    }

    /// The RAM size in bytes.
    pub fn ram_size_bytes(&self) -> (r: usize)
        ensures
            self.ram_size == RamSize::Ram2MB ==> r == 2 * 1024 * 1024,
            self.ram_size == RamSize::Ram8MB ==> r == 8 * 1024 * 1024,
    {
        match self.ram_size {
            RamSize::Ram2MB => 2 * 1024 * 1024,
            RamSize::Ram8MB => 8 * 1024 * 1024,
        }
    }
}

} // verus!
