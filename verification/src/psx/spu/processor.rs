//! The sound processor's register file and sound RAM: the 24 voices' configuration,
//! the global volume, voice and reverb registers, transfers into sound RAM by the CPU
//! and by DMA, the RAM interrupt, and the noise generator.

use vstd::prelude::*;
use super::adpcm::{saturate16, saturate_to_i16, AdpcmHeader};
use super::envelope::{clamp_level, to_hi, to_lo, Adsr, EnvelopeParams};
use crate::psx::spu::{is_next_pow2, AudioBufferConfig, AudioRingBuffer};

verus! {

/// Sound RAM size in halfwords.
pub const SPU_RAM_SIZE: usize = 262144;

/// The number of halfword registers.
pub const SPU_REG_COUNT: usize = 320;

/// Register indices (in halfwords from the base) of the global registers.
pub const MAIN_VOLUME_LEFT: usize = 0xc0;
pub const MAIN_VOLUME_RIGHT: usize = 0xc1;
pub const REVERB_VOLUME_LEFT: usize = 0xc2;
pub const REVERB_VOLUME_RIGHT: usize = 0xc3;
pub const VOICE_ON_LO: usize = 0xc4;
pub const VOICE_ON_HI: usize = 0xc5;
pub const VOICE_OFF_LO: usize = 0xc6;
pub const VOICE_OFF_HI: usize = 0xc7;
pub const VOICE_FM_MOD_EN_LO: usize = 0xc8;
pub const VOICE_FM_MOD_EN_HI: usize = 0xc9;
pub const VOICE_NOISE_EN_LO: usize = 0xca;
pub const VOICE_NOISE_EN_HI: usize = 0xcb;
pub const VOICE_REVERB_EN_LO: usize = 0xcc;
pub const VOICE_REVERB_EN_HI: usize = 0xcd;
pub const VOICE_STATUS_LO: usize = 0xce;
pub const VOICE_STATUS_HI: usize = 0xcf;
pub const REVERB_BASE: usize = 0xd1;
pub const IRQ_ADDRESS: usize = 0xd2;
pub const TRANSFER_START_INDEX: usize = 0xd3;
pub const TRANSFER_FIFO: usize = 0xd4;
pub const CONTROL: usize = 0xd5;
pub const TRANSFER_CONTROL: usize = 0xd6;
pub const STATUS: usize = 0xd7;
pub const CD_VOLUME_LEFT: usize = 0xd8;
pub const CD_VOLUME_RIGHT: usize = 0xd9;
pub const CURRENT_VOLUME_LEFT: usize = 0xdc;
pub const CURRENT_VOLUME_RIGHT: usize = 0xdd;
pub const UNKNOWN_REGISTER: usize = 0xde;

/// How a volume is set: a fixed level, or a sweep.
#[derive(Debug, Clone, Copy, PartialEq, Eq, Structural)]
pub enum VolumeSetting {
    Fixed(i16),
    Sweep(EnvelopeParams),
}

/// A volume: its current level and how it is set.
#[derive(Debug, Clone, Copy, PartialEq, Eq, Structural)]
pub struct Volume {
    pub level: i16,
    pub config: VolumeSetting,
}

/// The setting that a volume register value selects: bit 15 clear is a fixed level of
/// the low 15 bits (doubled), bit 15 set a sweep.
pub open spec fn volume_setting_of(conf: u16) -> VolumeSetting {
    if conf & 0x8000 == 0 {
        VolumeSetting::Fixed((conf << 1u16) as i16)
    } else {
        VolumeSetting::Sweep(EnvelopeParams { divider_step: 0, level_step: 0, mode: super::envelope::EnvelopeMode::Linear })
    }
}

impl Volume {
    /// Level 0, fixed at 0.
    pub fn new() -> (r: Self)
        ensures
            r == (Volume { level: 0, config: VolumeSetting::Fixed(0) }),
    {
        Volume { level: 0, config: VolumeSetting::Fixed(0) }
    }

    /// Scale `sample` by the level, in 1.15 fixed point (rounded down).
    pub fn apply_level(&self, sample: i32) -> (r: i32)
        requires
            -32768 <= sample <= 32767,
        ensures
            r == (sample as int) * (self.level as int) / 32768,
    {
        assert(-32768 * 32768 <= sample * self.level <= 32768 * 32768) by (nonlinear_arith)
            requires -32768 <= sample <= 32767, -32768 <= self.level <= 32767;
        floor_div(sample * (self.level as i32), 32768)
    }

    /// One sweep cycle: a fixed volume takes its level. Sweeps are not run.
    pub fn run_sweep_cycle(&mut self)
        requires
            old(self).config is Fixed,
        ensures
            old(self).config matches VolumeSetting::Fixed(l) && *final(self) == (Volume { level: l, ..*old(self) }),
    {
        match self.config {
            VolumeSetting::Fixed(l) => {
                self.level = l;
            },
            VolumeSetting::Sweep(_) => {},
        }
    }

    /// Configure from a register value; the level follows at the next sweep cycle.
    pub fn set_config(&mut self, conf: u16)
        ensures
            *final(self) == (Volume { config: volume_setting_of(conf), ..*old(self) }),
    {
        if conf & 0x8000 == 0 {
            self.config = VolumeSetting::Fixed((conf << 1) as i16);
        } else {
            self.config = VolumeSetting::Sweep(EnvelopeParams::new());
        }
    }
}

/// One of the 24 voices.
#[derive(Debug, Clone, Copy)]
pub struct Voice {
    pub volume_left: Volume,
    pub volume_right: Volume,
    pub adsr: Adsr,
    /// Playback speed, 4.12 fixed point.
    pub step_length: u16,
    pub phase: u16,
    /// Where `cur_index` starts when the voice starts.
    pub start_index: u32,
    pub cur_index: u32,
    /// Where a looping block sends `cur_index`.
    pub loop_index: u32,
    /// Whether `loop_index` was set through the registers, so that blocks do not move it.
    pub loop_index_force: bool,
    pub block_header: AdpcmHeader,
    pub last_samples: [i16; 2],
    pub start_delay: u8,
}

impl Voice {
    /// A silent voice with a cleared envelope.
    pub fn new() -> (r: Self)
        ensures
            r.volume_left == Volume::new_spec() && r.volume_right == Volume::new_spec(),
            r.adsr.wf() && r.adsr.synced() && r.adsr.level == 0 && r.adsr.divider == 0 && r.adsr.config.0 == 0,
            r.step_length == 0 && r.phase == 0,
            r.start_index == 0 && r.cur_index == 0 && r.loop_index == 0,
            !r.loop_index_force,
            r.block_header == AdpcmHeader(0),
            r.last_samples@ == seq![0i16, 0i16],
            r.start_delay == 0,
    {
        Voice {
            volume_left: Volume::new(),
            volume_right: Volume::new(),
            adsr: Adsr::new(),
            step_length: 0,
            phase: 0,
            start_index: 0,
            cur_index: 0,
            loop_index: 0,
            loop_index_force: false,
            block_header: AdpcmHeader(0),
            last_samples: [0, 0],
            start_delay: 0,
        }
    }
}

impl Voice {
    /// Whether the voice is playing: its envelope is above zero, or it is still waiting
    /// to start.
    pub fn is_running(&self) -> (r: bool)
        ensures
            r == (self.adsr.level != 0 || self.start_delay > 0),
    {
        self.adsr.level != 0 || self.start_delay > 0
    }
}

/// The parts of the sound processor's state that the debug overlay shows.
pub struct SpuDebugSnapshot {
    /// Whether each voice is playing.
    pub voice_activity: Vec<bool>,
    /// The left and right volume levels of each playing voice; (0, 0) for the others.
    pub voice_levels: Vec<(i16, i16)>,
    pub active_voices: usize,
    /// Whether the reverb is not forced off.
    pub reverb_active: bool,
    pub irq_status: bool,
    /// The main volume levels.
    pub main_output: (i16, i16),
    /// The CD volumes.
    pub cd_audio: (i16, i16),
}

/// The number of playing voices among the first `n` of `v`.
pub open spec fn running_count(v: Seq<Voice>, n: int) -> int
    decreases n,
{
    if n <= 0 {
        0
    } else {
        running_count(v, n - 1) + if v[n - 1].adsr.level != 0 || v[n - 1].start_delay > 0 { 1int } else { 0int }
    }
}

impl Volume {
    /// The volume `new` builds.
    pub open spec fn new_spec() -> Volume {
        Volume { level: 0, config: VolumeSetting::Fixed(0) }
    }
}

/// The sound processor.
pub struct Spu {
    /// Sound RAM position of CPU and DMA transfers.
    pub ram_index: u32,
    /// Write position in the capture buffers.
    pub capture_index: u32,
    /// An access at this RAM position raises the interrupt, when it is enabled.
    pub irq_addr: u32,
    /// The interrupt is raised and not yet acknowledged.
    pub irq: bool,
    pub main_volume_left: Volume,
    pub main_volume_right: Volume,
    pub voices: Vec<Voice>,
    /// Voices to start, one bit each.
    pub voice_start: u32,
    /// Voices to stop, one bit each.
    pub voice_stop: u32,
    /// Voices that play noise, one bit each.
    pub voice_noise: u32,
    /// Voices fed to the reverb, one bit each.
    pub voice_reverb: u32,
    /// Voices frequency-modulated by the previous one, one bit each.
    pub voice_frequency_modulated: u32,
    /// Voices that reached a loop end since they started, one bit each.
    pub voice_looped: u32,
    /// The register file, 320 halfwords.
    pub regs: Vec<u16>,
    /// Sound RAM, 256K halfwords.
    pub ram: Vec<u16>,
    pub audio_ring_buffer: AudioRingBuffer,
    pub audio_buffer_config: AudioBufferConfig,
    pub cd_volume_left: i16,
    pub cd_volume_right: i16,
    pub noise_counter1: u16,
    pub noise_counter2: u8,
    /// The noise generator's shift register.
    pub noise_lfsr: u16,
    pub reverb_out_volume_left: i16,
    pub reverb_out_volume_right: i16,
    /// Start of the reverb work area.
    pub reverb_start: u32,
    /// Current position in the reverb work area.
    pub reverb_index: u32,
    /// Which side the reverb runs on next.
    pub reverb_run_right: bool,
    /// Forces the reverb off.
    pub reverb_enable_override: bool,
    pub reverb_enhanced_mode: bool,
}

/// A 16-bit register value as a sound RAM position: eight-byte units, in halfwords.
pub open spec fn ram_index_of(v: u16) -> u32 {
    ((v as u32) << 2u32) & 0x3_ffff
}

fn to_ram_index(v: u16) -> (r: u32)
    ensures
        r == ram_index_of(v),
        r < 0x4_0000,
{
    let r = ((v as u32) << 2) & 0x3_ffff;
    proof { crate::bits::lemma_and_le((v as u32) << 2u32, 0x3_ffff); }
    r
}

/// `s` after an access at RAM position `index`: the interrupt is raised when it is
/// enabled and `index` is its address.
pub open spec fn irq_checked(s: Spu, index: u32) -> Spu {
    if s.irq_enabled() && index == s.irq_addr { Spu { irq: true, ..s } } else { s }
}

/// `new` is `old` after a CPU or DMA transfer of `val`: written at the transfer
/// position, which then moves on by one (wrapping), each of the two positions checked
/// for the interrupt.
pub open spec fn transfer_post(old: Spu, new: Spu, val: u16) -> bool {
    let i = old.ram_index;
    let next = ((i + 1) as u32) & 0x3_ffff;
    let checked = irq_checked(irq_checked(old, i), next);
    &&& new.ram@ == old.ram@.update(i as int, val)
    &&& new == (Spu { ram: new.ram, ram_index: next, irq: checked.irq, ..old })
}


/// `new` is voice `old` after a write of `val` to its register `reg` (0 to 7): left and
/// right volume, step length, start position (aligned to eight samples), the two
/// halves of the envelope configuration, the envelope level (held to 0..=0x7FFF), and
/// the loop position (which blocks then no longer move).
pub open spec fn voice_stored(old: Voice, new: Voice, reg: int, val: u16) -> bool {
    if reg == 0 {
        new == (Voice { volume_left: Volume { config: volume_setting_of(val), ..old.volume_left }, ..old })
    } else if reg == 1 {
        new == (Voice { volume_right: Volume { config: volume_setting_of(val), ..old.volume_right }, ..old })
    } else if reg == 2 {
        new == (Voice { step_length: val, ..old })
    } else if reg == 3 {
        new == (Voice { start_index: ram_index_of(val) & !7u32, ..old })
    } else if reg == 4 || reg == 5 {
        &&& new == (Voice { adsr: new.adsr, ..old })
        &&& new.adsr == (Adsr { config: new.adsr.config, params: new.adsr.params, sustain_level: new.adsr.sustain_level, ..old.adsr })
        &&& new.adsr.config.0 == (if reg == 4 {
            (old.adsr.config.0 & 0xffff_0000) | (val as u32)
        } else {
            (old.adsr.config.0 & 0xffff) | ((val as u32) << 16u32)
        })
        &&& new.adsr.wf() && new.adsr.synced()
    } else if reg == 6 {
        new == (Voice { adsr: Adsr { level: clamp_level(val as i16 as int), ..old.adsr }, ..old })
    } else {
        new == (Voice { loop_index: ram_index_of(val), loop_index_force: true, ..old })
    }
}

/// `new` is `s1` (whose register file already holds the written value) after the
/// effect of a write of `val` to global register `index` (0xC0 to 0xFF).
pub open spec fn global_stored(s1: Spu, new: Spu, index: int, val: u16) -> bool {
    let v = val as u32;
    if index == MAIN_VOLUME_LEFT {
        new == (Spu { main_volume_left: Volume { config: volume_setting_of(val), ..s1.main_volume_left }, ..s1 })
    } else if index == MAIN_VOLUME_RIGHT {
        new == (Spu { main_volume_right: Volume { config: volume_setting_of(val), ..s1.main_volume_right }, ..s1 })
    } else if index == REVERB_VOLUME_LEFT {
        new == (Spu { reverb_out_volume_left: val as i16, ..s1 })
    } else if index == REVERB_VOLUME_RIGHT {
        new == (Spu { reverb_out_volume_right: val as i16, ..s1 })
    } else if index == VOICE_ON_LO {
        new == (Spu { voice_start: (s1.voice_start & 0xffff_0000) | v, ..s1 })
    } else if index == VOICE_ON_HI {
        new == (Spu { voice_start: (s1.voice_start & 0xffff) | (v << 16u32), ..s1 })
    } else if index == VOICE_OFF_LO {
        new == (Spu { voice_stop: (s1.voice_stop & 0xffff_0000) | v, ..s1 })
    } else if index == VOICE_OFF_HI {
        new == (Spu { voice_stop: (s1.voice_stop & 0xffff) | (v << 16u32), ..s1 })
    } else if index == VOICE_FM_MOD_EN_LO {
        new == (Spu { voice_frequency_modulated: (s1.voice_frequency_modulated & 0xffff_0000) | ((val & 0xfffe) as u32), ..s1 })
    } else if index == VOICE_FM_MOD_EN_HI {
        new == (Spu { voice_frequency_modulated: (s1.voice_frequency_modulated & 0xffff) | (v << 16u32), ..s1 })
    } else if index == VOICE_NOISE_EN_LO {
        new == (Spu { voice_noise: (s1.voice_noise & 0xffff_0000) | v, ..s1 })
    } else if index == VOICE_NOISE_EN_HI {
        new == (Spu { voice_noise: (s1.voice_noise & 0xffff) | (v << 16u32), ..s1 })
    } else if index == VOICE_REVERB_EN_LO {
        new == (Spu { voice_reverb: (s1.voice_reverb & 0xffff_0000) | v, ..s1 })
    } else if index == VOICE_REVERB_EN_HI {
        new == (Spu { voice_reverb: (s1.voice_reverb & 0xffff) | (v << 16u32), ..s1 })
    } else if index == VOICE_STATUS_LO {
        new == (Spu { voice_looped: (s1.voice_looped & 0xffff_0000) | v, ..s1 })
    } else if index == VOICE_STATUS_HI {
        new == (Spu { voice_looped: (s1.voice_looped & 0xffff) | (v << 16u32), ..s1 })
    } else if index == REVERB_BASE {
        new == (Spu { reverb_start: ram_index_of(val), reverb_index: ram_index_of(val), ..s1 })
    } else if index == IRQ_ADDRESS {
        new == irq_checked(Spu { irq_addr: ram_index_of(val), ..s1 }, s1.ram_index)
    } else if index == TRANSFER_START_INDEX {
        new == irq_checked(Spu { ram_index: ram_index_of(val), ..s1 }, ram_index_of(val))
    } else if index == TRANSFER_FIFO {
        transfer_post(s1, new, val)
    } else if index == CONTROL {
        if s1.irq_enabled() { new == irq_checked(s1, s1.ram_index) } else { new == (Spu { irq: false, ..s1 }) }
    } else if index == CD_VOLUME_LEFT {
        new == (Spu { cd_volume_left: val as i16, ..s1 })
    } else if index == CD_VOLUME_RIGHT {
        new == (Spu { cd_volume_right: val as i16, ..s1 })
    } else {
        new == s1
    }
}

/// `new` is `old` after a halfword write of `val` at register offset `off` (in bytes).
/// The value lands in the register file; writes past its 320 registers are ignored.
/// Voice registers (below 0xC0) configure their voice, global registers (0xC0 to 0xFF)
/// act as `global_stored` says, and 0x100 to 0x12F set the current left or right
/// level of a voice.
pub open spec fn stored16(old: Spu, new: Spu, off: u32, val: u16) -> bool {
    let index = (off >> 1u32) as int;
    if index >= SPU_REG_COUNT {
        new == old
    } else {
        let s1 = Spu { regs: new.regs, ..old };
        &&& new.regs@ == old.regs@.update(index, val)
        &&& if index < 0xc0 {
            let n = index / 8;
            &&& new.voices@.len() == old.voices@.len()
            &&& forall|j: int| 0 <= j < old.voices@.len() && j != n ==> new.voices@[j] == old.voices@[j]
            &&& voice_stored(old.voices@[n], new.voices@[n], index % 8, val)
            &&& new == (Spu { voices: new.voices, ..s1 })
        } else if index < 0x100 {
            global_stored(s1, new, index, val)
        } else if index < 0x130 {
            let n = (index / 2) % 32;
            let v = old.voices@[n];
            let nv = if index % 2 == 0 {
                Voice { volume_left: Volume { level: val as i16, ..v.volume_left }, ..v }
            } else {
                Voice { volume_right: Volume { level: val as i16, ..v.volume_right }, ..v }
            };
            &&& new.voices@ == old.voices@.update(n, nv)
            &&& new == (Spu { voices: new.voices, ..s1 })
        } else {
            new == s1
        }
    }
}

/// What a halfword read of the register at offset `off` (in bytes) returns: the
/// register file, except for the live values of voice envelope levels and loop
/// positions, voice status bits, current main and voice volumes, and the unknown
/// register, which reads 0.
pub open spec fn load16_value(s: Spu, off: u32) -> u16 {
    let index = (off >> 1u32) as int;
    let reg_v = s.regs@[index];
    if index < 0xc0 {
        let v = s.voices@[index / 8];
        if index % 8 == 6 { v.adsr.level as u16 } else if index % 8 == 7 { (v.loop_index >> 2u32) as u16 } else { reg_v }
    } else if index < 0x100 {
        if index == VOICE_STATUS_LO {
            s.voice_looped as u16
        } else if index == VOICE_STATUS_HI {
            (s.voice_looped >> 16u32) as u16
        } else if index == CURRENT_VOLUME_LEFT {
            s.main_volume_left.level as u16
        } else if index == CURRENT_VOLUME_RIGHT {
            s.main_volume_right.level as u16
        } else if index == UNKNOWN_REGISTER {
            0
        } else {
            reg_v
        }
    } else if index < 0x130 {
        let v = s.voices@[(index / 2) % 32];
        if index % 2 == 0 { v.volume_left.level as u16 } else { v.volume_right.level as u16 }
    } else {
        reg_v
    }
}

/// The status register that `s` shows: the low six control bits, the interrupt flag in
/// bit 6, and, in the standard transfer mode (4), whether the capture position is in
/// the upper half of the capture buffers in bit 11.
pub open spec fn status_of(s: Spu) -> u16 {
    let base = (s.control_spec() & 0x3f) | ((if s.irq { 1u16 } else { 0u16 }) << 6u16);
    if s.regs@[TRANSFER_CONTROL as int] == 4 {
        base | ((if s.capture_index & 0x100 != 0 { 1u16 } else { 0u16 }) << 11u16)
    } else {
        base
    }
}

/// The noise generator after one 44.1kHz cycle, from control register `ctrl` and
/// counters and shift register (c1, c2, lfsr): the first counter advances by a rate
/// that the control register's shift and step select; each time it reaches 0x8000 it
/// restarts and the second advances, and each time the second reaches 8 the shift
/// register takes one step with feedback from bits 15, 12, 11 and 10.
pub open spec fn noise_step(ctrl: u16, c1: u16, c2: u8, lfsr: u16) -> (u16, u8, u16) {
    let shift = (ctrl >> 10u16) & 0xf;
    let step = (ctrl >> 8u16) & 3;
    let inc1: u16 = if shift == 0xf { 0x8000u16 } else { (2u16 << shift) as u16 };
    let inc2: u8 = if shift == 0xf { 8u8 } else { (step + 4) as u8 };
    let n1 = ((c1 + inc1) % 0x1_0000) as u16;
    if n1 & 0x8000 == 0 {
        (n1, c2, lfsr)
    } else {
        let n2 = ((c2 + inc2) % 0x100) as u8;
        if n2 & 8 == 0 {
            (0, n2, lfsr)
        } else {
            let carry = (lfsr >> 15u16) ^ (lfsr >> 12u16) ^ (lfsr >> 11u16) ^ (lfsr >> 10u16) ^ 1u16;
            (0, n2 & 7, ((lfsr << 1u16) | (carry & 1u16)) as u16)
        }
    }
}

/// The reverb's multiplication of a filter coefficient `a` with a sample `b`:
/// (0x8000 - a) x b in 2.14 fixed point (rounded down, as an arithmetic shift does),
/// with the most negative coefficient scaling `b` by 0x8000 and both at their minimum
/// giving 0.
pub open spec fn iir_mul_spec(a: i16, b: i16) -> int {
    let p: int = if a > -32768 { (32768 - a) * b } else if b > -32768 { b * 32768 } else { 0 };
    p / 16384
}

/// A reverb sample scaled by a volume coefficient: in enhanced mode in 2.14 fixed point
/// with a soft knee above 30000 in either direction (a quarter of the excess kept),
/// otherwise in 1.15 fixed point. Each scaling rounds down, as an arithmetic shift does.
pub open spec fn reverb_coeff_spec(sample: int, coeff: int, enhanced: bool) -> int {
    if enhanced {
        let r = sample * coeff / 16384;
        if r > 30000 {
            30000 + (r - 30000) / 4
        } else if r < -30000 {
            -30000 + (r + 30000) / 4
        } else {
            r
        }
    } else {
        sample * coeff / 32768
    }
}

/// `p / d` rounded down.
pub(crate) fn floor_div(p: i32, d: i32) -> (r: i32)
    requires
        d >= 2,
    ensures
        r == p as int / d as int,
{
    if p >= 0 {
        p / d
    } else {
        let n: i64 = -(p as i64);
        let q: i64 = (n + d as i64 - 1) / (d as i64);
        assert(q == -(p as int / d as int)) by (nonlinear_arith)
            requires n == -p, p < 0, d > 0, q == (n + d - 1) / (d as int);
        assert(0 <= q <= n / 2 + 1) by (nonlinear_arith)
            requires n > 0, d >= 2, q == (n + d - 1) / (d as int);
        -(q as i32)
    }
}

/// Multiply a reverb filter coefficient with a sample.
pub fn iir_mul(a: i16, b: i16) -> (r: i32)
    ensures
        r == iir_mul_spec(a, b),
        -0x20000 <= r <= 0x20000,
{
    let p: i32 = if a > i16::MIN {
        assert(-32768 * 65535 <= (32768 - a) * b <= 32767 * 65535) by (nonlinear_arith)
            requires -32767 <= a <= 32767, -32768 <= b <= 32767;
        (32768 - a as i32) * (b as i32)
    } else if b > i16::MIN {
        (b as i32) * 32768
    } else {
        0
    };
    let r = floor_div(p, 16384);
    assert(-0x20000 <= r <= 0x20000) by (nonlinear_arith)
        requires -32768 * 65535 <= p <= 32767 * 65535, r == p / 16384;
    r
}

/// Scale a reverb sample by a volume coefficient.
pub fn apply_enhanced_reverb_coeff(sample: i32, coeff: i16, enhanced: bool) -> (r: i32)
    requires
        -32768 <= sample <= 32767,
    ensures
        r == reverb_coeff_spec(sample as int, coeff as int, enhanced),
        -0x10000 <= r <= 0x10000,
{
    assert(-32768 * 32768 <= sample * coeff <= 32768 * 32768) by (nonlinear_arith)
        requires -32768 <= sample <= 32767, -32768 <= coeff <= 32767;
    let p: i32 = sample * (coeff as i32);
    if enhanced {
        let result = floor_div(p, 16384);
        assert(-65536 <= result <= 65536) by (nonlinear_arith)
            requires -32768 * 32768 <= p <= 32768 * 32768, result == p / 16384;
        if result > 30000 {
            30000 + floor_div(result - 30000, 4)
        } else if result < -30000 {
            -30000 + floor_div(result + 30000, 4)
        } else {
            result
        }
    } else {
        let r = floor_div(p, 32768);
        assert(-0x10000 <= r <= 0x10000) by (nonlinear_arith)
            requires -32768 * 32768 <= p <= 32768 * 32768, r == p / 32768;
        r
    }
}

/// The final output's soft knee: above 24576 in either direction, half of the excess
/// is kept.
pub open spec fn soft_compressed(sample: i16) -> i16 {
    let s = sample as int;
    if s > 24576 {
        saturate16(24576 + (s - 24576) / 2)
    } else if s < -24576 {
        saturate16(-(24576 + (-s - 24576) / 2))
    } else {
        sample
    }
}

/// Compress an output sample above the knee.
pub fn apply_soft_compression(sample: i16) -> (r: i16)
    ensures
        r == soft_compressed(sample),
{
    let s = sample as i32;
    let threshold: i32 = 24576;
    let a: i32 = if s < 0 { -s } else { s };
    if a > threshold {
        let excess = a - threshold;
        let compressed = threshold + excess / 2;
        saturate_to_i16(if s < 0 { -compressed } else { compressed })
    } else {
        sample
    }
}

/// The RAM position of reverb sample `addr` (a register value in eight-byte units)
/// relative to the current reverb position, `neg_offset` halfwords earlier; a position
/// past the RAM wraps back by way of the work area's start.
pub open spec fn reverb_index_of(s: Spu, addr: u16, neg_offset: u32) -> u32 {
    let idx = s.reverb_index + ram_index_of(addr) - neg_offset;
    if idx <= 0x3_ffff { idx as u32 } else { (((s.reverb_start + idx) % 0x1_0000_0000) as u32) & 0x3_ffff }
}

/// A register reads back what was last written to it, except the voice envelope levels
/// (held to 0..=0x7FFF), the current main volumes and the unknown register (which show
/// live values) and the transfer FIFO (which cannot be read).
pub proof fn lemma_register_readback(old: Spu, new: Spu, off: u32, val: u16)
    requires
        old.wf(),
        stored16(old, new, off, val),
        (off >> 1u32) < SPU_REG_COUNT,
        (off >> 1u32) != TRANSFER_FIFO,
        (off >> 1u32) != CURRENT_VOLUME_LEFT,
        (off >> 1u32) != CURRENT_VOLUME_RIGHT,
        (off >> 1u32) != UNKNOWN_REGISTER,
        !((off >> 1u32) < 0xc0 && (off >> 1u32) % 8 == 6),
    ensures
        load16_value(new, off) == val,
{
    let index = (off >> 1u32) as int;
    let x = old.voice_looped;
    assert(((((val as u32) << 2u32) & 0x3_ffff) >> 2u32) as u16 == val
        && (((x & 0xffff_0000) | (val as u32)) as u16) == val
        && (((x & 0xffff) | ((val as u32) << 16u32)) >> 16u32) as u16 == val
        && ((val as i16) as u16) == val) by (bit_vector);
    let s1 = Spu { regs: new.regs, ..old };
    if index < 0xc0 {
        assert(new.regs == s1.regs);
        assert(new.regs@[index] == val);
        if index % 8 == 7 {
            assert(new.voices@[index / 8].loop_index == ram_index_of(val));
        }
    } else if index < 0x100 {
        assert(global_stored(s1, new, index, val));
        assert(new.regs@ == old.regs@.update(index, val));
        assert(new.regs == s1.regs);
        assert(new.regs@[index] == val);
    } else if index < 0x130 {
        let n = (index / 2) % 32;
        assert(new.voices@[n].volume_left.level == val as i16 || new.voices@[n].volume_right.level == val as i16);
    } else {
        assert(new.regs@[index] == val);
    }
}

impl Voice {
    /// Write `val` to this voice's register `reg` (0 to 7).
    pub fn store_register(&mut self, reg: usize, val: u16)
        requires
            reg < 8,
        ensures
            voice_stored(*old(self), *final(self), reg as int, val),
    {
        if reg == 0 {
            self.volume_left.set_config(val);
        } else if reg == 1 {
            self.volume_right.set_config(val);
        } else if reg == 2 {
            self.step_length = val;
        } else if reg == 3 {
            self.start_index = to_ram_index(val) & !7u32;
        } else if reg == 4 {
            self.adsr.set_conf_lo(val);
        } else if reg == 5 {
            self.adsr.set_conf_hi(val);
        } else if reg == 6 {
            let level = val as i16;
            let clamped: i16 = if level < 0 { 0 } else { level };
            self.adsr.set_level(clamped);
        } else {
            self.loop_index = to_ram_index(val);
            self.loop_index_force = true;
        }
    }
}

impl Spu {
    /// Register file, RAM and voices of their sizes; transfer position and reverb area
    /// inside the RAM.
    pub open spec fn wf(&self) -> bool {
        &&& self.regs@.len() == SPU_REG_COUNT
        &&& self.ram@.len() == SPU_RAM_SIZE
        &&& self.voices@.len() == 24
        &&& self.ram_index < 0x4_0000
        &&& self.reverb_start < 0x4_0000
        &&& self.reverb_index < 0x4_0000
        &&& self.audio_ring_buffer.wf()
        &&& self.capture_index < 0x200
    }

    /// The control register.
    pub open spec fn control_spec(&self) -> u16 {
        self.regs@[CONTROL as int]
    }

    /// Whether the RAM interrupt is enabled (control bit 6).
    pub open spec fn irq_enabled(&self) -> bool {
        self.control_spec() & 0x40 != 0
    }

    /// Everything cleared and silent, reverb in enhanced mode, the output buffer at its
    /// default size.
    pub fn new() -> (r: Spu)
        ensures
            r.wf(),
            forall|i: int| 0 <= i < SPU_REG_COUNT ==> #[trigger] r.regs@[i] == 0,
            forall|i: int| 0 <= i < SPU_RAM_SIZE ==> #[trigger] r.ram@[i] == 0,
            forall|i: int| 0 <= i < 24 ==> {
                let v = #[trigger] r.voices@[i];
                &&& v.volume_left == Volume::new_spec() && v.volume_right == Volume::new_spec()
                &&& v.adsr.wf() && v.adsr.synced() && v.adsr.level == 0 && v.adsr.config.0 == 0
                &&& v.step_length == 0 && v.start_index == 0 && v.cur_index == 0 && v.loop_index == 0
                &&& !v.loop_index_force
            },
            r.ram_index == 0 && r.capture_index == 0 && r.irq_addr == 0 && !r.irq,
            r.main_volume_left == Volume::new_spec() && r.main_volume_right == Volume::new_spec(),
            r.voice_start == 0 && r.voice_stop == 0 && r.voice_noise == 0,
            r.voice_reverb == 0 && r.voice_frequency_modulated == 0 && r.voice_looped == 0,
            r.audio_ring_buffer.wf() && r.audio_ring_buffer.size == 8192,
            r.audio_ring_buffer.contents() == Seq::<i16>::empty(),
            r.audio_buffer_config.buffer_size == 8192,
            r.cd_volume_left == 0 && r.cd_volume_right == 0,
            r.noise_counter1 == 0 && r.noise_counter2 == 0 && r.noise_lfsr == 0,
            r.reverb_out_volume_left == 0 && r.reverb_out_volume_right == 0,
            r.reverb_start == 0 && r.reverb_index == 0 && !r.reverb_run_right,
            !r.reverb_enable_override && r.reverb_enhanced_mode,
    {
        let mut voices: Vec<Voice> = Vec::new();
        let mut i: usize = 0;
        while i < 24
            invariant
                i <= 24,
                voices@.len() == i,
                forall|j: int| 0 <= j < i ==> {
                    let v = #[trigger] voices@[j];
                    &&& v.volume_left == Volume::new_spec() && v.volume_right == Volume::new_spec()
                    &&& v.adsr.wf() && v.adsr.synced() && v.adsr.level == 0 && v.adsr.config.0 == 0
                    &&& v.step_length == 0 && v.start_index == 0 && v.cur_index == 0 && v.loop_index == 0
                    &&& !v.loop_index_force
                },
            decreases 24 - i,
        {
            voices.push(Voice::new());
            i = i + 1;
        }
        let config = AudioBufferConfig::default();
        let buffer = AudioRingBuffer::new(config.buffer_size);
        proof {
            let n = buffer.size;
            assert(n > 0 && n & ((n - 1) as usize) == 0 && n >= 8192 && n < 16384 ==> n == 8192) by (bit_vector);
        }
        Spu {
            ram_index: 0,
            capture_index: 0,
            irq_addr: 0,
            irq: false,
            main_volume_left: Volume::new(),
            main_volume_right: Volume::new(),
            voices,
            voice_start: 0,
            voice_stop: 0,
            voice_noise: 0,
            voice_reverb: 0,
            voice_frequency_modulated: 0,
            voice_looped: 0,
            regs: vec![0u16; SPU_REG_COUNT],
            ram: vec![0u16; SPU_RAM_SIZE],
            audio_ring_buffer: buffer,
            audio_buffer_config: config,
            cd_volume_left: 0,
            cd_volume_right: 0,
            noise_counter1: 0,
            noise_counter2: 0,
            noise_lfsr: 0,
            reverb_out_volume_left: 0,
            reverb_out_volume_right: 0,
            reverb_start: 0,
            reverb_index: 0,
            reverb_run_right: false,
            reverb_enable_override: false,
            reverb_enhanced_mode: true,
        }
    }

    /// Take every queued stereo pair from the output buffer, oldest first.
    pub fn get_samples(&mut self) -> (r: Vec<i16>)
        requires
            old(self).wf(),
        ensures
            final(self).wf(),
            ({
                let b = old(self).audio_ring_buffer;
                let n = 2 * (b.current_fill / 2) as int;
                &&& r@ == b.contents().take(n)
                &&& final(self).audio_ring_buffer.contents() == b.contents().skip(n)
            }),
            final(self).audio_ring_buffer.size == old(self).audio_ring_buffer.size,
            *final(self) == (Spu { audio_ring_buffer: final(self).audio_ring_buffer, ..*old(self) }),
    {
        let available = self.audio_ring_buffer.current_fill / 2;
        self.audio_ring_buffer.pop_stereo(available)
    }

    /// Clear the output buffer's counters.
    pub fn clear_samples(&mut self)
        requires
            old(self).wf(),
        ensures
            final(self).wf(),
            *final(self) == (Spu {
                audio_ring_buffer: AudioRingBuffer {
                    total_written: 0,
                    total_dropped: 0,
                    max_fill_level: old(self).audio_ring_buffer.current_fill,
                    current_drop_count: 0,
                    ..old(self).audio_ring_buffer
                },
                ..*old(self)
            }),
    {
        self.audio_ring_buffer.reset_stats();
    }

    /// Replace the output buffer by an empty one made to `config`.
    pub fn configure_audio_buffer(&mut self, config: AudioBufferConfig)
        requires
            old(self).wf(),
            config.buffer_size <= usize::MAX / 8 + 1,
        ensures
            final(self).wf(),
            final(self).audio_buffer_config == config,
            ({
                let b = final(self).audio_ring_buffer;
                &&& is_next_pow2(b.size, config.buffer_size)
                &&& b.contents() == Seq::<i16>::empty()
                &&& b.total_written == 0 && b.total_dropped == 0
                &&& b.target_latency == (if config.target_latency < b.size / 2 { config.target_latency } else { b.size / 2 })
                &&& b.recovery_mode == config.recovery_mode
            }),
            *final(self) == (Spu {
                audio_ring_buffer: final(self).audio_ring_buffer,
                audio_buffer_config: config,
                ..*old(self)
            }),
    {
        self.audio_buffer_config = config;
        let mut buffer = AudioRingBuffer::new(config.buffer_size);
        buffer.set_target_latency(config.target_latency);
        buffer.set_recovery_mode(config.recovery_mode);
        self.audio_ring_buffer = buffer;
    }

    /// Choose the output buffer's overflow recovery mode, in the buffer and in its
    /// configuration.
    pub fn set_audio_recovery_mode(&mut self, mode: crate::psx::spu::AudioRecoveryMode)
        requires
            old(self).wf(),
        ensures
            final(self).wf(),
            *final(self) == (Spu {
                audio_ring_buffer: AudioRingBuffer { recovery_mode: mode, ..old(self).audio_ring_buffer },
                audio_buffer_config: AudioBufferConfig { recovery_mode: mode, ..old(self).audio_buffer_config },
                ..*old(self)
            }),
    {
        self.audio_ring_buffer.set_recovery_mode(mode);
        self.audio_buffer_config.recovery_mode = mode;
    }

    /// Set the target latency in samples: the buffer holds it to half its size, the
    /// configuration keeps the value asked for.
    pub fn set_target_latency(&mut self, samples: usize)
        requires
            old(self).wf(),
        ensures
            final(self).wf(),
            *final(self) == (Spu {
                audio_ring_buffer: AudioRingBuffer {
                    target_latency: if samples < old(self).audio_ring_buffer.size / 2 { samples } else { old(self).audio_ring_buffer.size / 2 },
                    ..old(self).audio_ring_buffer
                },
                audio_buffer_config: AudioBufferConfig { target_latency: samples, ..old(self).audio_buffer_config },
                ..*old(self)
            }),
    {
        self.audio_ring_buffer.set_target_latency(samples);
        self.audio_buffer_config.target_latency = samples;
    }

    /// What the debug overlay shows of the voices, the reverb, the interrupt and the
    /// volumes.
    pub fn debug_snapshot(&self) -> (r: SpuDebugSnapshot)
        requires
            self.wf(),
        ensures
            r.voice_activity@.len() == 24 && r.voice_levels@.len() == 24,
            forall|i: int| 0 <= i < 24 ==> {
                let v = #[trigger] self.voices@[i];
                let running = v.adsr.level != 0 || v.start_delay > 0;
                &&& r.voice_activity@[i] == running
                &&& r.voice_levels@[i] == (if running { (v.volume_left.level, v.volume_right.level) } else { (0i16, 0i16) })
            },
            r.active_voices == running_count(self.voices@, 24),
            r.reverb_active == !self.reverb_enable_override,
            r.irq_status == self.irq,
            r.main_output == (self.main_volume_left.level, self.main_volume_right.level),
            r.cd_audio == (self.cd_volume_left, self.cd_volume_right),
    {
        let mut activity: Vec<bool> = Vec::new();
        let mut levels: Vec<(i16, i16)> = Vec::new();
        let mut count: usize = 0;
        let mut i: usize = 0;
        while i < 24
            invariant
                self.wf(),
                i <= 24,
                activity@.len() == i && levels@.len() == i,
                count == running_count(self.voices@, i as int),
                count <= i,
                forall|j: int| 0 <= j < i ==> {
                    let v = #[trigger] self.voices@[j];
                    let running = v.adsr.level != 0 || v.start_delay > 0;
                    &&& activity@[j] == running
                    &&& levels@[j] == (if running { (v.volume_left.level, v.volume_right.level) } else { (0i16, 0i16) })
                },
            decreases 24 - i,
        {
            let v = &self.voices[i];
            let running = v.is_running();
            activity.push(running);
            if running {
                count = count + 1;
                levels.push((v.volume_left.level, v.volume_right.level));
            } else {
                levels.push((0, 0));
            }
            i = i + 1;
        }
        SpuDebugSnapshot {
            voice_activity: activity,
            voice_levels: levels,
            active_voices: count,
            reverb_active: !self.reverb_enable_override,
            irq_status: self.irq,
            main_output: (self.main_volume_left.level, self.main_volume_right.level),
            cd_audio: (self.cd_volume_left, self.cd_volume_right),
        }
    }

    /// The control register.
    pub fn control(&self) -> (r: u16)
        requires
            self.wf(),
        ensures
            r == self.control_spec(),
    {
        self.regs[CONTROL]
    }

    /// Whether the RAM interrupt is enabled.
    pub fn irq_enabled_now(&self) -> (r: bool)
        requires
            self.wf(),
        ensures
            r == self.irq_enabled(),
    {
        self.control() & 0x40 != 0
    }

    /// Raise the interrupt if it is enabled and `index` is its address.
    pub fn check_for_irq(&mut self, index: u32)
        requires
            old(self).wf(),
        ensures
            *final(self) == irq_checked(*old(self), index),
    {
        if self.irq_enabled_now() && index == self.irq_addr {
            self.irq = true;
        }
    }

    /// Write sound RAM at `index` (checked for the interrupt first); a position past the
    /// RAM writes nothing.
    pub fn ram_write(&mut self, index: u32, val: u16)
        requires
            old(self).wf(),
        ensures
            final(self).wf(),
            final(self).ram@ == (if (index as int) < SPU_RAM_SIZE { old(self).ram@.update(index as int, val) } else { old(self).ram@ }),
            *final(self) == (Spu { ram: final(self).ram, ..irq_checked(*old(self), index) }),
    {
        self.check_for_irq(index);
        let i = index as usize;
        if i < self.ram.len() {
            self.ram.set(i, val);
        }
    }

    /// Read sound RAM at `index` without the interrupt check; 0 past the RAM.
    pub fn ram_read_no_irq(&self, index: u32) -> (r: u16)
        requires
            self.wf(),
        ensures
            r == (if (index as int) < SPU_RAM_SIZE { self.ram@[index as int] } else { 0 }),
    {
        let i = index as usize;
        if i < self.ram.len() {
            self.ram[i]
        } else {
            0
        }
    }

    /// Read sound RAM at `index`, checking it for the interrupt.
    pub fn ram_read(&mut self, index: u32) -> (r: u16)
        requires
            old(self).wf(),
        ensures
            r == (if (index as int) < SPU_RAM_SIZE { old(self).ram@[index as int] } else { 0 }),
            *final(self) == irq_checked(*old(self), index),
    {
        self.check_for_irq(index);
        self.ram_read_no_irq(index)
    }

    /// Write `val` at the transfer position and move on.
    pub fn transfer(&mut self, val: u16)
        requires
            old(self).wf(),
        ensures
            final(self).wf(),
            transfer_post(*old(self), *final(self), val),
    {
        let i = self.ram_index;
        self.ram_write(i, val);
        let next = (i + 1) & 0x3_ffff;
        proof { crate::bits::lemma_and_le((i + 1) as u32, 0x3_ffff); }
        self.ram_index = next;
        self.check_for_irq(next);
    }

    /// A DMA word into sound RAM: its low half, then its high half.
    pub fn dma_store(&mut self, v: u32)
        requires
            old(self).wf(),
        ensures
            final(self).wf(),
            exists|mid: Spu| transfer_post(*old(self), mid, v as u16) && #[trigger] transfer_post(mid, *final(self), (v >> 16u32) as u16),
    {
        let w1 = v as u16;
        let w2 = (v >> 16) as u16;
        self.transfer(w1);
        let ghost mid = *self;
        self.transfer(w2);
        assert(transfer_post(mid, *self, w2));
    }

    /// A DMA word out of sound RAM: two halfwords from the transfer position, low half
    /// first; each position read and the one after the second are checked for the
    /// interrupt.
    pub fn dma_load(&mut self) -> (r: u32)
        requires
            old(self).wf(),
        ensures
            final(self).wf(),
            ({
                let i = old(self).ram_index;
                let i1 = ((i + 1) as u32) & 0x3_ffff;
                let i2 = ((i1 + 1) as u32) & 0x3_ffff;
                &&& r == (old(self).ram@[i as int] as u32) | ((old(self).ram@[i1 as int] as u32) << 16u32)
                &&& *final(self) == (Spu { ram_index: i2, ..irq_checked(irq_checked(irq_checked(*old(self), i), i1), i2) })
            }),
    {
        let i = self.ram_index;
        let w1 = self.ram_read(i) as u32;
        let i1 = (i + 1) & 0x3_ffff;
        proof { crate::bits::lemma_and_le((i + 1) as u32, 0x3_ffff); }
        self.ram_index = i1;
        let w2 = self.ram_read(i1) as u32;
        let i2 = (i1 + 1) & 0x3_ffff;
        proof { crate::bits::lemma_and_le((i1 + 1) as u32, 0x3_ffff); }
        self.ram_index = i2;
        self.check_for_irq(i2);
        w1 | (w2 << 16)
    }

    /// The RAM position of a reverb sample; see `reverb_index_of`.
    pub fn reverb_sample_index(&self, addr: u16, neg_offset: u32) -> (r: u32)
        requires
            self.wf(),
            self.reverb_index + ram_index_of(addr) >= neg_offset,
        ensures
            r == reverb_index_of(*self, addr, neg_offset),
            r <= 0x3_ffff,
    {
        let idx = self.reverb_index + to_ram_index(addr) - neg_offset;
        if idx <= 0x3_ffff {
            idx
        } else {
            let r = self.reverb_start.wrapping_add(idx) & 0x3_ffff;
            proof { crate::bits::lemma_and_le(self.reverb_start.wrapping_add(idx), 0x3_ffff); }
            r
        }
    }

    /// Store a reverb sample.
    pub fn store_reverb_sample(&mut self, addr: u16, v: i16)
        requires
            old(self).wf(),
        ensures
            final(self).wf(),
            ({
                let i = reverb_index_of(*old(self), addr, 0);
                &&& final(self).ram@ == old(self).ram@.update(i as int, v as u16)
                &&& *final(self) == (Spu { ram: final(self).ram, ..irq_checked(*old(self), i) })
            }),
    {
        let idx = self.reverb_sample_index(addr, 0);
        self.ram_write(idx, v as u16);
    }

    /// Load a reverb sample.
    pub fn load_reverb_sample(&mut self, addr: u16) -> (r: i16)
        requires
            old(self).wf(),
        ensures
            ({
                let i = reverb_index_of(*old(self), addr, 0);
                &&& r == old(self).ram@[i as int] as i16
                &&& *final(self) == irq_checked(*old(self), i)
            }),
    {
        let idx = self.reverb_sample_index(addr, 0);
        self.ram_read(idx) as i16
    }

    /// Load the reverb sample one halfword before `addr`.
    pub fn load_reverb_sample_before(&mut self, addr: u16) -> (r: i16)
        requires
            old(self).wf(),
            old(self).reverb_index + ram_index_of(addr) >= 1,
        ensures
            ({
                let i = reverb_index_of(*old(self), addr, 1);
                &&& r == old(self).ram@[i as int] as i16
                &&& *final(self) == irq_checked(*old(self), i)
            }),
    {
        let idx = self.reverb_sample_index(addr, 1);
        self.ram_read(idx) as i16
    }

    /// A halfword read of the register at offset `off` (in bytes). The transfer FIFO
    /// cannot be read back.
    pub fn load16(&self, off: u32) -> (r: u16)
        requires
            self.wf(),
            (off >> 1u32) < SPU_REG_COUNT,
            (off >> 1u32) != TRANSFER_FIFO,
        ensures
            r == load16_value(*self, off),
    {
        let index = (off >> 1) as usize;
        let reg_v = self.regs[index];
        if index < 0xc0 {
            let v = &self.voices[index / 8];
            if index % 8 == 6 {
                v.adsr.level as u16
            } else if index % 8 == 7 {
                (v.loop_index >> 2) as u16
            } else {
                reg_v
            }
        } else if index < 0x100 {
            if index == VOICE_STATUS_LO {
                self.voice_looped as u16
            } else if index == VOICE_STATUS_HI {
                (self.voice_looped >> 16) as u16
            } else if index == CURRENT_VOLUME_LEFT {
                self.main_volume_left.level as u16
            } else if index == CURRENT_VOLUME_RIGHT {
                self.main_volume_right.level as u16
            } else if index == UNKNOWN_REGISTER {
                0
            } else {
                reg_v
            }
        } else if index < 0x130 {
            let v = &self.voices[(index / 2) % 32];
            if index % 2 == 0 {
                v.volume_left.level as u16
            } else {
                v.volume_right.level as u16
            }
        } else {
            reg_v
        }
    }

    /// Refresh the status register from the control register, the interrupt flag and
    /// the capture position.
    pub fn update_status(&mut self)
        requires
            old(self).wf(),
        ensures
            final(self).regs@ == old(self).regs@.update(STATUS as int, status_of(*old(self))),
            *final(self) == (Spu { regs: final(self).regs, ..*old(self) }),
    {
        let mut status: u16 = self.control() & 0x3f;
        status = status | ((if self.irq { 1u16 } else { 0u16 }) << 6);
        if self.regs[TRANSFER_CONTROL] == 4 {
            let capture_high: u16 = if self.capture_index & 0x100 != 0 { 1 } else { 0 };
            status = status | (capture_high << 11);
        }
        self.regs.set(STATUS, status);
    }

    /// Advance the noise generator by one 44.1kHz cycle.
    pub fn run_noise_cycle(&mut self)
        requires
            old(self).wf(),
        ensures
            (final(self).noise_counter1, final(self).noise_counter2, final(self).noise_lfsr)
                == noise_step(old(self).control_spec(), old(self).noise_counter1, old(self).noise_counter2, old(self).noise_lfsr),
            *final(self) == (Spu {
                noise_counter1: final(self).noise_counter1,
                noise_counter2: final(self).noise_counter2,
                noise_lfsr: final(self).noise_lfsr,
                ..*old(self)
            }),
    {
        let ctrl = self.control();
        let freq_shift = (ctrl >> 10) & 0xf;
        let freq_step = (ctrl >> 8) & 3;
        assert(freq_shift <= 0xf && freq_step <= 3) by (bit_vector)
            requires
                freq_shift == (ctrl >> 10u16) & 0xf,
                freq_step == (ctrl >> 8u16) & 3;
        let (counter1_inc, counter2_inc): (u16, u8) = if freq_shift == 0xf {
            (0x8000, 8)
        } else {
            (2 << freq_shift, (freq_step + 4) as u8)
        };
        self.noise_counter1 = self.noise_counter1.wrapping_add(counter1_inc);
        if self.noise_counter1 & 0x8000 != 0 {
            self.noise_counter1 = 0;
            self.noise_counter2 = self.noise_counter2.wrapping_add(counter2_inc);
            if self.noise_counter2 & 8 != 0 {
                self.noise_counter2 = self.noise_counter2 & 7;
                let lfsr = self.noise_lfsr;
                let carry = (lfsr >> 15) ^ (lfsr >> 12) ^ (lfsr >> 11) ^ (lfsr >> 10) ^ 1;
                self.noise_lfsr = (lfsr << 1) | (carry & 1);
            }
        }
    }

    /// A halfword write to the register at offset `off` (in bytes).
    pub fn store16(&mut self, off: u32, val: u16)
        requires
            old(self).wf(),
        ensures
            final(self).wf(),
            stored16(*old(self), *final(self), off, val),
    {
        let index = (off >> 1) as usize;
        if index >= self.regs.len() {
            return;
        }
        self.regs.set(index, val);
        if index < 0xc0 {
            let n = index / 8;
            let mut voice = self.voices[n];
            voice.store_register(index % 8, val);
            self.voices.set(n, voice);
        } else if index < 0x100 {
            self.store_global(index, val);
        } else if index < 0x130 {
            let n = (index / 2) % 32;
            let mut voice = self.voices[n];
            if index % 2 == 0 {
                voice.volume_left.level = val as i16;
            } else {
                voice.volume_right.level = val as i16;
            }
            self.voices.set(n, voice);
        }
    }

    /// The effect of a write to a global register, the register file already written.
    fn store_global(&mut self, index: usize, val: u16)
        requires
            old(self).wf(),
            0xc0 <= index < 0x100,
        ensures
            final(self).wf(),
            global_stored(*old(self), *final(self), index as int, val),
    {
        if index == MAIN_VOLUME_LEFT {
            self.main_volume_left.set_config(val);
        } else if index == MAIN_VOLUME_RIGHT {
            self.main_volume_right.set_config(val);
        } else if index == REVERB_VOLUME_LEFT {
            self.reverb_out_volume_left = val as i16;
        } else if index == REVERB_VOLUME_RIGHT {
            self.reverb_out_volume_right = val as i16;
        } else if index == VOICE_ON_LO {
            to_lo(&mut self.voice_start, val);
        } else if index == VOICE_ON_HI {
            to_hi(&mut self.voice_start, val);
        } else if index == VOICE_OFF_LO {
            to_lo(&mut self.voice_stop, val);
        } else if index == VOICE_OFF_HI {
            to_hi(&mut self.voice_stop, val);
        } else if index == VOICE_FM_MOD_EN_LO {
            // Voice 0 has no voice before it to modulate it.
            to_lo(&mut self.voice_frequency_modulated, val & 0xfffe);
        } else if index == VOICE_FM_MOD_EN_HI {
            to_hi(&mut self.voice_frequency_modulated, val);
        } else if index == VOICE_NOISE_EN_LO {
            to_lo(&mut self.voice_noise, val);
        } else if index == VOICE_NOISE_EN_HI {
            to_hi(&mut self.voice_noise, val);
        } else if index == VOICE_REVERB_EN_LO {
            to_lo(&mut self.voice_reverb, val);
        } else if index == VOICE_REVERB_EN_HI {
            to_hi(&mut self.voice_reverb, val);
        } else if index == VOICE_STATUS_LO {
            to_lo(&mut self.voice_looped, val);
        } else if index == VOICE_STATUS_HI {
            to_hi(&mut self.voice_looped, val);
        } else if index == REVERB_BASE {
            let idx = to_ram_index(val);
            self.reverb_start = idx;
            self.reverb_index = idx;
        } else if index == IRQ_ADDRESS {
            self.irq_addr = to_ram_index(val);
            let i = self.ram_index;
            self.check_for_irq(i);
        } else if index == TRANSFER_START_INDEX {
            self.ram_index = to_ram_index(val);
            let i = self.ram_index;
            self.check_for_irq(i);
        } else if index == TRANSFER_FIFO {
            self.transfer(val);
        } else if index == CONTROL {
            if self.irq_enabled_now() {
                let i = self.ram_index;
                self.check_for_irq(i);
            } else {
                self.irq = false;
            }
        } else if index == CD_VOLUME_LEFT {
            self.cd_volume_left = val as i16;
        } else if index == CD_VOLUME_RIGHT {
            self.cd_volume_right = val as i16;
        }
    }
}

} // verus!
