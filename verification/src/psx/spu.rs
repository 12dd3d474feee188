//! SPU audio output buffering: the ring buffer between the SPU and the host's audio
//! device, with its overflow recovery modes, plus the voice and volume state that the
//! debug overlay reads.

pub mod adpcm;
pub mod envelope;
pub mod processor;
pub mod reverb;
pub mod mixer;

use vstd::prelude::*;
pub use self::adpcm::AdpcmHeader;
pub use self::envelope::{Adsr, AdsrState, EnvelopeParams};

verus! {

/// What to do when a push finds the ring buffer full.
#[derive(Debug, Clone, Copy, PartialEq, Eq, Structural)]
pub enum AudioRecoveryMode {
    /// Drop the oldest samples to make room (the default).
    DropOldest,
    /// Drop the new samples.
    DropNewest,
    /// Drop the older half of the buffer.
    HalveBuffer,
    /// Empty the buffer.
    Reset,
}

/// Ring buffer of interleaved stereo samples.
pub struct AudioRingBuffer {
    pub buffer: Vec<i16>,
    pub write_pos: usize,
    pub read_pos: usize,
    pub total_written: u64,
    pub total_dropped: u64,
    pub max_fill_level: usize,
    pub current_fill: usize,
    /// The capacity, a power of two.
    pub size: usize,
    pub size_mask: usize,
    pub recovery_mode: AudioRecoveryMode,
    pub current_drop_count: u32,
    pub target_latency: usize,
    pub latency_samples: Vec<u32>,
    pub latency_index: usize,
}

/// Whether `n` is a power of two.
pub open spec fn is_pow2(n: usize) -> bool {
    n > 0 && n & ((n - 1) as usize) == 0
}

/// Whether `p` is the smallest power of two at least `n` (1 for 0).
pub open spec fn is_next_pow2(p: usize, n: usize) -> bool {
    is_pow2(p) && p >= n && (p == 1 || p / 2 < n)
}

/// Position `x` taken modulo `n`, for `x` below `2n`.
pub open spec fn wrap(x: int, n: int) -> int {
    if x < n { x } else { x - n }
}

proof fn lemma_mask_wrap(x: usize, n: usize)
    requires
        is_pow2(n),
        x < 2 * n,
    ensures
        x & ((n - 1) as usize) == wrap(x as int, n as int),
{
    let d: usize = if x >= n { (x - n) as usize } else { 0 };
    assert(n > 0 && n & ((n - 1) as usize) == 0 && (x >= n ==> (d == x - n && d < n))
        ==> x & ((n - 1) as usize) == (if x < n { x } else { d })) by (bit_vector);
}

proof fn lemma_pow2_double(p: usize)
    requires
        is_pow2(p),
        2 * p <= usize::MAX,
    ensures
        is_pow2((2 * p) as usize),
{
    let q: usize = (2 * p) as usize;
    assert(p > 0 && p & ((p - 1) as usize) == 0 && q == p + p && p < q ==> q & ((q - 1) as usize) == 0) by (bit_vector);
}

impl AudioRingBuffer {
    /// The internal invariant: a power-of-two capacity, positions inside it, and the
    /// write position `current_fill` samples after the read position.
    pub open spec fn wf(&self) -> bool {
        &&& is_pow2(self.size)
        &&& 2 * self.size <= usize::MAX
        &&& self.size_mask == self.size - 1
        &&& self.buffer@.len() == self.size
        &&& self.read_pos < self.size
        &&& self.write_pos < self.size
        &&& self.current_fill <= self.size
        &&& self.write_pos == wrap(self.read_pos + self.current_fill, self.size as int)
        &&& self.latency_samples@.len() == 128
        &&& self.latency_index < 128
    }

    /// The queued samples, oldest first.
    pub open spec fn contents(&self) -> Seq<i16> {
        Seq::new(self.current_fill as nat, |i: int| self.buffer@[wrap(self.read_pos + i, self.size as int)])
    }

    /// An empty buffer whose capacity is `requested_size` rounded up to a power of two.
    /// The capacity in bytes must fit in `isize`, as every allocation's must.
    pub fn new(requested_size: usize) -> (r: Self)
        requires
            requested_size <= usize::MAX / 8 + 1,
        ensures
            r.wf(),
            is_next_pow2(r.size, requested_size),
            r.contents() == Seq::<i16>::empty(),
            r.total_written == 0 && r.total_dropped == 0 && r.max_fill_level == 0,
            r.recovery_mode == AudioRecoveryMode::DropOldest,
            r.current_drop_count == 0,
            r.target_latency == r.size / 4,
    {
        let mut size: usize = 1;
        proof {
            assert(is_pow2(1usize)) by (bit_vector);
        }
        while size < requested_size
            invariant
                is_pow2(size),
                requested_size <= usize::MAX / 8 + 1,
                size == 1 || size / 2 < requested_size,
            decreases usize::MAX - size,
        {
            proof { lemma_pow2_double(size); }
            size = size * 2;
        }
        let size_mask = size - 1;
        let r = AudioRingBuffer {
            buffer: vec![0; size],
            write_pos: 0,
            read_pos: 0,
            total_written: 0,
            total_dropped: 0,
            max_fill_level: 0,
            current_fill: 0,
            size: size,
            size_mask: size_mask,
            recovery_mode: AudioRecoveryMode::DropOldest,
            current_drop_count: 0,
            target_latency: size / 4,
            latency_samples: vec![0; 128],
            latency_index: 0,
        };
        r
    }
}


/// `new` is `old` after a stereo pair is pushed: with two free slots the pair is
/// appended; otherwise it is not stored and the recovery mode drops samples.
pub open spec fn stereo_pushed(old: AudioRingBuffer, new: AudioRingBuffer, left: i16, right: i16) -> bool {
    &&& old.size - old.current_fill >= 2 ==> new.contents() == old.contents().push(left).push(right)
        && new.total_written == old.total_written + 2
        && new.total_dropped == old.total_dropped
        && new.current_drop_count == old.current_drop_count
        && new.max_fill_level == (if old.max_fill_level >= new.current_fill { old.max_fill_level } else { new.current_fill })
    &&& old.size - old.current_fill < 2 ==> new.contents() == old.contents().skip(old.dropped_on_overflow(2))
        && new.total_written == old.total_written
        && new.total_dropped == old.total_dropped + old.counted_on_overflow(2)
        && new.current_drop_count == old.current_drop_count + old.counted_on_overflow(2)
        && new.max_fill_level == old.max_fill_level
    &&& new.size == old.size
    &&& new.recovery_mode == old.recovery_mode
    &&& new.target_latency == old.target_latency
}

impl AudioRingBuffer {
    /// Free sample slots.
    pub fn available_space(&self) -> (r: usize)
        requires
            self.wf(),
        ensures
            r == self.size - self.current_fill,
    {
        self.size - self.current_fill
    }

    /// Whether at most two slots are left (no room for a further stereo pair beyond one).
    pub fn is_full(&self) -> (r: bool)
        requires
            self.wf(),
            self.size >= 2,
        ensures
            r == (self.current_fill >= self.size - 2),
    {
        self.current_fill >= self.size - 2
    }

    /// The samples that a full buffer gives up under the current recovery mode when
    /// `needed` more are wanted.
    pub open spec fn dropped_on_overflow(&self, needed: int) -> int {
        match self.recovery_mode {
            AudioRecoveryMode::DropOldest => if needed < self.current_fill { needed } else { self.current_fill as int },
            AudioRecoveryMode::DropNewest => 0,
            AudioRecoveryMode::HalveBuffer => (self.current_fill / 2) as int,
            AudioRecoveryMode::Reset => self.current_fill as int,
        }
    }

    /// What the statistics count as dropped on such an overflow.
    pub open spec fn counted_on_overflow(&self, needed: int) -> int {
        match self.recovery_mode {
            AudioRecoveryMode::DropNewest => needed,
            _ => self.dropped_on_overflow(needed),
        }
    }

    /// Whether the drop counters can take one more overflow of `needed` samples.
    pub open spec fn counters_room(&self, needed: int) -> bool {
        &&& self.total_dropped + self.size + needed <= u64::MAX
        &&& self.current_drop_count + self.size + needed <= u32::MAX
    }

    /// Handle a push that found no room: drop samples according to the recovery mode.
    fn handle_overflow(&mut self, needed_samples: usize)
        requires
            old(self).wf(),
            needed_samples <= 2,
            old(self).counters_room(needed_samples as int),
        ensures
            final(self).wf(),
            final(self).contents() == old(self).contents().skip(old(self).dropped_on_overflow(needed_samples as int)),
            final(self).total_dropped == old(self).total_dropped + old(self).counted_on_overflow(needed_samples as int),
            final(self).current_drop_count == old(self).current_drop_count + old(self).counted_on_overflow(needed_samples as int),
            final(self).size == old(self).size,
            final(self).total_written == old(self).total_written,
            final(self).max_fill_level == old(self).max_fill_level,
            final(self).recovery_mode == old(self).recovery_mode,
            final(self).target_latency == old(self).target_latency,
    {
        let ghost c = self.contents();
        match self.recovery_mode {
            AudioRecoveryMode::DropOldest => {
                let to_drop = if needed_samples < self.current_fill { needed_samples } else { self.current_fill };
                proof { lemma_mask_wrap((self.read_pos + to_drop) as usize, self.size); }
                self.read_pos = (self.read_pos + to_drop) & self.size_mask;
                self.current_fill = self.current_fill - to_drop;
                self.total_dropped = self.total_dropped + to_drop as u64;
                self.current_drop_count = self.current_drop_count + to_drop as u32;
            },
            AudioRecoveryMode::DropNewest => {
                self.total_dropped = self.total_dropped + needed_samples as u64;
                self.current_drop_count = self.current_drop_count + needed_samples as u32;
            },
            AudioRecoveryMode::HalveBuffer => {
                let to_drop = self.current_fill / 2;
                proof { lemma_mask_wrap((self.read_pos + to_drop) as usize, self.size); }
                self.read_pos = (self.read_pos + to_drop) & self.size_mask;
                self.current_fill = self.current_fill - to_drop;
                self.total_dropped = self.total_dropped + to_drop as u64;
                self.current_drop_count = self.current_drop_count + to_drop as u32;
            },
            AudioRecoveryMode::Reset => {
                self.total_dropped = self.total_dropped + self.current_fill as u64;
                self.current_drop_count = self.current_drop_count + self.current_fill as u32;
                self.read_pos = 0;
                self.write_pos = 0;
                self.current_fill = 0;
            },
        }
        assert(self.contents() =~= c.skip(old(self).dropped_on_overflow(needed_samples as int)));
    }

    /// Record the fill level in the latency window.
    fn update_latency_monitoring(&mut self)
        requires
            old(self).wf(),
        ensures
            final(self).wf(),
            final(self).contents() == old(self).contents(),
            *final(self) == (AudioRingBuffer {
                latency_samples: final(self).latency_samples,
                latency_index: final(self).latency_index,
                ..*old(self)
            }),
            final(self).latency_samples@ == old(self).latency_samples@.update(
                old(self).latency_index as int,
                old(self).current_fill as u32,
            ),
            final(self).latency_index == (old(self).latency_index + 1) % 128,
    {
        let i = self.latency_index;
        self.latency_samples.set(i, self.current_fill as u32);
        self.latency_index = (self.latency_index + 1) % self.latency_samples.len();
    }

    /// Append a stereo pair. With fewer than two free slots the pair is not stored, the
    /// recovery mode drops samples, and `false` is returned.
    pub fn push_stereo(&mut self, left: i16, right: i16) -> (r: bool)
        requires
            old(self).wf(),
            old(self).total_written + 2 <= u64::MAX,
            old(self).counters_room(2),
        ensures
            final(self).wf(),
            r == (old(self).size - old(self).current_fill >= 2),
            stereo_pushed(*old(self), *final(self), left, right),
    {
        if self.available_space() < 2 {
            self.handle_overflow(2);
            return false;
        }
        let ghost c = self.contents();
        let w0 = self.write_pos;
        self.buffer.set(w0, left);
        proof { lemma_mask_wrap((w0 + 1) as usize, self.size); }
        self.write_pos = (w0 + 1) & self.size_mask;
        let w1 = self.write_pos;
        self.buffer.set(w1, right);
        proof { lemma_mask_wrap((w1 + 1) as usize, self.size); }
        self.write_pos = (w1 + 1) & self.size_mask;
        self.current_fill = self.current_fill + 2;
        self.total_written = self.total_written + 2;
        if self.current_fill > self.max_fill_level {
            self.max_fill_level = self.current_fill;
        }
        assert(self.contents() =~= c.push(left).push(right));
        self.update_latency_monitoring();
        true
    }

    /// Take up to `count` stereo pairs, oldest first.
    pub fn pop_stereo(&mut self, count: usize) -> (r: Vec<i16>)
        requires
            old(self).wf(),
        ensures
            final(self).wf(),
            ({
                let pairs: int = if old(self).current_fill / 2 < count { (old(self).current_fill / 2) as int } else { count as int };
                &&& r@ == old(self).contents().take(2 * pairs)
                &&& final(self).contents() == old(self).contents().skip(2 * pairs)
                &&& final(self).current_drop_count == (if old(self).current_drop_count > 0
                    && old(self).current_fill - 2 * pairs < old(self).target_latency { 0 } else { old(self).current_drop_count })
            }),
            final(self).size == old(self).size,
            final(self).total_written == old(self).total_written,
            final(self).total_dropped == old(self).total_dropped,
            final(self).max_fill_level == old(self).max_fill_level,
            final(self).recovery_mode == old(self).recovery_mode,
            final(self).target_latency == old(self).target_latency,
    {
        let pairs = if self.current_fill / 2 < count { self.current_fill / 2 } else { count };
        let available = pairs * 2;
        let ghost c = self.contents();
        let ghost r0 = self.read_pos;
        let mut samples: Vec<i16> = Vec::with_capacity(available);
        let mut k: usize = 0;
        while k < available
            invariant
                old(self).wf(),
                is_pow2(self.size),
                2 * self.size <= usize::MAX,
                self.size_mask == self.size - 1,
                self.buffer@.len() == self.size,
                r0 < self.size,
                available <= self.current_fill,
                self.current_fill == old(self).current_fill,
                self.size == old(self).size,
                self.buffer@ == old(self).buffer@,
                c == old(self).contents(),
                r0 == old(self).read_pos,
                k <= available,
                self.read_pos == wrap(r0 + k, self.size as int),
                samples@ == c.take(k as int),
                *self == (AudioRingBuffer { read_pos: self.read_pos, write_pos: self.write_pos, ..*old(self) }),
                self.write_pos == old(self).write_pos,
            decreases available - k,
        {
            let rp = self.read_pos;
            samples.push(self.buffer[rp]);
            proof { lemma_mask_wrap((rp + 1) as usize, self.size); }
            self.read_pos = (rp + 1) & self.size_mask;
            k = k + 1;
            assert(samples@ =~= c.take(k as int));
        }
        assert(self.read_pos < self.size);
        self.current_fill = self.current_fill - available;
        if self.current_drop_count > 0 && self.current_fill < self.target_latency {
            self.current_drop_count = 0;
        }
        samples
    }

    /// Set the latency target, at most half the capacity.
    pub fn set_target_latency(&mut self, samples: usize)
        ensures
            *final(self) == (AudioRingBuffer {
                target_latency: if samples < old(self).size / 2 { samples } else { old(self).size / 2 },
                ..*old(self)
            }),
    {
        let half = self.size / 2;
        self.target_latency = if samples < half { samples } else { half };
    }

    /// Choose the overflow recovery mode.
    pub fn set_recovery_mode(&mut self, mode: AudioRecoveryMode)
        ensures
            *final(self) == (AudioRingBuffer { recovery_mode: mode, ..*old(self) }),
    {
        self.recovery_mode = mode;
    }

    /// Clear the counters; the high-water mark restarts at the current fill.
    pub fn reset_stats(&mut self)
        ensures
            *final(self) == (AudioRingBuffer {
                total_written: 0,
                total_dropped: 0,
                max_fill_level: old(self).current_fill,
                current_drop_count: 0,
                ..*old(self)
            }),
    {
        self.total_written = 0;
        self.total_dropped = 0;
        self.max_fill_level = self.current_fill;
        self.current_drop_count = 0;
    }
}

/// Ring buffer configuration.
#[derive(Debug, Clone, Copy, PartialEq, Eq, Structural)]
pub struct AudioBufferConfig {
    /// Capacity in samples, rounded up to a power of two.
    pub buffer_size: usize,
    /// Target latency in samples.
    pub target_latency: usize,
    pub recovery_mode: AudioRecoveryMode,
    pub enable_debug: bool,
}

impl Default for AudioBufferConfig {
    fn default() -> (r: Self)
        ensures
            r == (AudioBufferConfig {
                buffer_size: 8192,
                target_latency: 2048,
                recovery_mode: AudioRecoveryMode::DropOldest,
                enable_debug: false,
            }),
    {
        AudioBufferConfig {
            buffer_size: 8192,
            target_latency: 2048,
            recovery_mode: AudioRecoveryMode::DropOldest,
            enable_debug: false,
        }
    }
}

/// Buffer health, for the debug overlay.
#[derive(Debug, Clone, Copy, PartialEq, Eq, Structural)]
pub enum BufferHealth {
    /// Under half full.
    Good,
    /// Half to three quarters full.
    Warning,
    /// Three quarters to nine tenths full.
    Critical,
    /// Over nine tenths full, or dropping samples.
    Overflow,
}

/// How a volume is set: a fixed level, or a sweep.
#[derive(Debug, Clone, Copy, PartialEq, Eq, Structural)]
pub enum VolumeConfig {
    Fixed(i16),
    Sweep(EnvelopeParams),
}

/// A channel volume.
#[derive(Debug, Clone, Copy, PartialEq, Eq, Structural)]
pub struct Volume {
    pub level: i16,
    pub config: VolumeConfig,
}

/// `sample` scaled by `level`, a 1.15 fixed-point factor, rounding down.
pub open spec fn scaled(sample: i32, level: i16) -> int {
    (sample * level) / 0x8000
}

impl Volume {
    /// Silent, fixed at 0.
    pub fn new() -> (r: Self)
        ensures
            r == (Volume { level: 0, config: VolumeConfig::Fixed(0) }),
    {
        Volume { level: 0, config: VolumeConfig::Fixed(0) }
    }

    /// Configure from a register value: bit 15 clear selects a fixed level (the low bits
    /// shifted up one), set selects a sweep. The level itself changes on the next sweep
    /// cycle.
    pub fn set_config(&mut self, conf: u16)
        ensures
            final(self).level == old(self).level,
            conf & 0x8000 == 0 ==> final(self).config == VolumeConfig::Fixed((conf << 1u16) as i16),
            conf & 0x8000 != 0 ==> final(self).config == VolumeConfig::Sweep(EnvelopeParams {
                divider_step: 0,
                level_step: 0,
                mode: envelope::EnvelopeMode::Linear,
            }),
    {
        let fixed = conf & 0x8000 == 0;
        self.config = if fixed { VolumeConfig::Fixed((conf << 1) as i16) } else { VolumeConfig::Sweep(EnvelopeParams::new()) };
    }

    /// The current level.
    pub fn level(&self) -> (r: i16)
        ensures
            r == self.level,
    {
        self.level
    }

    /// The current level, for the debug overlay.
    pub fn get_level(&self) -> (r: i16)
        ensures
            r == self.level,
    {
        self.level
    }

    /// Set the level.
    pub fn set_level(&mut self, level: i16)
        ensures
            *final(self) == (Volume { level: level, ..*old(self) }),
    {
        self.level = level;
    }

    /// Scale a sample by the level (a 1.15 fixed-point factor), rounding down.
    pub fn apply_level(&self, sample: i32) -> (r: i32)
        requires
            i32::MIN <= sample * self.level <= i32::MAX,
        ensures
            r == scaled(sample, self.level),
    {
        let p: i64 = (sample as i64) * (self.level as i64);
        let q: i64 = if p >= 0 { p / 0x8000 } else { -((-p + 0x7fff) / 0x8000) };
        q as i32
    }

    /// Advance the volume by one cycle: a fixed volume takes its configured level. Sweeps
    /// are not emulated.
    pub fn run_sweep_cycle(&mut self)
        requires
            old(self).config is Fixed,
        ensures
            *final(self) == (Volume { level: old(self).config->Fixed_0, ..*old(self) }),
    {
        self.level = match self.config {
            VolumeConfig::Fixed(l) => l,
            VolumeConfig::Sweep(_) => self.level,
        };
    }
}

/// Number of 16-bit words of SPU RAM.
pub const SPU_RAM_SIZE: usize = 262144;

/// The RAM index named by a register value: in 8-byte units, within SPU RAM.
pub fn to_ram_index(v: u16) -> (r: u32)
    ensures
        r == ((v as u32) * 4) % 0x4_0000,
        r < 0x4_0000,
{
    ((v as u32) * 4) % 0x4_0000
}

/// Compress peaks 2:1 above three quarters of full scale.
pub fn apply_soft_compression(sample: i16) -> (r: i16)
    ensures
        -24576 <= sample <= 24576 ==> r == sample,
        sample > 24576 ==> r == adpcm::saturate16(24576 + (sample - 24576) / 2),
        sample < -24576 ==> r == adpcm::saturate16(-(24576 + (-sample - 24576) / 2)),
{
    let s = sample as i32;
    let threshold: i32 = 24576;
    let abs: i32 = if s < 0 { -s } else { s };
    if abs > threshold {
        let excess = abs - threshold;
        let compressed = threshold + excess / 2;
        adpcm::saturate_to_i16(if s < 0 { -compressed } else { compressed })
    } else {
        sample
    }
}

/// One of the 24 SPU voices.
#[derive(Debug, Clone, Copy)]
pub struct Voice {
    pub volume_left: Volume,
    pub volume_right: Volume,
    pub adsr: Adsr,
    /// Sample step, 4.12 fixed point.
    pub step_length: u16,
    /// Fractional position between samples, 12 fractional bits.
    pub phase: u16,
    pub start_index: u32,
    pub cur_index: u32,
    pub loop_index: u32,
    /// The loop index was set through the registers and block headers must not move it.
    pub loop_index_force: bool,
    pub block_header: AdpcmHeader,
    /// The last two decoded samples, most recent first.
    pub last_samples: [i16; 2],
    pub start_delay: u8,
}

/// The four samples that decoding `encoded` under header `h` gives after the samples
/// `s1` (most recent) and `s2`.
pub open spec fn decoded_block(h: AdpcmHeader, encoded: u16, s1: i16, s2: i16) -> Seq<i16> {
    let w = adpcm::weights_of((h.0 >> 4u16) & 0xf);
    let e = adpcm::effective_input(encoded, (h.0 & 0xf) as u8);
    let r0 = adpcm::adpcm_sample(e.0, 0, e.1, s1, s2, w.0, w.1);
    let r1 = adpcm::adpcm_sample(e.0, 1, e.1, r0, s1, w.0, w.1);
    let r2 = adpcm::adpcm_sample(e.0, 2, e.1, r1, r0, w.0, w.1);
    let r3 = adpcm::adpcm_sample(e.0, 3, e.1, r2, r1, w.0, w.1);
    seq![r0, r1, r2, r3]
}

impl Voice {
    /// A silent voice.
    pub fn new() -> (r: Self)
        ensures
            r.adsr.level == 0 && r.adsr.wf() && r.adsr.synced() && r.start_delay == 0,
            r.volume_left == Volume::new_spec() && r.volume_right == Volume::new_spec(),
            r.step_length == 0 && r.phase == 0,
            r.start_index == 0 && r.cur_index == 0 && r.loop_index == 0,
            !r.loop_index_force,
            r.block_header == AdpcmHeader(0),
            r.last_samples == [0i16, 0i16],
    {
        Voice {
            volume_left: Volume::new(),
            volume_right: Volume::new(),
            adsr: Adsr::new(),
            step_length: 0,
            phase: 0,
            start_index: 0,
            cur_index: 0,
            loop_index: 0,
            loop_index_force: false,
            block_header: AdpcmHeader(0),
            last_samples: [0; 2],
            start_delay: 0,
        }
    }

    /// Whether the voice sounds: its envelope is above 0 or it is still in its start delay.
    pub fn is_running(&self) -> (r: bool)
        ensures
            r == (self.adsr.level != 0 || self.start_delay > 0),
    {
        self.adsr.level != 0 || self.start_delay > 0
    }

    /// Loop if the last decoded block asked for it (bit 8 of its header): jump to the
    /// loop start, aligned to a block. Returns whether it looped.
    pub fn maybe_loop(&mut self) -> (r: bool)
        ensures
            r == (old(self).block_header.0 & 0x100 != 0),
            r ==> final(self).cur_index == old(self).loop_index & !7u32,
            !r ==> final(self).cur_index == old(self).cur_index,
            *final(self) == (Voice { cur_index: final(self).cur_index, ..*old(self) }),
    {
        let do_loop = self.block_header.loop_end();
        if do_loop {
            self.cur_index = self.loop_index & !7u32;
        }
        do_loop
    }

    /// After a loop end: release and mute if the block asked for it (bit 9 clear).
    pub fn maybe_release(&mut self)
        requires
            old(self).block_header.0 & 0x100 != 0,
        ensures
            old(self).block_header.0 & 0x200 == 0 ==> *final(self) == (Voice {
                adsr: envelope::Adsr { divider: 0, state: AdsrState::Release, level: 0, ..old(self).adsr },
                ..*old(self)
            }),
            old(self).block_header.0 & 0x200 != 0 ==> *final(self) == *old(self),
    {
        if self.block_header.loop_release_and_mute() {
            self.adsr.release();
            self.adsr.level = 0;
        }
    }

    /// Move to the next RAM word, wrapping at the end of SPU RAM.
    pub fn next_index(&mut self)
        ensures
            *final(self) == (Voice { cur_index: ((old(self).cur_index + 1) % 262144) as u32, ..*old(self) }),
    {
        self.cur_index = ((self.cur_index as u64 + 1) % (SPU_RAM_SIZE as u64)) as u32;
    }

    /// Set the start index, aligned to a block of 8 words.
    pub fn set_start_index(&mut self, addr: u32)
        ensures
            *final(self) == (Voice { start_index: addr & !7u32, ..*old(self) }),
    {
        self.start_index = addr & !7u32;
    }

    /// Set the envelope level, clamped to 0..=0x7FFF.
    pub fn set_level(&mut self, level: i16)
        ensures
            *final(self) == (Voice {
                adsr: envelope::Adsr { level: envelope::clamp_level(level as int), ..old(self).adsr },
                ..*old(self)
            }),
    {
        let clamped = if level < 0 { 0 } else { level };
        self.adsr.set_level(clamped)
    }

    /// The envelope level.
    pub fn level(&self) -> (r: i16)
        ensures
            r == self.adsr.level,
    {
        self.adsr.level
    }

    /// Take the header of a new block; a loop start moves the loop index here unless the
    /// registers fixed it.
    pub fn set_block_header(&mut self, header: u16)
        ensures
            final(self).block_header == AdpcmHeader(header),
            final(self).loop_index == (if !old(self).loop_index_force && header & 0x400 != 0 {
                old(self).cur_index
            } else {
                old(self).loop_index
            }),
            *final(self) == (Voice {
                block_header: final(self).block_header,
                loop_index: final(self).loop_index,
                ..*old(self)
            }),
    {
        self.block_header = AdpcmHeader(header);
        if !self.loop_index_force && self.block_header.loop_start() {
            self.loop_index = self.cur_index;
        }
    }

    /// Fix the loop index through the registers.
    pub fn set_loop_index(&mut self, loop_index: u32)
        ensures
            *final(self) == (Voice { loop_index: loop_index, loop_index_force: true, ..*old(self) }),
    {
        self.loop_index = loop_index;
        self.loop_index_force = true;
    }

    /// Decode the four 4-bit samples of `encoded` with the current block header; they are
    /// returned in order and the last two become the history.
    pub fn decode(&mut self, encoded: u16) -> (r: [i16; 4])
        ensures
            r@ == decoded_block(old(self).block_header, encoded, old(self).last_samples[0], old(self).last_samples[1]),
            final(self).last_samples == [r[3], r[2]],
            *final(self) == (Voice { last_samples: final(self).last_samples, ..*old(self) }),
    {
        let (wp, wn) = self.block_header.weights();
        let mut shift = self.block_header.shift();
        let mut encoded = encoded;
        if shift > 12 {
            encoded = encoded & 0x8888;
            shift = 8;
        }
        let s1 = self.last_samples[0];
        let s2 = self.last_samples[1];
        let r0 = adpcm::decode_sample(encoded, 0, shift, s1, s2, wp, wn);
        let r1 = adpcm::decode_sample(encoded, 1, shift, r0, s1, wp, wn);
        let r2 = adpcm::decode_sample(encoded, 2, shift, r1, r0, wp, wn);
        let r3 = adpcm::decode_sample(encoded, 3, shift, r2, r1, wp, wn);
        self.last_samples = [r3, r2];
        let r = [r0, r1, r2, r3];
        assert(r@ =~= seq![r0, r1, r2, r3]);
        r
    }

    /// Run one envelope cycle.
    pub fn run_envelope_cycle(&mut self)
        requires
            old(self).adsr.wf(),
            old(self).adsr.cycle_counter < u32::MAX,
            old(self).adsr.envelope_cycles < u32::MAX,
        ensures
            *final(self) == (Voice { adsr: envelope::cycle_of(old(self).adsr), ..*old(self) }),
    {
        self.adsr.run_cycle();
    }

    /// Run one sweep cycle of both volumes (fixed volumes only).
    pub fn run_sweep_cycle(&mut self)
        requires
            old(self).volume_left.config is Fixed,
            old(self).volume_right.config is Fixed,
        ensures
            final(self).volume_left.level == old(self).volume_left.config->Fixed_0,
            final(self).volume_right.level == old(self).volume_right.config->Fixed_0,
            *final(self) == (Voice { volume_left: final(self).volume_left, volume_right: final(self).volume_right, ..*old(self) }),
            final(self).volume_left.config == old(self).volume_left.config,
            final(self).volume_right.config == old(self).volume_right.config,
    {
        self.volume_left.run_sweep_cycle();
        self.volume_right.run_sweep_cycle();
    }

    /// Scale a sample by the envelope level (1.15 fixed point), clamped to 16 bits.
    pub fn apply_enveloppe(&self, sample: i32) -> (r: i32)
        requires
            i32::MIN <= sample * self.adsr.level <= i32::MAX,
        ensures
            r == adpcm::saturate16(((sample * self.adsr.level) as i32 >> 15i32) as int),
    {
        let level = self.adsr.level as i32;
        let result = (sample * level) >> 15;
        if result < -32768 {
            -32768
        } else if result > 32767 {
            32767
        } else {
            result
        }
    }

    /// The sample scaled by the left and right volumes.
    pub fn apply_stereo(&self, sample: i32) -> (r: (i32, i32))
        requires
            i32::MIN <= sample * self.volume_left.level <= i32::MAX,
            i32::MIN <= sample * self.volume_right.level <= i32::MAX,
        ensures
            r.0 == scaled(sample, self.volume_left.level),
            r.1 == scaled(sample, self.volume_right.level),
    {
        (self.volume_left.apply_level(sample), self.volume_right.apply_level(sample))
    }

    /// Start the voice again: a new attack from level 0, back at the start index with an
    /// empty history, and four cycles of delay.
    pub fn restart(&mut self)
        ensures
            final(self).adsr == (envelope::Adsr {
                divider: 0,
                state: AdsrState::Attack,
                level: 0,
                cycle_counter: 0,
                envelope_cycles: 0,
                ..old(self).adsr
            }),
            *final(self) == (Voice {
                adsr: final(self).adsr,
                phase: 0,
                cur_index: old(self).start_index & !7u32,
                block_header: AdpcmHeader(0),
                last_samples: [0i16, 0i16],
                start_delay: 4,
                loop_index_force: false,
                ..*old(self)
            }),
    {
        self.adsr.attack();
        self.phase = 0;
        self.cur_index = self.start_index & !7u32;
        self.block_header = AdpcmHeader(0);
        self.last_samples = [0, 0];
        self.start_delay = 4;
        self.loop_index_force = false;
    }

    /// Release the envelope if the voice is sounding.
    pub fn release(&mut self)
        ensures
            old(self).adsr.level > 0 ==> *final(self) == (Voice {
                adsr: envelope::Adsr { divider: 0, state: AdsrState::Release, ..old(self).adsr },
                ..*old(self)
            }),
            old(self).adsr.level <= 0 ==> *final(self) == *old(self),
    {
        if self.adsr.level > 0 {
            self.adsr.release();
        }
    }

    /// Silence the envelope.
    pub fn mute(&mut self)
        ensures
            *final(self) == (Voice { adsr: envelope::Adsr { level: 0, ..old(self).adsr }, ..*old(self) }),
    {
        self.adsr.level = 0;
    }

    /// Advance the phase by `step` (12 fractional bits) and return how many whole samples
    /// were passed, which the decoder queue then gives up.
    pub fn consume_samples(&mut self, step: u16) -> (r: u16)
        requires
            old(self).phase + step <= u16::MAX,
        ensures
            r == (old(self).phase + step) / 4096,
            final(self).phase == (old(self).phase + step) % 4096,
            *final(self) == (Voice { phase: final(self).phase, ..*old(self) }),
    {
        let step = self.phase + step;
        self.phase = step % 4096;
        step / 4096
    }
}

impl Volume {
    /// A silent fixed volume, as a value.
    pub open spec fn new_spec() -> Volume {
        Volume { level: 0, config: VolumeConfig::Fixed(0) }
    }
}
} // verus!
