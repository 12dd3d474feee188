//! One 44.1kHz mixing cycle of the sound processor: the voices' samples, the CD audio
//! (which is also captured into sound RAM), and the reverb's output are summed, held to
//! 16 bits, scaled by the main volume and queued for the host.

use vstd::prelude::*;
use super::adpcm::{saturate16, saturate_to_i16};
use super::processor::{
    apply_soft_compression, floor_div, noise_step, soft_compressed, status_of, Spu, VolumeSetting, STATUS,
};
use crate::psx::spu::stereo_pushed;

verus! {

/// The sums over voices `0..n` of their left and right samples, and of the left and
/// right samples of those that `reverb_mask` feeds to the reverb.
pub open spec fn voice_mix(voices: Seq<(i32, i32)>, reverb_mask: u32, n: int) -> (int, int, int, int)
    decreases n,
{
    if n <= 0 {
        (0, 0, 0, 0)
    } else {
        let p = voice_mix(voices, reverb_mask, n - 1);
        let v = voices[n - 1];
        let rev = reverb_mask & (1u32 << ((n - 1) as u32)) != 0;
        (p.0 + v.0, p.1 + v.1, p.2 + (if rev { v.0 as int } else { 0 }), p.3 + (if rev { v.1 as int } else { 0 }))
    }
}

/// The level a volume takes at its next sweep cycle.
pub open spec fn swept_level(setting: VolumeSetting) -> i16 {
    match setting {
        VolumeSetting::Fixed(l) => l,
        VolumeSetting::Sweep(_) => 0,
    }
}

/// What one mixing cycle of `s` produces from the voices' samples, the CD's stereo
/// sample and the reverb's output: the pair queued for the host, and the pair fed to
/// the reverb. The control register mutes the voices and the reverb feed (bit 14
/// clear), and enables the CD audio (bit 0) and its reverb feed (bit 2); in enhanced
/// mode the output goes through the soft knee.
pub open spec fn mix_of(s: Spu, voices: Seq<(i32, i32)>, cd: (i16, i16), reverb_out: (i16, i16)) -> ((i16, i16), (i16, i16)) {
    let ctrl = s.control_spec();
    let m = voice_mix(voices, s.voice_reverb, 24);
    let muted = ctrl & 0x4000 == 0;
    let l0: int = if muted { 0 } else { m.0 };
    let r0: int = if muted { 0 } else { m.1 };
    let rl0: int = if muted { 0 } else { m.2 };
    let rr0: int = if muted { 0 } else { m.3 };
    let cd_on = ctrl & 1 != 0;
    let cd_rev = ctrl & 4 != 0;
    let cdl = (cd.0 as int) * (s.cd_volume_left as int) / 32768;
    let cdr = (cd.1 as int) * (s.cd_volume_right as int) / 32768;
    let l1 = if cd_on { l0 + cdl } else { l0 };
    let r1 = if cd_on { r0 + cdr } else { r0 };
    let rl1 = if cd_on && cd_rev { rl0 + cdl } else { rl0 };
    let rr1 = if cd_on && cd_rev { rr0 + cdr } else { rr0 };
    let revl = (reverb_out.0 as int) * (s.reverb_out_volume_left as int) / 32768;
    let revr = (reverb_out.1 as int) * (s.reverb_out_volume_right as int) / 32768;
    let l2 = saturate16(l1 + revl) as int * (s.main_volume_left.level as int) / 32768;
    let r2 = saturate16(r1 + revr) as int * (s.main_volume_right.level as int) / 32768;
    let fl = saturate16(l2);
    let fr = saturate16(r2);
    let out = if s.reverb_enhanced_mode { (soft_compressed(fl), soft_compressed(fr)) } else { (fl, fr) };
    (out, (saturate16(rl1), saturate16(rr1)))
}

/// The sum of the left (`right == false`) or right samples of the first `n` voices.
pub open spec fn channel_sum(voices: Seq<(i32, i32)>, right: bool, n: int) -> int
    decreases n,
{
    if n <= 0 {
        0
    } else {
        channel_sum(voices, right, n - 1) + if right { voices[n - 1].1 as int } else { voices[n - 1].0 as int }
    }
}

proof fn lemma_voice_mix_sums(voices: Seq<(i32, i32)>, mask: u32, n: int)
    requires
        0 <= n <= voices.len(),
    ensures
        voice_mix(voices, mask, n).0 == channel_sum(voices, false, n),
        voice_mix(voices, mask, n).1 == channel_sum(voices, true, n),
    decreases n,
{
    if n > 0 {
        lemma_voice_mix_sums(voices, mask, n - 1);
    }
}

/// The sum of the left or right samples of those of the first `n` voices whose bit is
/// set in `mask`.
pub open spec fn masked_sum(voices: Seq<(i32, i32)>, mask: u32, right: bool, n: int) -> int
    decreases n,
{
    if n <= 0 {
        0
    } else {
        masked_sum(voices, mask, right, n - 1) + if mask & (1u32 << ((n - 1) as u32)) != 0 {
            if right { voices[n - 1].1 as int } else { voices[n - 1].0 as int }
        } else {
            0
        }
    }
}

proof fn lemma_voice_mix_masked(voices: Seq<(i32, i32)>, mask: u32, n: int)
    requires
        0 <= n <= voices.len(),
    ensures
        voice_mix(voices, mask, n).2 == masked_sum(voices, mask, false, n),
        voice_mix(voices, mask, n).3 == masked_sum(voices, mask, true, n),
    decreases n,
{
    if n > 0 {
        lemma_voice_mix_masked(voices, mask, n - 1);
    }
}

/// The reverb is fed, on each side, the voices that the reverb enable bits select
/// (nothing when muted) plus the CD sample times its volume when CD audio is on and set
/// to go to the reverb (control bits 0 and 2), held to 16 bits.
pub proof fn lemma_mix_reverb_feed(s: Spu, voices: Seq<(i32, i32)>, cd: (i16, i16), reverb_out: (i16, i16))
    requires
        voices.len() == 24,
    ensures
        ({
            let ctrl = s.control_spec();
            let on = ctrl & 0x4000 != 0;
            let cd_rev = ctrl & 1 != 0 && ctrl & 4 != 0;
            let fl = (if on { masked_sum(voices, s.voice_reverb, false, 24) } else { 0 })
                + (if cd_rev { (cd.0 as int) * (s.cd_volume_left as int) / 32768 } else { 0 });
            let fr = (if on { masked_sum(voices, s.voice_reverb, true, 24) } else { 0 })
                + (if cd_rev { (cd.1 as int) * (s.cd_volume_right as int) / 32768 } else { 0 });
            mix_of(s, voices, cd, reverb_out).1 == (saturate16(fl), saturate16(fr))
        }),
{
    lemma_voice_mix_masked(voices, s.voice_reverb, 24);
}

/// A mixing cycle adds its sources: when nothing saturates and the result stays under
/// the output's soft knee, each queued sample is the sum of the voices' samples (unless
/// muted, control bit 14 clear), the CD sample times the CD volume (when CD audio is on,
/// control bit 0) and the reverb output times the reverb volume, each volume in 1.15
/// fixed point, then scaled by the main volume's level in 1.15 fixed point, all rounded
/// down.
pub proof fn lemma_mix_adds_sources(s: Spu, voices: Seq<(i32, i32)>, cd: (i16, i16), reverb_out: (i16, i16))
    requires
        voices.len() == 24,
    ensures
        ({
            let ctrl = s.control_spec();
            let on = ctrl & 0x4000 != 0;
            let cd_on = ctrl & 1 != 0;
            let tl = (if on { channel_sum(voices, false, 24) } else { 0 })
                + (if cd_on { (cd.0 as int) * (s.cd_volume_left as int) / 32768 } else { 0 })
                + (reverb_out.0 as int) * (s.reverb_out_volume_left as int) / 32768;
            let tr = (if on { channel_sum(voices, true, 24) } else { 0 })
                + (if cd_on { (cd.1 as int) * (s.cd_volume_right as int) / 32768 } else { 0 })
                + (reverb_out.1 as int) * (s.reverb_out_volume_right as int) / 32768;
            let ol = tl * (s.main_volume_left.level as int) / 32768;
            let or = tr * (s.main_volume_right.level as int) / 32768;
            let out = mix_of(s, voices, cd, reverb_out).0;
            &&& -32768 <= tl <= 32767 && -24576 <= ol <= 24576 ==> out.0 as int == ol
            &&& -32768 <= tr <= 32767 && -24576 <= or <= 24576 ==> out.1 as int == or
        }),
{
    lemma_voice_mix_sums(voices, s.voice_reverb, 24);
}

impl Spu {
    /// One mixing cycle, given the 24 voices' stereo samples for this cycle, the CD's
    /// stereo sample and the reverb's output. The status register is refreshed, the
    /// noise generator steps, pending voice starts and stops are cleared (the voices
    /// have taken them), the CD sample is captured into the capture buffers, the main
    /// volumes take their next level, the capture position moves on, and the mixed pair
    /// is queued. Returns the queued pair and the pair for the reverb's input.
    pub fn mix_cycle(&mut self, voices: &Vec<(i32, i32)>, cd: (i16, i16), reverb_out: (i16, i16)) -> (r: ((i16, i16), (i16, i16)))
        requires
            old(self).wf(),
            voices@.len() == 24,
            forall|i: int| 0 <= i < 24 ==> -32768 <= (#[trigger] voices@[i]).0 <= 32767 && -32768 <= voices@[i].1 <= 32767,
            old(self).main_volume_left.config is Fixed,
            old(self).main_volume_right.config is Fixed,
            old(self).audio_ring_buffer.total_written + 2 <= u64::MAX,
            old(self).audio_ring_buffer.counters_room(2),
        ensures
            final(self).wf(),
            r == mix_of(*old(self), voices@, cd, reverb_out),
            ({
                let o = *old(self);
                let cl = o.capture_index & 0x1ff;
                let cr = (o.capture_index | 0x200) & 0x3ff;
                let noise = noise_step(o.control_spec(), o.noise_counter1, o.noise_counter2, o.noise_lfsr);
                &&& final(self).regs@ == o.regs@.update(STATUS as int, status_of(o))
                &&& final(self).ram@ == o.ram@.update(cl as int, cd.0 as u16).update(cr as int, cd.1 as u16)
                &&& final(self).irq == (o.irq || (o.irq_enabled() && (cl == o.irq_addr || cr == o.irq_addr)))
                &&& stereo_pushed(o.audio_ring_buffer, final(self).audio_ring_buffer, r.0.0, r.0.1)
                &&& *final(self) == (Spu {
                    regs: final(self).regs,
                    ram: final(self).ram,
                    irq: final(self).irq,
                    noise_counter1: noise.0,
                    noise_counter2: noise.1,
                    noise_lfsr: noise.2,
                    voice_start: 0,
                    voice_stop: 0,
                    main_volume_left: super::processor::Volume { level: swept_level(o.main_volume_left.config), ..o.main_volume_left },
                    main_volume_right: super::processor::Volume { level: swept_level(o.main_volume_right.config), ..o.main_volume_right },
                    capture_index: ((o.capture_index + 1) as u32) & 0x1ff,
                    audio_ring_buffer: final(self).audio_ring_buffer,
                    ..o
                })
            }),
    {
        let ghost o = *self;
        self.update_status();
        let mask = self.voice_reverb;
        let mut left_mix: i32 = 0;
        let mut right_mix: i32 = 0;
        let mut left_reverb: i32 = 0;
        let mut right_reverb: i32 = 0;
        let mut v: usize = 0;
        while v < 24
            invariant
                v <= 24,
                voices@.len() == 24,
                forall|i: int| 0 <= i < 24 ==> -32768 <= (#[trigger] voices@[i]).0 <= 32767 && -32768 <= voices@[i].1 <= 32767,
                (left_mix as int, right_mix as int, left_reverb as int, right_reverb as int) == voice_mix(voices@, mask, v as int),
                -32768 * v <= left_mix <= 32767 * v,
                -32768 * v <= right_mix <= 32767 * v,
                -32768 * v <= left_reverb <= 32767 * v,
                -32768 * v <= right_reverb <= 32767 * v,
            decreases 24 - v,
        {
            let (l, r) = voices[v];
            left_mix = left_mix + l;
            right_mix = right_mix + r;
            if mask & (1u32 << (v as u32)) != 0 {
                left_reverb = left_reverb + l;
                right_reverb = right_reverb + r;
            }
            v = v + 1;
        }
        self.run_noise_cycle();
        self.voice_start = 0;
        self.voice_stop = 0;
        let ctrl = self.control();
        if ctrl & 0x4000 == 0 {
            left_mix = 0;
            right_mix = 0;
            left_reverb = 0;
            right_reverb = 0;
        }
        let capture_left = self.capture_index & 0x1ff;
        let capture_right = (self.capture_index | 0x200) & 0x3ff;
        proof {
            crate::bits::lemma_and_le(self.capture_index, 0x1ff);
            crate::bits::lemma_and_le(self.capture_index | 0x200, 0x3ff);
        }
        self.ram_write(capture_left, cd.0 as u16);
        self.ram_write(capture_right, cd.1 as u16);
        if ctrl & 1 != 0 {
            assert(-32768 * 32768 <= cd.0 * self.cd_volume_left <= 32768 * 32768) by (nonlinear_arith)
                requires -32768 <= cd.0 <= 32767, -32768 <= self.cd_volume_left <= 32767;
            assert(-32768 * 32768 <= cd.1 * self.cd_volume_right <= 32768 * 32768) by (nonlinear_arith)
                requires -32768 <= cd.1 <= 32767, -32768 <= self.cd_volume_right <= 32767;
            let cdl = floor_div((cd.0 as i32) * (self.cd_volume_left as i32), 32768);
            let cdr = floor_div((cd.1 as i32) * (self.cd_volume_right as i32), 32768);
            assert(-32768 <= cdl <= 32768 && -32768 <= cdr <= 32768) by (nonlinear_arith)
                requires
                    -32768 * 32768 <= cd.0 * self.cd_volume_left <= 32768 * 32768, cdl == (cd.0 * self.cd_volume_left) / 32768,
                    -32768 * 32768 <= cd.1 * self.cd_volume_right <= 32768 * 32768, cdr == (cd.1 * self.cd_volume_right) / 32768;
            left_mix = left_mix + cdl;
            right_mix = right_mix + cdr;
            if ctrl & 4 != 0 {
                left_reverb = left_reverb + cdl;
                right_reverb = right_reverb + cdr;
            }
        }
        let reverb_in = (saturate_to_i16(left_reverb), saturate_to_i16(right_reverb));
        assert(-32768 * 32768 <= reverb_out.0 * self.reverb_out_volume_left <= 32768 * 32768) by (nonlinear_arith)
            requires -32768 <= reverb_out.0 <= 32767, -32768 <= self.reverb_out_volume_left <= 32767;
        assert(-32768 * 32768 <= reverb_out.1 * self.reverb_out_volume_right <= 32768 * 32768) by (nonlinear_arith)
            requires -32768 <= reverb_out.1 <= 32767, -32768 <= self.reverb_out_volume_right <= 32767;
        let revl = floor_div((reverb_out.0 as i32) * (self.reverb_out_volume_left as i32), 32768);
        let revr = floor_div((reverb_out.1 as i32) * (self.reverb_out_volume_right as i32), 32768);
        assert(-32768 <= revl <= 32768 && -32768 <= revr <= 32768) by (nonlinear_arith)
            requires
                -32768 * 32768 <= reverb_out.0 * self.reverb_out_volume_left <= 32768 * 32768,
                revl == (reverb_out.0 * self.reverb_out_volume_left) / 32768,
                -32768 * 32768 <= reverb_out.1 * self.reverb_out_volume_right <= 32768 * 32768,
                revr == (reverb_out.1 * self.reverb_out_volume_right) / 32768;
        let l_sat = saturate_to_i16(left_mix + revl) as i32;
        let r_sat = saturate_to_i16(right_mix + revr) as i32;
        let l_scaled = self.main_volume_left.apply_level(l_sat);
        let r_scaled = self.main_volume_right.apply_level(r_sat);
        self.main_volume_left.run_sweep_cycle();
        self.main_volume_right.run_sweep_cycle();
        let next_capture = self.capture_index + 1;
        proof { crate::bits::lemma_and_le(next_capture, 0x1ff); }
        self.capture_index = next_capture & 0x1ff;
        let final_left = saturate_to_i16(l_scaled);
        let final_right = saturate_to_i16(r_scaled);
        let out = if self.reverb_enhanced_mode {
            (apply_soft_compression(final_left), apply_soft_compression(final_right))
        } else {
            (final_left, final_right)
        };
        self.audio_ring_buffer.push_stereo(out.0, out.1);
        (out, reverb_in)
    }
}

} // verus!
