//! The reverb's filter network at 22.05kHz, one stereo side per 44.1kHz cycle: the
//! same-side and cross-side reflections with their IIR filters, the four comb taps,
//! and the two all-pass stages, all working in a ring buffer in sound RAM.

use vstd::prelude::*;
use super::adpcm::{saturate16, saturate_to_i16};
use super::processor::{
    apply_enhanced_reverb_coeff, floor_div, iir_mul, iir_mul_spec, irq_checked, ram_index_of, reverb_coeff_spec,
    reverb_index_of, Spu, CONTROL,
};

verus! {

/// Register indices of the reverb configuration.
pub const REVERB_APF_OFFSET1: usize = 0xe0;
pub const REVERB_APF_OFFSET2: usize = 0xe1;
pub const REVERB_REFLECT_VOLUME1: usize = 0xe2;
pub const REVERB_COMB_VOLUME1: usize = 0xe3;
pub const REVERB_REFLECT_VOLUME2: usize = 0xe7;
pub const REVERB_APF_VOLUME1: usize = 0xe8;
pub const REVERB_APF_VOLUME2: usize = 0xe9;
pub const REVERB_REFLECT_SAME1: usize = 0xea;
pub const REVERB_COMB1: usize = 0xec;
pub const REVERB_COMB2: usize = 0xee;
pub const REVERB_REFLECT_SAME2: usize = 0xf0;
pub const REVERB_REFLECT_DIFF1: usize = 0xf2;
pub const REVERB_COMB3: usize = 0xf4;
pub const REVERB_COMB4: usize = 0xf6;
pub const REVERB_REFLECT_DIFF2: usize = 0xf8;
pub const REVERB_APF1: usize = 0xfa;
pub const REVERB_APF2: usize = 0xfc;
pub const REVERB_INPUT_VOLUME: usize = 0xfe;

/// Register `i` as a signed volume.
pub open spec fn reg_vol(s: Spu, i: int) -> int {
    s.regs@[i] as i16 as int
}

/// The RAM position of the reverb sample that register `i` points at, `neg` halfwords
/// earlier.
pub open spec fn tap(s: Spu, i: int, neg: u32) -> int {
    reverb_index_of(s, s.regs@[i], neg) as int
}

/// The sample of `ram` at the position register `i` points at, `neg` halfwords earlier.
pub open spec fn tap_value(ram: Seq<u16>, s: Spu, i: int, neg: u32) -> int {
    ram[tap(s, i, neg)] as i16 as int
}

/// The RAM position of all-pass tap `i` moved by offset register `o`.
pub open spec fn apf_tap(s: Spu, i: int, o: int) -> int {
    reverb_index_of(s, ((s.regs@[i] + s.regs@[o]) % 0x1_0000) as u16, 0) as int
}

/// The two reflections' IIR outputs (same side, other side) for `input`, the side
/// (0 left, 1 right) being `side`.
pub open spec fn reflections(s: Spu, side: int, input: i16) -> (i16, i16) {
    let ram = s.ram@;
    let enh = s.reverb_enhanced_mode;
    let in_mix = (input as int) * reg_vol(s, REVERB_INPUT_VOLUME + side) / 32768;
    let rv2 = reg_vol(s, REVERB_REFLECT_VOLUME2 as int);
    let same_mix = reverb_coeff_spec(tap_value(ram, s, REVERB_REFLECT_SAME2 + side, 0), rv2, enh);
    let diff_mix = reverb_coeff_spec(tap_value(ram, s, REVERB_REFLECT_DIFF2 + side, 0), rv2, enh);
    let input_same = saturate16(same_mix + in_mix);
    let input_diff = saturate16(diff_mix + in_mix);
    let v1 = s.regs@[REVERB_REFLECT_VOLUME1 as int] as i16;
    let same_alpha = (input_same as int) * (v1 as int) / 16384;
    let diff_alpha = (input_diff as int) * (v1 as int) / 16384;
    let iir_same = saturate16((same_alpha + iir_mul_spec(v1, tap_value(ram, s, REVERB_REFLECT_SAME1 + side, 1) as i16)) / 2);
    let iir_diff = saturate16((diff_alpha + iir_mul_spec(v1, tap_value(ram, s, REVERB_REFLECT_DIFF1 + side, 1) as i16)) / 2);
    (iir_same, iir_diff)
}

/// RAM after the reflections are stored.
pub open spec fn ram_reflected(s: Spu, side: int, input: i16) -> Seq<u16> {
    let (iir_same, iir_diff) = reflections(s, side, input);
    s.ram@.update(tap(s, REVERB_REFLECT_SAME1 + side, 0), iir_same as u16)
        .update(tap(s, REVERB_REFLECT_DIFF1 + side, 0), iir_diff as u16)
}

/// The early echo on `ram2`: the four comb taps scaled by their volumes, summed and
/// halved.
pub open spec fn early_of(s: Spu, side: int, ram2: Seq<u16>) -> i16 {
    let c1 = tap_value(ram2, s, REVERB_COMB1 + side, 0) * reg_vol(s, REVERB_COMB_VOLUME1 as int) / 16384;
    let c2 = tap_value(ram2, s, REVERB_COMB2 + side, 0) * reg_vol(s, REVERB_COMB_VOLUME1 + 1) / 16384;
    let c3 = tap_value(ram2, s, REVERB_COMB3 + side, 0) * reg_vol(s, REVERB_COMB_VOLUME1 + 2) / 16384;
    let c4 = tap_value(ram2, s, REVERB_COMB4 + side, 0) * reg_vol(s, REVERB_COMB_VOLUME1 + 3) / 16384;
    saturate16((c1 + c2 + c3 + c4) / 2)
}

/// The all-pass outputs (first, second stage) computed on `ram2`, the RAM after the
/// reflections.
pub open spec fn all_pass(s: Spu, side: int, ram2: Seq<u16>) -> (i16, i16) {
    let early = early_of(s, side, ram2) as int;
    let apf_in1 = ram2[apf_tap(s, REVERB_APF1 + side, REVERB_APF_OFFSET1 as int)] as i16 as int;
    let apf_in2 = ram2[apf_tap(s, REVERB_APF2 + side, REVERB_APF_OFFSET2 as int)] as i16 as int;
    let a1 = reg_vol(s, REVERB_APF_VOLUME1 as int);
    let a2 = reg_vol(s, REVERB_APF_VOLUME2 as int);
    let out1 = saturate16(early - apf_in1 * a1 / 32768);
    let out2 = saturate16(early * a1 / 32768 - apf_in1 * (-a1) / 32768 - apf_in2 * a2 / 32768);
    (out1, out2)
}

/// What one reverb step does to `s` with input `input` on the side it is due to run:
/// the new RAM, and the sample handed to that side's output.
pub open spec fn reverb_side(s: Spu, input: i16) -> (Seq<u16>, i16) {
    let side: int = if s.reverb_run_right { 1 } else { 0 };
    let ram2 = ram_reflected(s, side, input);
    let (out1, out2) = all_pass(s, side, ram2);
    let ram3 = ram2.update(tap(s, REVERB_APF1 + side, 0), out1 as u16).update(tap(s, REVERB_APF2 + side, 0), out2 as u16);
    (ram3, saturate16((out1 as int + out2 as int) / 2))
}

/// The RAM positions the reflections read.
pub open spec fn reflect_reads(s: Spu, side: int) -> Set<int> {
    set![
        tap(s, REVERB_REFLECT_SAME2 + side, 0), tap(s, REVERB_REFLECT_DIFF2 + side, 0),
        tap(s, REVERB_REFLECT_SAME1 + side, 1), tap(s, REVERB_REFLECT_DIFF1 + side, 1)
    ]
}

/// The RAM positions the comb taps read.
pub open spec fn comb_reads(s: Spu, side: int) -> Set<int> {
    set![
        tap(s, REVERB_COMB1 + side, 0), tap(s, REVERB_COMB2 + side, 0),
        tap(s, REVERB_COMB3 + side, 0), tap(s, REVERB_COMB4 + side, 0)
    ]
}

/// The RAM positions the comb and all-pass stages read.
pub open spec fn all_pass_reads(s: Spu, side: int) -> Set<int> {
    comb_reads(s, side) + set![
        apf_tap(s, REVERB_APF1 + side, REVERB_APF_OFFSET1 as int), apf_tap(s, REVERB_APF2 + side, REVERB_APF_OFFSET2 as int)
    ]
}

/// The RAM positions a reverb step on `side` accesses: the reads, and the four
/// positions it writes.
pub open spec fn reverb_accesses(s: Spu, side: int) -> Set<int> {
    reflect_reads(s, side) + all_pass_reads(s, side) + set![
        tap(s, REVERB_REFLECT_SAME1 + side, 0), tap(s, REVERB_REFLECT_DIFF1 + side, 0),
        tap(s, REVERB_APF1 + side, 0), tap(s, REVERB_APF2 + side, 0)
    ]
}

/// `new` is `old` with the interrupt raised if it is enabled and one of `positions` is
/// its address.
pub open spec fn irq_after_accesses(old: Spu, new: Spu, positions: Set<int>) -> bool {
    new.irq == (old.irq || (old.irq_enabled() && positions.contains(old.irq_addr as int)))
}

/// Whether the reverb runs: enabled in the control register (bit 7) and not forced off.
pub open spec fn reverb_active(s: Spu) -> bool {
    s.control_spec() & 0x80 != 0 && s.reverb_enable_override
}

/// The reverb position after a step: it moves on by one after each right-side step,
/// back to the work area's start past the end of RAM.
pub open spec fn reverb_index_after(s: Spu) -> u32 {
    if s.reverb_run_right {
        let n = ((s.reverb_index + 1) % 0x1_0000_0000) as u32;
        if n > 0x3_ffff { s.reverb_start } else { n }
    } else {
        s.reverb_index
    }
}

/// The reverb's arithmetic and addressing read only the registers and the work-area
/// positions of the state they are given.
proof fn lemma_same_config(a: Spu, b: Spu, side: int, ram: Seq<u16>)
    requires
        a.regs == b.regs,
        a.reverb_index == b.reverb_index,
        a.reverb_start == b.reverb_start,
    ensures
        all_pass(a, side, ram) == all_pass(b, side, ram),
        all_pass_reads(a, side) == all_pass_reads(b, side),
        tap(a, REVERB_REFLECT_SAME1 + side, 0) == tap(b, REVERB_REFLECT_SAME1 + side, 0),
        tap(a, REVERB_REFLECT_DIFF1 + side, 0) == tap(b, REVERB_REFLECT_DIFF1 + side, 0),
        tap(a, REVERB_APF1 + side, 0) == tap(b, REVERB_APF1 + side, 0),
        tap(a, REVERB_APF2 + side, 0) == tap(b, REVERB_APF2 + side, 0),
{
}

impl Spu {
    /// One 44.1kHz reverb step with `input`, the side's downsampled reverb input: when
    /// the reverb runs, the side that is due runs its filters in sound RAM and the
    /// sample for that side's output comes back; then the position moves on and the
    /// other side is due. The earlier-sample taps must not reach back before RAM
    /// position 0.
    pub fn reverb_step(&mut self, input: i16) -> (r: Option<i16>)
        requires
            old(self).wf(),
            ({
                let side: int = if old(self).reverb_run_right { 1 } else { 0 };
                reverb_active(*old(self)) ==> old(self).reverb_index + ram_index_of(old(self).regs@[REVERB_REFLECT_SAME1 + side]) >= 1
                    && old(self).reverb_index + ram_index_of(old(self).regs@[REVERB_REFLECT_DIFF1 + side]) >= 1
            }),
        ensures
            final(self).wf(),
            ({
                let side: int = if old(self).reverb_run_right { 1 } else { 0 };
                let (ram3, out) = reverb_side(*old(self), input);
                &&& reverb_active(*old(self)) ==> r == Some(out) && final(self).ram@ == ram3
                    && irq_after_accesses(*old(self), *final(self), reverb_accesses(*old(self), side))
                &&& !reverb_active(*old(self)) ==> r is None && final(self).ram@ == old(self).ram@ && final(self).irq == old(self).irq
                &&& *final(self) == (Spu {
                    ram: final(self).ram,
                    irq: final(self).irq,
                    reverb_index: reverb_index_after(*old(self)),
                    reverb_run_right: !old(self).reverb_run_right,
                    ..*old(self)
                })
            }),
    {
        let active = self.regs[CONTROL] & 0x80 != 0 && self.reverb_enable_override;
        let r = if active {
            Some(self.reverb_filters(input))
        } else {
            None
        };
        if self.reverb_run_right {
            let n = self.reverb_index.wrapping_add(1);
            self.reverb_index = if n > 0x3_ffff { self.reverb_start } else { n };
        }
        self.reverb_run_right = !self.reverb_run_right;
        r
    }

    #[verifier::rlimit(40)]
    fn reverb_filters(&mut self, input: i16) -> (r: i16)
        requires
            old(self).wf(),
            ({
                let side: int = if old(self).reverb_run_right { 1 } else { 0 };
                old(self).reverb_index + ram_index_of(old(self).regs@[REVERB_REFLECT_SAME1 + side]) >= 1
                    && old(self).reverb_index + ram_index_of(old(self).regs@[REVERB_REFLECT_DIFF1 + side]) >= 1
            }),
        ensures
            final(self).wf(),
            ({
                let side: int = if old(self).reverb_run_right { 1 } else { 0 };
                let (ram3, out) = reverb_side(*old(self), input);
                &&& r == out
                &&& final(self).ram@ == ram3
                &&& irq_after_accesses(*old(self), *final(self), reverb_accesses(*old(self), side))
                &&& *final(self) == (Spu { ram: final(self).ram, irq: final(self).irq, ..*old(self) })
            }),
    {
        let ghost s0 = *self;
        let side: usize = if self.reverb_run_right { 1 } else { 0 };
        let (iir_same, iir_diff) = self.reflection_values(side, input);
        let ghost s1 = *self;
        self.store_reverb_sample(self.regs[REVERB_REFLECT_SAME1 + side], iir_same);
        let ghost s1b = *self;
        self.store_reverb_sample(self.regs[REVERB_REFLECT_DIFF1 + side], iir_diff);
        let ghost s2 = *self;
        proof {
            lemma_same_config(s1, s0, side as int, s2.ram@);
            lemma_same_config(s1b, s0, side as int, s2.ram@);
            lemma_same_config(s2, s0, side as int, s2.ram@);
            assert(s2.ram@ == ram_reflected(s0, side as int, input));
        }
        let (out1, out2) = self.all_pass_values(side);
        let ghost s3 = *self;
        proof {
            lemma_same_config(s3, s0, side as int, s2.ram@);
            assert((out1, out2) == all_pass(s0, side as int, s2.ram@));
        }
        self.store_reverb_sample(self.regs[REVERB_APF1 + side], out1);
        let ghost s3b = *self;
        self.store_reverb_sample(self.regs[REVERB_APF2 + side], out2);
        proof {
            lemma_same_config(s3b, s0, side as int, s2.ram@);
            let a = s0.irq_addr as int;
            let en = s0.irq_enabled();
            assert(self.irq == (s0.irq || (en && (reflect_reads(s0, side as int).contains(a)
                || a == tap(s0, REVERB_REFLECT_SAME1 + side, 0) || a == tap(s0, REVERB_REFLECT_DIFF1 + side, 0)
                || all_pass_reads(s0, side as int).contains(a)
                || a == tap(s0, REVERB_APF1 + side, 0) || a == tap(s0, REVERB_APF2 + side, 0)))));
        }
        saturate_to_i16(floor_div(out1 as i32 + out2 as i32, 2))
    }

    /// The two reflections' IIR outputs; the RAM is only read.
    fn reflection_values(&mut self, side: usize, input: i16) -> (r: (i16, i16))
        requires
            old(self).wf(),
            side < 2,
            old(self).reverb_index + ram_index_of(old(self).regs@[REVERB_REFLECT_SAME1 + side]) >= 1,
            old(self).reverb_index + ram_index_of(old(self).regs@[REVERB_REFLECT_DIFF1 + side]) >= 1,
        ensures
            final(self).wf(),
            r == reflections(*old(self), side as int, input),
            irq_after_accesses(*old(self), *final(self), reflect_reads(*old(self), side as int)),
            *final(self) == (Spu { irq: final(self).irq, ..*old(self) }),
    {
        let enhanced = self.reverb_enhanced_mode;
        let in_vol = self.regs[REVERB_INPUT_VOLUME + side] as i16;
        assert(-32768 * 32768 <= input * in_vol <= 32768 * 32768) by (nonlinear_arith)
            requires -32768 <= input <= 32767, -32768 <= in_vol <= 32767;
        let in_mix = floor_div((input as i32) * (in_vol as i32), 32768);
        assert(-0x10000 <= in_mix <= 0x10000) by (nonlinear_arith)
            requires -32768 * 32768 <= input * in_vol <= 32768 * 32768, in_mix == (input * in_vol) / 32768;
        let reflect_vol = self.regs[REVERB_REFLECT_VOLUME2] as i16;
        let same_side = self.load_reverb_sample(self.regs[REVERB_REFLECT_SAME2 + side]) as i32;
        let same_mix = apply_enhanced_reverb_coeff(same_side, reflect_vol, enhanced);
        let diff_side = self.load_reverb_sample(self.regs[REVERB_REFLECT_DIFF2 + side]) as i32;
        let diff_mix = apply_enhanced_reverb_coeff(diff_side, reflect_vol, enhanced);
        let input_same = saturate_to_i16(same_mix + in_mix);
        let input_diff = saturate_to_i16(diff_mix + in_mix);
        let v1 = self.regs[REVERB_REFLECT_VOLUME1] as i16;
        assert(-32768 * 32768 <= input_same * v1 <= 32768 * 32768) by (nonlinear_arith)
            requires -32768 <= input_same <= 32767, -32768 <= v1 <= 32767;
        assert(-32768 * 32768 <= input_diff * v1 <= 32768 * 32768) by (nonlinear_arith)
            requires -32768 <= input_diff <= 32767, -32768 <= v1 <= 32767;
        let same_alpha = floor_div((input_same as i32) * (v1 as i32), 16384);
        let diff_alpha = floor_div((input_diff as i32) * (v1 as i32), 16384);
        assert(-0x10000 <= same_alpha <= 0x10000) by (nonlinear_arith)
            requires -32768 * 32768 <= input_same * v1 <= 32768 * 32768, same_alpha == (input_same * v1) / 16384;
        assert(-0x10000 <= diff_alpha <= 0x10000) by (nonlinear_arith)
            requires -32768 * 32768 <= input_diff * v1 <= 32768 * 32768, diff_alpha == (input_diff * v1) / 16384;
        let same_before = self.load_reverb_sample_before(self.regs[REVERB_REFLECT_SAME1 + side]);
        let diff_before = self.load_reverb_sample_before(self.regs[REVERB_REFLECT_DIFF1 + side]);
        let m1 = iir_mul(v1, same_before);
        let m2 = iir_mul(v1, diff_before);
        let iir_same = saturate_to_i16(floor_div(same_alpha + m1, 2));
        let iir_diff = saturate_to_i16(floor_div(diff_alpha + m2, 2));
        (iir_same, iir_diff)
    }

    /// The early echo: the four comb taps, summed and halved.
    fn early_echo(&mut self, side: usize) -> (r: i16)
        requires
            old(self).wf(),
            side < 2,
        ensures
            final(self).wf(),
            r == early_of(*old(self), side as int, old(self).ram@),
            irq_after_accesses(*old(self), *final(self), comb_reads(*old(self), side as int)),
            *final(self) == (Spu { irq: final(self).irq, ..*old(self) }),
    {
        let ghost s0 = *self;
        let c1 = self.comb_tap(REVERB_COMB1 + side, REVERB_COMB_VOLUME1);
        let c2 = self.comb_tap(REVERB_COMB2 + side, REVERB_COMB_VOLUME1 + 1);
        let c3 = self.comb_tap(REVERB_COMB3 + side, REVERB_COMB_VOLUME1 + 2);
        let c4 = self.comb_tap(REVERB_COMB4 + side, REVERB_COMB_VOLUME1 + 3);
        proof {
            assert(comb_reads(s0, side as int) =~= set![
                tap(s0, REVERB_COMB1 + side, 0), tap(s0, REVERB_COMB2 + side, 0),
                tap(s0, REVERB_COMB3 + side, 0), tap(s0, REVERB_COMB4 + side, 0)
            ]);
        }
        saturate_to_i16(floor_div(c1 + c2 + c3 + c4, 2))
    }

    /// The comb and all-pass stages' outputs; the RAM is only read.
    #[verifier::rlimit(40)]
    fn all_pass_values(&mut self, side: usize) -> (r: (i16, i16))
        requires
            old(self).wf(),
            side < 2,
        ensures
            final(self).wf(),
            r == all_pass(*old(self), side as int, old(self).ram@),
            irq_after_accesses(*old(self), *final(self), all_pass_reads(*old(self), side as int)),
            *final(self) == (Spu { irq: final(self).irq, ..*old(self) }),
    {
        let ghost s0 = *self;
        let early = self.early_echo(side) as i32;
        let ghost s1 = *self;
        let apf_in1 = self.load_reverb_sample(self.regs[REVERB_APF1 + side].wrapping_add(self.regs[REVERB_APF_OFFSET1])) as i32;
        let apf_in2 = self.load_reverb_sample(self.regs[REVERB_APF2 + side].wrapping_add(self.regs[REVERB_APF_OFFSET2])) as i32;
        let a1 = self.regs[REVERB_APF_VOLUME1] as i16 as i32;
        let a2 = self.regs[REVERB_APF_VOLUME2] as i16 as i32;
        assert(-32768 * 32768 <= apf_in1 * a1 <= 32768 * 32768) by (nonlinear_arith)
            requires -32768 <= apf_in1 <= 32767, -32768 <= a1 <= 32767;
        assert(-32768 * 32768 <= apf_in1 * (-a1) <= 32768 * 32768) by (nonlinear_arith)
            requires -32768 <= apf_in1 <= 32767, -32768 <= a1 <= 32767;
        assert(-32768 * 32768 <= apf_in2 * a2 <= 32768 * 32768) by (nonlinear_arith)
            requires -32768 <= apf_in2 <= 32767, -32768 <= a2 <= 32767;
        assert(-32768 * 32768 <= early * a1 <= 32768 * 32768) by (nonlinear_arith)
            requires -32768 <= early <= 32767, -32768 <= a1 <= 32767;
        let t1 = floor_div(apf_in1 * a1, 32768);
        let t2 = floor_div(early * a1, 32768);
        let t3 = floor_div(apf_in1 * (-a1), 32768);
        let t4 = floor_div(apf_in2 * a2, 32768);
        assert(-32768 <= t1 <= 32768 && -32768 <= t2 <= 32768 && -32768 <= t3 <= 32768 && -32768 <= t4 <= 32768) by (nonlinear_arith)
            requires
                -32768 * 32768 <= apf_in1 * a1 <= 32768 * 32768, t1 == (apf_in1 * a1) / 32768,
                -32768 * 32768 <= early * a1 <= 32768 * 32768, t2 == (early * a1) / 32768,
                -32768 * 32768 <= apf_in1 * (-a1) <= 32768 * 32768, t3 == (apf_in1 * (-a1)) / 32768,
                -32768 * 32768 <= apf_in2 * a2 <= 32768 * 32768, t4 == (apf_in2 * a2) / 32768;
        let out1 = saturate_to_i16(early - t1);
        let out2 = saturate_to_i16(t2 - t3 - t4);
        proof {
            assert(all_pass_reads(s0, side as int) =~= comb_reads(s0, side as int) + set![
                apf_tap(s0, REVERB_APF1 + side, REVERB_APF_OFFSET1 as int), apf_tap(s0, REVERB_APF2 + side, REVERB_APF_OFFSET2 as int)
            ]);
        }
        (out1, out2)
    }

    /// One comb tap: the sample register `tap_reg` points at, scaled by the volume in
    /// register `vol_reg` in 2.14 fixed point.
    fn comb_tap(&mut self, tap_reg: usize, vol_reg: usize) -> (r: i32)
        requires
            old(self).wf(),
            tap_reg < 0x140,
            vol_reg < 0x140,
        ensures
            final(self).wf(),
            r == tap_value(old(self).ram@, *old(self), tap_reg as int, 0) * reg_vol(*old(self), vol_reg as int) / 16384,
            -0x10000 <= r <= 0x10000,
            *final(self) == irq_checked(*old(self), reverb_index_of(*old(self), old(self).regs@[tap_reg as int], 0)),
    {
        let v = self.load_reverb_sample(self.regs[tap_reg]) as i32;
        let vol = self.regs[vol_reg] as i16 as i32;
        assert(-32768 * 32768 <= v * vol <= 32768 * 32768) by (nonlinear_arith)
            requires -32768 <= v <= 32767, -32768 <= vol <= 32767;
        let r = floor_div(v * vol, 16384);
        assert(-0x10000 <= r <= 0x10000) by (nonlinear_arith)
            requires -32768 * 32768 <= v * vol <= 32768 * 32768, r == (v * vol) / 16384;
        r
    }
}

} // verus!
