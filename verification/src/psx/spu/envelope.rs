//! Volume envelopes of the SPU voices: the Attack-Decay-Sustain-Release state machine
//! and the per-phase parameters that the 32-bit ADSR configuration register selects.

use vstd::prelude::*;

verus! {

/// How the steps of an envelope phase are computed from the current level.
#[derive(Debug, Clone, Copy, PartialEq, Eq, Structural)]
pub enum EnvelopeMode {
    /// Divider and level steps stay the same throughout.
    Linear,
    /// Linear until the level reaches 0x6000; from there on the divider step is the first
    /// value and the level step the second.
    SmoothUp(u16, i16),
    /// Level steps are scaled by the current level.
    Exponential,
}

/// The parameters of one envelope phase.
#[derive(Debug, Clone, Copy, PartialEq, Eq, Structural)]
pub struct EnvelopeParams {
    /// How much the divider advances per cycle; a level step is taken each time it
    /// reaches 0x8000.
    pub divider_step: u16,
    /// How much the level moves per step.
    pub level_step: i16,
    pub mode: EnvelopeMode,
}

/// The (divider step, level step) pair for a rate `shift` and a base `step`: fast rates
/// scale the level step up, slow rates scale the divider step down.
pub open spec fn steps_of(shift: u32, step: i8) -> (u16, i16) {
    if shift < 11 {
        (0x8000u16, (step as i16) << ((11 - shift) as u32))
    } else if shift - 11 <= 15 {
        (0x8000u16 >> ((shift - 11) as u32), step as i16)
    } else {
        (1u16, step as i16)
    }
}

/// The smooth mode that a base divider and level step give above level 0x6000.
pub open spec fn smooth_of(step: u32, base_divider: u16, base_level: i16) -> EnvelopeMode {
    let d = if step > 10 && base_divider > 3 {
        base_divider >> 2u16
    } else if step >= 10 && base_divider > 1 {
        base_divider >> 1u16
    } else {
        base_divider
    };
    let l = if step < 10 {
        base_level >> 2i16
    } else if step == 10 {
        base_level >> 1i16
    } else {
        base_level
    };
    EnvelopeMode::SmoothUp(if d == 0 { 1u16 } else { d }, l)
}

/// `x` clamped into the range of an `i16`.
pub open spec fn clamp_i16(x: int) -> i16 {
    if x < -32768 { -32768i16 } else if x > 32767 { 32767i16 } else { x as i16 }
}

/// `x` clamped into the level range 0 to 0x7FFF.
pub open spec fn clamp_level(x: int) -> i16 {
    if x < 0 { 0i16 } else if x > 0x7fff { 0x7fffi16 } else { x as i16 }
}

/// The divider step of `p` at level `level`.
pub open spec fn divider_step_at(p: EnvelopeParams, level: i16) -> u16 {
    match p.mode {
        EnvelopeMode::SmoothUp(d, _) => if level >= 0x6000 { d } else { p.divider_step },
        _ => p.divider_step,
    }
}

/// The level step of `p` at level `level`.
pub open spec fn level_step_at(p: EnvelopeParams, level: i16) -> i16 {
    match p.mode {
        EnvelopeMode::Linear => p.level_step,
        EnvelopeMode::Exponential => {
            let cl: i32 = if level < 0 { 0i32 } else { level as i32 };
            clamp_i16((((p.level_step as i32) * cl) as i32 >> 15i32) as int)
        },
        EnvelopeMode::SmoothUp(_, l) => if level >= 0x6000 { l } else { p.level_step },
    }
}

/// Parameters that a cycle can run with: the divider advances by 1 to 0x8000 per cycle.
pub open spec fn params_valid(p: EnvelopeParams) -> bool {
    &&& 0 < p.divider_step <= 0x8000
    &&& match p.mode {
        EnvelopeMode::SmoothUp(d, _) => 0 < d <= 0x8000,
        _ => true,
    }
}

proof fn lemma_shift_bounds(d: u16, k: u32)
    by (bit_vector)
    ensures
        k <= 15 ==> 1 <= (0x8000u16 >> k) && (0x8000u16 >> k) <= 0x8000,
        d >> 1u16 <= d,
        d >> 2u16 <= d,
{
}

proof fn lemma_steps_valid(shift: u32, step: i8)
    ensures
        0 < steps_of(shift, step).0 <= 0x8000,
{
    if shift >= 11 && shift - 11 <= 15 {
        lemma_shift_bounds(0, (shift - 11) as u32);
    }
}

proof fn lemma_smooth_valid(step: u32, d: u16, l: i16)
    requires
        0 < d <= 0x8000,
    ensures
        smooth_of(step, d, l) matches EnvelopeMode::SmoothUp(sd, _) && 0 < sd <= 0x8000,
{
    lemma_shift_bounds(d, 0);
}

impl EnvelopeParams {
    /// Parameters that never move the level.
    pub fn new() -> (r: Self)
        ensures
            r == (EnvelopeParams { divider_step: 0, level_step: 0, mode: EnvelopeMode::Linear }),
    {
        EnvelopeParams { divider_step: 0, level_step: 0, mode: EnvelopeMode::Linear }
    }

    /// The (divider step, level step) pair for a rate `shift` and a base `step`.
    pub fn steps(shift: u32, step: i8) -> (r: (u16, i16))
        ensures
            r == steps_of(shift, step),
    {
        let step = step as i16;
        if shift < 11 {
            (0x8000, step << (11 - shift))
        } else {
            let div_shift = shift - 11;
            if div_shift <= 15 {
                (0x8000u16 >> div_shift, step)
            } else {
                (1, step)
            }
        }
    }

    /// The smooth mode for a base `step` and the base divider and level steps: slower
    /// dividers and smaller level steps above 0x6000, never a zero divider.
    pub fn smooth_mode(step: u32, base_divider: u16, base_level: i16) -> (r: EnvelopeMode)
        ensures
            r == smooth_of(step, base_divider, base_level),
    {
        let mut smooth_divider = if step > 10 && base_divider > 3 {
            base_divider >> 2
        } else if step >= 10 && base_divider > 1 {
            base_divider >> 1
        } else {
            base_divider
        };
        if smooth_divider == 0 {
            smooth_divider = 1;
        }
        let smooth_level = if step < 10 {
            base_level >> 2
        } else if step == 10 {
            base_level >> 1
        } else {
            base_level
        };
        EnvelopeMode::SmoothUp(smooth_divider, smooth_level)
    }

    /// The divider step at level `cur_level`.
    pub fn compute_divider_step(&self, cur_level: i16) -> (r: u16)
        ensures
            r == divider_step_at(*self, cur_level),
    {
        if let EnvelopeMode::SmoothUp(smooth_divider_step, _) = self.mode {
            if cur_level >= 0x6000 {
                return smooth_divider_step;
            }
        }
        self.divider_step
    }

    /// The level step at level `cur_level`.
    pub fn compute_level_step(&self, cur_level: i16) -> (r: i16)
        ensures
            r == level_step_at(*self, cur_level),
    {
        match self.mode {
            EnvelopeMode::Linear => self.level_step,
            EnvelopeMode::Exponential => {
                let ls = self.level_step as i32;
                let cl: i32 = if cur_level < 0 { 0 } else { cur_level as i32 };
                assert(-32768 * 32767 <= ls * cl <= 32767 * 32767) by (nonlinear_arith)
                    requires
                        -32768 <= ls <= 32767,
                        0 <= cl <= 32767,
                ;
                let result = (ls * cl) >> 15;
                if result < -32768 {
                    -32768
                } else if result > 32767 {
                    32767
                } else {
                    result as i16
                }
            },
            EnvelopeMode::SmoothUp(_, smooth_level_step) => {
                if cur_level >= 0x6000 {
                    smooth_level_step
                } else {
                    self.level_step
                }
            },
        }
    }
}

/// The ADSR configuration register.
#[derive(Debug, Clone, Copy, PartialEq, Eq, Structural)]
pub struct AdsrConfig(pub u32);

/// The sustain level selected by configuration `c`: one of sixteen levels from 0x07FF
/// to 0x7FFF.
pub open spec fn sustain_level_of(c: u32) -> i16 {
    (((c & 0xf) + 1) * 2048 - 1) as i16
}

/// Attack: rate in bits 10 to 14, step 7 minus bits 8 and 9, smooth when bit 15 is set.
pub open spec fn attack_of(c: u32) -> EnvelopeParams {
    let shift = (c >> 10u32) & 0x1f;
    let step = (7 - ((c >> 8u32) & 3)) as u32;
    let s = steps_of(shift, step as i8);
    EnvelopeParams {
        divider_step: s.0,
        level_step: s.1,
        mode: if (c >> 15u32) & 1 != 0 { smooth_of(step, s.0, s.1) } else { EnvelopeMode::Linear },
    }
}

/// Decay: rate in bits 4 to 7, step -8, exponential.
pub open spec fn decay_of(c: u32) -> EnvelopeParams {
    let s = steps_of((c >> 4u32) & 0xf, -8i8);
    EnvelopeParams { divider_step: s.0, level_step: s.1, mode: EnvelopeMode::Exponential }
}

/// Sustain: rate in bits 24 to 28, step 7 minus bits 22 and 23, decreasing when bit 30
/// is set, exponential (decreasing) or smooth (increasing) when bit 31 is set.
pub open spec fn sustain_of(c: u32) -> EnvelopeParams {
    let shift = (c >> 24u32) & 0x1f;
    let raw_step = (7 - ((c >> 22u32) & 3)) as u32;
    let exp = (c >> 31u32) & 1 != 0;
    let inv = (c >> 30u32) & 1 != 0;
    let step: i8 = if inv { (-(raw_step as i8)) as i8 } else { raw_step as i8 };
    let s = steps_of(shift, step);
    EnvelopeParams {
        divider_step: s.0,
        level_step: s.1,
        mode: if exp {
            if inv { EnvelopeMode::Exponential } else { smooth_of(raw_step, s.0, s.1) }
        } else {
            EnvelopeMode::Linear
        },
    }
}

/// Release: rate in bits 16 to 20, step -8, exponential when bit 21 is set.
pub open spec fn release_of(c: u32) -> EnvelopeParams {
    let s = steps_of((c >> 16u32) & 0x1f, -8i8);
    EnvelopeParams {
        divider_step: s.0,
        level_step: s.1,
        mode: if (c >> 21u32) & 1 != 0 { EnvelopeMode::Exponential } else { EnvelopeMode::Linear },
    }
}

impl AdsrConfig {
    /// A cleared register.
    pub fn new() -> (r: Self)
        ensures
            r.0 == 0,
    {
        AdsrConfig(0)
    }

    /// The sustain level.
    pub fn sustain_level(self) -> (r: i16)
        ensures
            r == sustain_level_of(self.0),
            0x7ff <= r <= 0x7fff,
    {
        let sl = self.0 & 0xf;
        proof { crate::bits::lemma_and_le(self.0, 0xf); }
        (((sl + 1) * 2048) - 1) as i16
    }

    /// The attack parameters.
    pub fn attack_params(self) -> (r: EnvelopeParams)
        ensures
            r == attack_of(self.0),
            params_valid(r),
    {
        let shift = (self.0 >> 10) & 0x1f;
        proof { crate::bits::lemma_and_le(self.0 >> 8u32, 3); }
        let step = 7 - ((self.0 >> 8) & 3);
        let exp = (self.0 >> 15) & 1 != 0;
        let (div_step, lvl_step) = EnvelopeParams::steps(shift, step as i8);
        proof { lemma_steps_valid(shift, step as i8); }
        let mode = if exp {
            proof { lemma_smooth_valid(step, div_step, lvl_step); }
            EnvelopeParams::smooth_mode(step, div_step, lvl_step)
        } else {
            EnvelopeMode::Linear
        };
        EnvelopeParams { divider_step: div_step, level_step: lvl_step, mode }
    }

    /// The decay parameters.
    pub fn decay_params(self) -> (r: EnvelopeParams)
        ensures
            r == decay_of(self.0),
            params_valid(r),
    {
        let shift = (self.0 >> 4) & 0xf;
        let (div_step, ls) = EnvelopeParams::steps(shift, -8);
        proof { lemma_steps_valid(shift, -8i8); }
        EnvelopeParams { divider_step: div_step, level_step: ls, mode: EnvelopeMode::Exponential }
    }

    /// The sustain parameters.
    pub fn sustain_params(self) -> (r: EnvelopeParams)
        ensures
            r == sustain_of(self.0),
            params_valid(r),
    {
        let shift = (self.0 >> 24) & 0x1f;
        proof { crate::bits::lemma_and_le(self.0 >> 22u32, 3); }
        let raw_step = 7 - ((self.0 >> 22) & 3);
        let exp = (self.0 >> 31) & 1 != 0;
        let inv_step = (self.0 >> 30) & 1 != 0;
        let step: i8 = if inv_step { -(raw_step as i8) } else { raw_step as i8 };
        let (div_step, lvl_step) = EnvelopeParams::steps(shift, step);
        proof { lemma_steps_valid(shift, step); }
        let mode = if exp {
            if inv_step {
                EnvelopeMode::Exponential
            } else {
                proof { lemma_smooth_valid(raw_step, div_step, lvl_step); }
                EnvelopeParams::smooth_mode(raw_step, div_step, lvl_step)
            }
        } else {
            EnvelopeMode::Linear
        };
        EnvelopeParams { divider_step: div_step, level_step: lvl_step, mode }
    }

    /// The release parameters.
    pub fn release_params(self) -> (r: EnvelopeParams)
        ensures
            r == release_of(self.0),
            params_valid(r),
    {
        let shift = (self.0 >> 16) & 0x1f;
        let exp = (self.0 >> 21) & 1 != 0;
        let (div_step, lvl_step) = EnvelopeParams::steps(shift, -8);
        proof { lemma_steps_valid(shift, -8i8); }
        let mode = if exp { EnvelopeMode::Exponential } else { EnvelopeMode::Linear };
        EnvelopeParams { divider_step: div_step, level_step: lvl_step, mode }
    }

    /// Replace the low half of the register.
    pub fn set_lo(&mut self, v: u16)
        ensures
            final(self).0 == (old(self).0 & 0xffff_0000) | (v as u32),
    {
        to_lo(&mut self.0, v);
    }

    /// Replace the high half of the register.
    pub fn set_hi(&mut self, v: u16)
        ensures
            final(self).0 == (old(self).0 & 0xffff) | ((v as u32) << 16u32),
    {
        to_hi(&mut self.0, v);
    }
}

/// Replace the high half of `r` with `v`.
pub fn to_hi(r: &mut u32, v: u16)
    ensures
        *final(r) == (*old(r) & 0xffff) | ((v as u32) << 16u32),
{
    let v = v as u32;
    *r = (*r & 0xffff) | (v << 16);
}

/// Replace the low half of `r` with `v`.
pub fn to_lo(r: &mut u32, v: u16)
    ensures
        *final(r) == (*old(r) & 0xffff_0000) | (v as u32),
{
    let v = v as u32;
    *r = (*r & 0xffff_0000) | v;
}

/// Writing one half of a register leaves the other half and reads back what was written.
pub proof fn lemma_halves(x: u32, v: u16)
    by (bit_vector)
    ensures
        ((x & 0xffff_0000) | (v as u32)) & 0xffff == v as u32,
        ((x & 0xffff_0000) | (v as u32)) >> 16u32 == x >> 16u32,
        ((x & 0xffff) | ((v as u32) << 16u32)) >> 16u32 == v as u32,
        ((x & 0xffff) | ((v as u32) << 16u32)) & 0xffff == x & 0xffff,
{
}

/// The phase of an envelope.
#[derive(Debug, Clone, Copy, PartialEq, Eq, Structural)]
pub enum AdsrState {
    Attack,
    Decay,
    Sustain,
    Release,
}

/// The slot of a phase's parameters.
pub open spec fn state_index(s: AdsrState) -> int {
    match s {
        AdsrState::Attack => 0,
        AdsrState::Decay => 1,
        AdsrState::Sustain => 2,
        AdsrState::Release => 3,
    }
}

fn state_slot(s: AdsrState) -> (r: usize)
    ensures
        r == state_index(s),
{
    match s {
        AdsrState::Attack => 0,
        AdsrState::Decay => 1,
        AdsrState::Sustain => 2,
        AdsrState::Release => 3,
    }
}

/// The envelope of a voice.
#[derive(Debug, Clone, Copy)]
pub struct Adsr {
    pub state: AdsrState,
    /// Current level, 0x0000 to 0x7FFF.
    pub level: i16,
    /// Counts up to the next level step.
    pub divider: u16,
    /// The parameters of the four phases, in phase order.
    pub params: [EnvelopeParams; 4],
    /// The level at which decay turns into sustain.
    pub sustain_level: i16,
    pub config: AdsrConfig,
    pub cycle_counter: u32,
    pub envelope_cycles: u32,
}

/// The parameters of the four phases that configuration `c` selects.
pub open spec fn params_of(c: u32) -> Seq<EnvelopeParams> {
    seq![attack_of(c), decay_of(c), sustain_of(c), release_of(c)]
}

/// The envelope after one cycle: the divider advances by the phase's divider step
/// (saturating); each time it passes 0x8000 the level takes a step. Attack ends at 0x7FFF
/// and turns into decay, decay turns into sustain at the sustain level, and every phase
/// keeps the level within 0 to 0x7FFF.
pub open spec fn cycle_of(a: Adsr) -> Adsr {
    let p = a.params@[state_index(a.state)];
    let sum_div = a.divider + divider_step_at(p, a.level);
    let d: u16 = if sum_div > 0xffff { 0xffffu16 } else { sum_div as u16 };
    let a1 = Adsr {
        divider: d,
        cycle_counter: (a.cycle_counter + 1) as u32,
        envelope_cycles: (a.envelope_cycles + 1) as u32,
        ..a
    };
    if d < 0x8000 {
        a1
    } else {
        let d2 = (d - 0x8000) as u16;
        let sum = a.level + level_step_at(p, a.level);
        match a.state {
            AdsrState::Attack => if -32768 <= sum < 0x7fff {
                Adsr { level: sum as i16, divider: d2, ..a1 }
            } else {
                Adsr { state: AdsrState::Decay, divider: 0, level: 0x7fff, ..a1 }
            },
            AdsrState::Decay => {
                let l = clamp_level(sum);
                if l <= a.sustain_level {
                    Adsr { state: AdsrState::Sustain, divider: 0, level: l, ..a1 }
                } else {
                    Adsr { divider: d2, level: l, ..a1 }
                }
            },
            _ => Adsr { divider: d2, level: clamp_level(sum), ..a1 },
        }
    }
}

impl Adsr {
    /// Each phase's parameters can run a cycle.
    pub open spec fn wf(&self) -> bool {
        forall|i: int| 0 <= i < 4 ==> params_valid(#[trigger] self.params@[i])
    }

    /// The parameters and the sustain level are those that the configuration selects.
    pub open spec fn synced(&self) -> bool {
        &&& self.params@ == params_of(self.config.0)
        &&& self.sustain_level == sustain_level_of(self.config.0)
    }

    /// A cleared envelope at the start of its attack, at level 0, its parameters those of
    /// a cleared configuration.
    pub fn new() -> (r: Self)
        ensures
            r.wf(),
            r.synced(),
            r.state == AdsrState::Attack,
            r.level == 0 && r.divider == 0,
            r.config.0 == 0,
            r.cycle_counter == 0 && r.envelope_cycles == 0,
    {
        let mut adsr = Adsr {
            state: AdsrState::Attack,
            level: 0,
            divider: 0,
            params: [EnvelopeParams::new(), EnvelopeParams::new(), EnvelopeParams::new(), EnvelopeParams::new()],
            sustain_level: 0,
            config: AdsrConfig::new(),
            cycle_counter: 0,
            envelope_cycles: 0,
        };
        adsr.refresh_params();
        adsr
    }

    /// Set the level, clamped to 0..=0x7FFF.
    pub fn set_level(&mut self, level: i16)
        ensures
            *final(self) == (Adsr { level: clamp_level(level as int), ..*old(self) }),
    {
        self.level = if level < 0 { 0 } else { level };
    }

    /// Run one envelope cycle.
    pub fn run_cycle(&mut self)
        requires
            old(self).wf(),
            old(self).cycle_counter < u32::MAX,
            old(self).envelope_cycles < u32::MAX,
        ensures
            *final(self) == cycle_of(*old(self)),
            final(self).wf(),
    {
        self.cycle_counter = self.cycle_counter + 1;
        self.envelope_cycles = self.envelope_cycles + 1;
        let params = self.params[state_slot(self.state)];
        let div_step = params.compute_divider_step(self.level);
        self.divider = if (self.divider as u32) + (div_step as u32) > 0xffff {
            0xffff
        } else {
            self.divider + div_step
        };
        if self.divider < 0x8000 {
            return;
        }
        self.divider = self.divider - 0x8000;
        let level_step = params.compute_level_step(self.level);
        let sum: i32 = self.level as i32 + level_step as i32;
        match self.state {
            AdsrState::Attack => {
                if sum >= -32768 && sum < 0x7fff {
                    self.level = sum as i16;
                } else {
                    self.state = AdsrState::Decay;
                    self.divider = 0;
                    self.level = 0x7fff;
                }
            },
            AdsrState::Decay => {
                self.level = if sum < 0 { 0 } else if sum > 0x7fff { 0x7fff } else { sum as i16 };
                if self.level <= self.sustain_level {
                    self.state = AdsrState::Sustain;
                    self.divider = 0;
                }
            },
            _ => {
                self.level = if sum < 0 { 0 } else if sum > 0x7fff { 0x7fff } else { sum as i16 };
            },
        }
    }

    /// Recompute the parameters and the sustain level from the configuration.
    pub fn refresh_params(&mut self)
        ensures
            final(self).wf(),
            final(self).synced(),
            *final(self) == (Adsr { params: final(self).params, sustain_level: final(self).sustain_level, ..*old(self) }),
    {
        self.sustain_level = self.config.sustain_level();
        self.params.set(0, self.config.attack_params());
        self.params.set(1, self.config.decay_params());
        self.params.set(2, self.config.sustain_params());
        self.params.set(3, self.config.release_params());
        assert(self.params@ =~= params_of(self.config.0));
    }

    /// Write the low half of the configuration.
    pub fn set_conf_lo(&mut self, v: u16)
        ensures
            final(self).wf(),
            final(self).synced(),
            final(self).config.0 == (old(self).config.0 & 0xffff_0000) | (v as u32),
            *final(self) == (Adsr {
                config: final(self).config,
                params: final(self).params,
                sustain_level: final(self).sustain_level,
                ..*old(self)
            }),
            final(self).state == old(self).state && final(self).level == old(self).level,
            final(self).divider == old(self).divider,
    {
        self.config.set_lo(v);
        self.refresh_params();
    }

    /// Write the high half of the configuration.
    pub fn set_conf_hi(&mut self, v: u16)
        ensures
            final(self).wf(),
            final(self).synced(),
            final(self).config.0 == (old(self).config.0 & 0xffff) | ((v as u32) << 16u32),
            *final(self) == (Adsr {
                config: final(self).config,
                params: final(self).params,
                sustain_level: final(self).sustain_level,
                ..*old(self)
            }),
            final(self).state == old(self).state && final(self).level == old(self).level,
            final(self).divider == old(self).divider,
    {
        self.config.set_hi(v);
        self.refresh_params();
    }

    /// Enter release, keeping the level.
    pub fn release(&mut self)
        ensures
            *final(self) == (Adsr { divider: 0, state: AdsrState::Release, ..*old(self) }),
    {
        self.divider = 0;
        self.state = AdsrState::Release;
    }

    /// Start a new attack from level 0.
    pub fn attack(&mut self)
        ensures
            *final(self) == (Adsr {
                divider: 0,
                state: AdsrState::Attack,
                level: 0,
                cycle_counter: 0,
                envelope_cycles: 0,
                ..*old(self)
            }),
    {
        self.divider = 0;
        self.state = AdsrState::Attack;
        self.level = 0;
        self.cycle_counter = 0;
        self.envelope_cycles = 0;
    }

    /// The current phase.
    pub fn get_state(&self) -> (r: AdsrState)
        ensures
            r == self.state,
    {
        self.state
    }

    /// Whether the release has reached level 0.
    pub fn is_completed(&self) -> (r: bool)
        ensures
            r == (self.state == AdsrState::Release && self.level == 0),
    {
        self.state == AdsrState::Release && self.level == 0
    }
}

proof fn lemma_negative_steps(k: u32, x: i32)
    by (bit_vector)
    ensures
        k <= 11 ==> ((-8i16) << k) < 0,
        x <= 0 ==> (x >> 15i32) <= 0,
{
}

/// The release parameters never step the level up.
proof fn lemma_release_step_not_positive(c: u32, level: i16)
    ensures
        level_step_at(release_of(c), level) <= 0,
{
    let shift = (c >> 16u32) & 0x1f;
    if shift < 11 {
        lemma_negative_steps((11 - shift) as u32, 0);
    }
    let p = release_of(c);
    assert(p.level_step < 0);
    if p.mode == EnvelopeMode::Exponential {
        let cl: i32 = if level < 0 { 0i32 } else { level as i32 };
        let ls = p.level_step as i32;
        assert(ls * cl <= 0) by (nonlinear_arith)
            requires
                ls < 0,
                cl >= 0,
        ;
        assert(-32768 * 32767 <= ls * cl) by (nonlinear_arith)
            requires
                -32768 <= ls < 0,
                0 <= cl <= 32767,
        ;
        lemma_negative_steps(0, (ls * cl) as i32);
    }
}

/// During release the level of an envelope whose parameters follow its configuration
/// never rises and the envelope stays in release; once at 0 it stays at 0.
pub proof fn lemma_release_never_rises(a: Adsr)
    requires
        a.synced(),
        a.state == AdsrState::Release,
        0 <= a.level,
    ensures
        cycle_of(a).state == AdsrState::Release,
        0 <= cycle_of(a).level <= a.level,
        a.level == 0 ==> cycle_of(a).level == 0,
{
    assert(a.params@[3] == release_of(a.config.0));
    lemma_release_step_not_positive(a.config.0, a.level);
}

/// An attack that steps past 0x7FFE ends at full level in decay with a cleared divider.
pub proof fn lemma_attack_peaks_into_decay(a: Adsr)
    requires
        a.state == AdsrState::Attack,
        ({
            let p = a.params@[0];
            let sum_div = a.divider + divider_step_at(p, a.level);
            &&& sum_div >= 0x8000
            &&& a.level + level_step_at(p, a.level) >= 0x7fff
        }),
    ensures
        cycle_of(a).state == AdsrState::Decay,
        cycle_of(a).level == 0x7fff,
        cycle_of(a).divider == 0,
{
}

} // verus!
