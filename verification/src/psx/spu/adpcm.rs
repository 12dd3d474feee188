//! The SPU's ADPCM sample format: block headers and the decoding of 4-bit samples by
//! extrapolation from the two previous ones.

use vstd::prelude::*;

verus! {

/// The first two bytes of a 16-byte ADPCM block.
#[derive(Debug, Clone, Copy, PartialEq, Eq, Structural)]
pub struct AdpcmHeader(pub u16);

/// The (positive, negative) weight pair selected by filter number `f`.
pub open spec fn weights_of(f: u16) -> (i32, i32) {
    if f == 1 {
        (60i32, 0i32)
    } else if f == 2 {
        (115i32, -52i32)
    } else if f == 3 {
        (98i32, -55i32)
    } else if f == 4 {
        (122i32, -60i32)
    } else {
        (0i32, 0i32)
    }
}

/// `v` clamped into the range of an `i16`.
pub open spec fn saturate16(v: int) -> i16 {
    if v < -32768 { -32768i16 } else if v > 32767 { 32767i16 } else { v as i16 }
}

/// Saturating cast from `i32` to `i16`.
pub fn saturate_to_i16(v: i32) -> (r: i16)
    ensures
        r == saturate16(v as int),
{
    if v < -32768 {
        -32768
    } else if v > 32767 {
        32767
    } else {
        v as i16
    }
}

impl AdpcmHeader {
    /// This block ends the loop sequence (bit 8).
    pub fn loop_end(self) -> (r: bool)
        ensures
            r == (self.0 & 0x100 != 0),
    {
        self.0 & 0x100 != 0
    }

    /// On a loop end, whether the envelope must be released and the level cleared (bit 9
    /// clear).
    pub fn loop_release_and_mute(self) -> (r: bool)
        requires
            self.0 & 0x100 != 0,
        ensures
            r == (self.0 & 0x200 == 0),
    {
        self.0 & 0x200 == 0
    }

    /// This block is the target of a later loop end (bit 10).
    pub fn loop_start(self) -> (r: bool)
        ensures
            r == (self.0 & 0x400 != 0),
    {
        self.0 & 0x400 != 0
    }

    /// The positive and negative extrapolation weights of the filter in bits 4 to 7.
    pub fn weights(self) -> (r: (i32, i32))
        ensures
            r == weights_of((self.0 >> 4u16) & 0xf),
    {
        let off = (self.0 >> 4) & 0xf;
        if off == 1 {
            (60, 0)
        } else if off == 2 {
            (115, -52)
        } else if off == 3 {
            (98, -55)
        } else if off == 4 {
            (122, -60)
        } else {
            (0, 0)
        }
    }

    /// The right shift applied to the extended samples (bits 0 to 3).
    pub fn shift(self) -> (r: u8)
        ensures
            r == (self.0 & 0xf) as u8,
    {
        (self.0 & 0xf) as u8
    }
}

/// Sample `i` (0 to 3) of the packed word `encoded`: its nibble placed in the top bits,
/// shifted right by `shift` with sign extension, plus the previous sample times the
/// positive weight and the one before times the negative weight, each over 64,
/// saturated to 16 bits.
pub open spec fn adpcm_sample(encoded: u16, i: u16, shift: u8, s1: i16, s2: i16, wp: i32, wn: i32) -> i16 {
    let raw = (((encoded << ((12 - 4 * i) as u16)) & 0xf000u16) as i16) >> shift;
    saturate16(raw as int + (((s1 as i32) * wp) as i32 >> 6i32) as int + (((s2 as i32) * wn) as i32 >> 6i32) as int)
}

/// The word and shift that decoding really uses: a shift above 12 keeps only each
/// sample's sign bit and shifts by 8.
pub open spec fn effective_input(encoded: u16, shift: u8) -> (u16, u8) {
    if shift > 12 { (encoded & 0x8888u16, 8u8) } else { (encoded, shift) }
}

proof fn lemma_shr6_bounds(x: i32)
    by (bit_vector)
    requires
        -0x40_0000 <= x <= 0x40_0000,
    ensures
        -0x1_0000 <= (x >> 6i32) <= 0x1_0000,
        64 * (x >> 6i32) <= x,
        x < 64 * (x >> 6i32) + 64,
{
}

/// A history term: the product of a sample and a weight, over 64 rounded down.
proof fn lemma_history_term(s: i16, w: i32)
    requires
        -128 <= w <= 128,
    ensures
        (((s as i32) * w) as i32 >> 6i32) as int == (s as int) * (w as int) / 64,
{
    let x = (s as int) * (w as int);
    assert(-(128 * 32768) <= x <= 128 * 32768) by (nonlinear_arith)
        requires -128 <= w <= 128, -32768 <= s <= 32767, x == (s as int) * (w as int);
    let xi = x as i32;
    lemma_shr6_bounds(xi);
    let q = (xi >> 6i32) as int;
    assert(q == x / 64) by (nonlinear_arith)
        requires 64 * q <= x, x < 64 * q + 64;
}

/// The history enters a decoded sample additively: with the previous sample `s1` and
/// the one before `s2`, the sample is the one decoded without history plus `s1` times
/// the positive weight and `s2` times the negative weight, each over 64 rounded down, as
/// long as that sum fits in 16 bits (beyond, it saturates). Without history the weights
/// play no part.
pub proof fn lemma_adpcm_history_terms(encoded: u16, i: u16, shift: u8, s1: i16, s2: i16, wp: i32, wn: i32)
    requires
        i < 4,
        shift <= 12,
        -128 <= wp <= 128,
        -128 <= wn <= 128,
    ensures
        adpcm_sample(encoded, i, shift, 0, 0, wp, wn) == adpcm_sample(encoded, i, shift, 0, 0, 0, 0),
        ({
            let v = adpcm_sample(encoded, i, shift, 0, 0, 0, 0) as int + (s1 as int) * (wp as int) / 64
                + (s2 as int) * (wn as int) / 64;
            &&& -32768 <= v <= 32767 ==> adpcm_sample(encoded, i, shift, s1, s2, wp, wn) as int == v
            &&& v > 32767 ==> adpcm_sample(encoded, i, shift, s1, s2, wp, wn) == 32767
            &&& v < -32768 ==> adpcm_sample(encoded, i, shift, s1, s2, wp, wn) == -32768
        }),
{
    lemma_history_term(s1, wp);
    lemma_history_term(s2, wn);
    lemma_history_term(0, wp);
    lemma_history_term(0, wn);
    lemma_history_term(0, 0);
}

/// The 4-bit sample `i` of a packed word as a signed value: nibble `i` counts from the
/// low end, and 8 to 15 stand for -8 to -1.
pub open spec fn signed_nibble(encoded: u16, i: u16) -> int {
    let n = ((encoded >> ((4 * i) as u16)) & 0xf) as int;
    if n >= 8 { n - 16 } else { n }
}

/// With no shift and no history, sample `i` of a packed word is its signed nibble scaled
/// to the top of the 16-bit range (times 4096).
pub proof fn lemma_adpcm_nibble(encoded: u16, i: u16)
    requires
        i < 4,
    ensures
        adpcm_sample(encoded, i, 0, 0, 0, 0, 0) as int == 4096 * signed_nibble(encoded, i),
{
    let raw: i16 = (((encoded << ((12 - 4 * i) as u16)) & 0xf000u16) as i16) >> 0u8;
    let n: u16 = (encoded >> ((4 * i) as u16)) & 0xf;
    assert((n < 8 ==> raw as i32 == 4096 * (n as i32)) && (n >= 8 ==> raw as i32 == 4096 * (n as i32) - 65536))
        by (bit_vector)
        requires
            i < 4,
            raw == (((encoded << ((12 - 4 * i) as u16)) & 0xf000u16) as i16) >> 0u8,
            n == (encoded >> ((4 * i) as u16)) & 0xf;
    lemma_history_term(0, 0);
}

/// Decode sample `i` of `encoded`.
pub fn decode_sample(encoded: u16, i: u16, shift: u8, s1: i16, s2: i16, wp: i32, wn: i32) -> (r: i16)
    requires
        i < 4,
        shift <= 12,
        -128 <= wp <= 128,
        -128 <= wn <= 128,
    ensures
        r == adpcm_sample(encoded, i, shift, s1, s2, wp, wn),
{
    let sample = ((encoded << (12 - i * 4)) & 0xf000) as i16;
    let sample = sample >> shift;
    let s1 = s1 as i32;
    let s2 = s2 as i32;
    assert(-(128 * 32768) <= s1 * wp <= 128 * 32768) by (nonlinear_arith)
        requires
            -128 <= wp <= 128,
            -32768 <= s1 <= 32767,
    ;
    assert(-(128 * 32768) <= s2 * wn <= 128 * 32768) by (nonlinear_arith)
        requires
            -128 <= wn <= 128,
            -32768 <= s2 <= 32767,
    ;
    let p1 = (s1 * wp) >> 6;
    let p2 = (s2 * wn) >> 6;
    proof {
        lemma_shr6_bounds((s1 * wp) as i32);
        lemma_shr6_bounds((s2 * wn) as i32);
    }
    saturate_to_i16(sample as i32 + p1 + p2)
}

} // verus!
