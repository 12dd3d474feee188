//! Minimal CD-ROM types: MSF positions, BCD bytes, sectors, a blank stub disc and a
//! table of contents.

use vstd::prelude::*;

verus! {

/// A disc position in minutes, seconds and frames (75 frames per second).
#[derive(Debug, Clone, Copy, PartialEq, Eq, Structural)]
pub struct Msf {
    pub m: u8,
    pub s: u8,
    pub f: u8,
}

/// The sector index of an MSF position: the two-second lead-in is subtracted, and
/// positions inside it map to sector 0.
pub open spec fn sector_index(m: u8, s: u8, f: u8) -> u32 {
    if m * 60 + s >= 2 { ((m * 60 + s - 2) * 75 + f) as u32 } else { 0 }
}

impl Msf {
    pub fn new(m: u8, s: u8, f: u8) -> (r: Self)
        ensures
            r == (Msf { m: m, s: s, f: f }),
    {
        Msf { m, s, f }
    }

    /// A position from a BCD byte, taken as the minutes field.
    pub fn from_bcd(bcd: Bcd) -> (r: Self)
        ensures
            r == (Msf { m: bcd.0, s: 0, f: 0 }),
    {
        Msf { m: bcd.0, s: 0, f: 0 }
    }

    /// The sector index of this position.
    pub fn to_sector_index(&self) -> (r: u32)
        ensures
            r == sector_index(self.m, self.s, self.f),
    {
        let m = self.m as u32;
        let s = self.s as u32;
        let f = self.f as u32;
        if m * 60 + s >= 2 {
            (m * 60 + s - 2) * 75 + f
        } else {
            0
        }
    }
}

/// A binary-coded decimal byte: tens in the high nibble, ones in the low.
#[derive(Debug, Clone, Copy, PartialEq, Eq, Structural)]
pub struct Bcd(pub u8);

/// The BCD byte of `val` (the tens digit wraps past 15).
pub open spec fn bcd_of(val: u8) -> u8 {
    (((val / 10) as u8) << 4u8) | ((val % 10) as u8)
}

/// The number a BCD byte stands for.
pub open spec fn bcd_value(b: u8) -> u8 {
    (((b >> 4u8) & 0xf) * 10 + (b & 0xf)) as u8
}

impl Bcd {
    pub fn new(val: u8) -> (r: Self)
        ensures
            r == Bcd(val),
    {
        Bcd(val)
    }

    /// Encode a number as BCD.
    pub fn from_binary(val: u8) -> (r: Self)
        ensures
            r.0 == bcd_of(val),
    {
        let tens = val / 10;
        let ones = val % 10;
        Bcd((tens << 4) | ones)
    }

    /// Decode to a number.
    pub fn to_binary(&self) -> (r: u8)
        ensures
            r == bcd_value(self.0),
    {
        let b = self.0;
        let tens = (b >> 4) & 0xf;
        let ones = b & 0xf;
        proof {
            crate::bits::lemma_and_le_u8(b >> 4u8, 0xf);
            crate::bits::lemma_and_le_u8(b, 0xf);
        }
        tens * 10 + ones
    }
}

/// Encoding a number below 100 as BCD and decoding it gives the number back.
pub proof fn lemma_bcd_roundtrip(val: u8)
    requires
        val < 100,
    ensures
        bcd_value(bcd_of(val)) == val,
{
    let t = (val / 10) as u8;
    let o = (val % 10) as u8;
    assert(t < 10 && o < 10 ==> ((t << 4u8) | o) >> 4u8 & 0xf == t && ((t << 4u8) | o) & 0xf == o) by (bit_vector);
}

/// A position on the disc: track, index, and relative and absolute times.
#[derive(Debug, Clone, Copy, PartialEq, Eq, Structural)]
pub struct DiscPosition {
    pub track: u8,
    pub index: u8,
    pub relative_msf: Msf,
    pub absolute_msf: Msf,
}

impl Default for DiscPosition {
    /// Track 1, index 1, at the start of the program area.
    fn default() -> (r: Self)
        ensures
            r == (DiscPosition {
                track: 1,
                index: 1,
                relative_msf: Msf { m: 0, s: 0, f: 0 },
                absolute_msf: Msf { m: 0, s: 2, f: 0 },
            }),
    {
        DiscPosition { track: 1, index: 1, relative_msf: Msf::new(0, 0, 0), absolute_msf: Msf::new(0, 2, 0) }
    }
}

/// One raw 2352-byte sector.
#[derive(Debug)]
pub struct Sector {
    pub data: Vec<u8>,
    pub mode: u8,
}

impl Sector {
    /// A blank mode 2 sector.
    pub fn new() -> (r: Self)
        ensures
            r.data@.len() == 2352,
            forall|i: int| 0 <= i < 2352 ==> #[trigger] r.data@[i] == 0,
            r.mode == 2,
    {
        Sector { data: vec![0; 2352], mode: 2 }
    }

    /// A copy of this sector.
    pub fn duplicate(&self) -> (r: Self)
        ensures
            r.data@ == self.data@,
            r.mode == self.mode,
    {
        Sector { data: self.data.clone(), mode: self.mode }
    }

    /// The first 2048 bytes (the whole sector if shorter).
    pub fn data_2048(&self) -> (r: &[u8])
        ensures
            r@ == (if self.data@.len() >= 2048 { self.data@.subrange(0, 2048) } else { self.data@ }),
    {
        if self.data.len() >= 2048 {
            vstd::slice::slice_subrange(self.data.as_slice(), 0, 2048)
        } else {
            self.data.as_slice()
        }
    }
}

/// A disc read error.
#[derive(Debug, Clone, PartialEq, Eq)]
pub struct CdError(pub String);

impl CdError {
    /// The error as shown to a user: "CD Error: " and the message.
    pub fn message(&self) -> (r: String)
        ensures
            r@ == "CD Error: "@ + self.0@,
    {
        let mut s = String::from_str("CD Error: ");
        s.append(self.0.as_str());
        s
    }
}

/// A disc image that sectors can be read from.
pub trait Image {
    fn read_sector(&mut self, pos: &DiscPosition) -> Result<Sector, CdError>;
    fn track_count(&self) -> u8;
}

/// A blank disc of 4000 sectors.
pub struct StubDisc {
    pub sectors: Vec<Sector>,
}

impl StubDisc {
    pub fn new() -> (r: Self)
        ensures
            r.sectors@.len() == 4000,
            forall|i: int| 0 <= i < 4000 ==> (#[trigger] r.sectors@[i]).data@.len() == 2352 && r.sectors@[i].mode == 2,
    {
        let mut sectors: Vec<Sector> = Vec::new();
        while sectors.len() < 4000
            invariant
                sectors@.len() <= 4000,
                forall|i: int| 0 <= i < sectors@.len() ==> (#[trigger] sectors@[i]).data@.len() == 2352 && sectors@[i].mode == 2,
            decreases 4000 - sectors@.len(),
        {
            sectors.push(Sector::new());
        }
        StubDisc { sectors }
    }
}

impl Image for StubDisc {
    /// The sector at the absolute position, or an error past the end of the disc.
    fn read_sector(&mut self, pos: &DiscPosition) -> (r: Result<Sector, CdError>)
        ensures
            ({
                let idx = sector_index(pos.absolute_msf.m, pos.absolute_msf.s, pos.absolute_msf.f) as int;
                &&& idx < old(self).sectors@.len() ==> (r matches Ok(sec)
                    && sec.data@ == old(self).sectors@[idx].data@ && sec.mode == old(self).sectors@[idx].mode)
                &&& idx >= old(self).sectors@.len() ==> r is Err
            }),
    {
        let idx = pos.absolute_msf.to_sector_index() as usize;
        if idx < self.sectors.len() {
            Ok(self.sectors[idx].duplicate())
        } else {
            Err(CdError(String::from_str("Sector out of range")))
        }
    }

    /// A stub disc has one track.
    fn track_count(&self) -> (r: u8)
        ensures
            r == 1,
    {
        1
    }
}

/// Track kind.
#[derive(Debug, Clone, Copy, PartialEq, Eq, Structural)]
pub enum TrackType {
    Data,
    Audio,
}

/// One track of the table of contents.
#[derive(Debug, Clone, Copy, PartialEq, Eq, Structural)]
pub struct Track {
    pub number: u8,
    pub start: Msf,
    pub track_type: TrackType,
}

/// A table of contents.
#[derive(Debug)]
pub struct Toc {
    pub tracks: Vec<Track>,
}

impl Default for Toc {
    /// One data track starting at 00:02:00.
    fn default() -> (r: Self)
        ensures
            r.tracks@ == seq![Track { number: 1, start: Msf { m: 0, s: 2, f: 0 }, track_type: TrackType::Data }],
    {
        let mut tracks = Vec::new();
        tracks.push(Track { number: 1, start: Msf::new(0, 2, 0), track_type: TrackType::Data });
        Toc { tracks }
    }
}

/// XA audio sampling frequency code.
#[derive(Debug, Clone, Copy, PartialEq, Eq, Structural)]
pub struct XaSamplingFreq(pub u8);

/// XA audio sample width code.
#[derive(Debug, Clone, Copy, PartialEq, Eq, Structural)]
pub struct XaBitsPerSample(pub u8);

/// XA audio coding information.
#[derive(Debug, Clone, Copy, PartialEq, Eq, Structural)]
pub struct XaCodingAudio {
    pub stereo: bool,
    pub freq: XaSamplingFreq,
    pub bits: XaBitsPerSample,
}

} // verus!
