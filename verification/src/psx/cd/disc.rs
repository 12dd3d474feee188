//! PlayStation discs: the serial number found through SYSTEM.CNF, and the region it
//! implies.

use vstd::prelude::*;
use crate::error::{PsxError, Result};
use crate::cd_stub::{DiscPosition, Image, Sector, CdError};
use vstd::string::StringSliceAdditionalSpecFns;
use vstd::string::StringExecFns;
use vstd::utf8::decode_utf8;

verus! {

/// Video standard of a console.
#[derive(Debug, Clone, Copy, PartialEq, Eq, Structural)]
pub enum VideoStandard {
    Ntsc,
    Pal,
}

/// Disc region.
#[derive(Debug, Clone, Copy, PartialEq, Eq, Structural)]
pub enum Region {
    /// Japan (NTSC): SCEI.
    Japan,
    /// North America (NTSC): SCEA.
    NorthAmerica,
    /// Europe (PAL): SCEE.
    Europe,
}

impl Region {
    /// The video standard of consoles sold in the region.
    pub fn video_standard(self) -> (r: VideoStandard)
        ensures
            r == (if self == Region::Europe { VideoStandard::Pal } else { VideoStandard::Ntsc }),
    {
        match self {
            Region::Japan => VideoStandard::Ntsc,
            Region::NorthAmerica => VideoStandard::Ntsc,
            Region::Europe => VideoStandard::Pal,
        }
    }

    /// The region's name.
    pub fn name(&self) -> (r: &'static str)
        ensures
            *self == Region::Japan ==> r@ == "Japan"@,
            *self == Region::NorthAmerica ==> r@ == "NorthAmerica"@,
            *self == Region::Europe ==> r@ == "Europe"@,
    {
        match self {
            Region::Japan => "Japan",
            Region::NorthAmerica => "NorthAmerica",
            Region::Europe => "Europe",
        }
    }
}

/// A disc serial number such as "SLUS-01251".
#[derive(Debug, Clone, Copy, PartialEq, Eq)]
pub struct SerialNumber(pub [u8; 10]);

/// An ASCII lowercase letter made uppercase; other bytes unchanged.
pub open spec fn upper(b: u8) -> u8 {
    if 0x61 <= b <= 0x7a { (b - 0x20) as u8 } else { b }
}

/// Whether `bin` is a boot file name of the form "aaaa_ddd.dd" (or "aaaa-ddd.dd").
pub open spec fn is_bin_name(bin: Seq<u8>) -> bool {
    bin.len() == 11 && (bin[4] == 0x5f || bin[4] == 0x2d)
}

/// The serial number of such a name: the prefix in upper case, a dash, and the five
/// digits without the dot.
pub open spec fn serial_of(bin: Seq<u8>) -> Seq<u8> {
    seq![upper(bin[0]), upper(bin[1]), upper(bin[2]), upper(bin[3]), 0x2d, bin[5], bin[6], bin[7], bin[9], bin[10]]
}

fn to_upper(b: u8) -> (r: u8)
    ensures
        r == upper(b),
{
    if b >= 0x61 && b <= 0x7a { b - 0x20 } else { b }
}

/// The four bytes of `s`.
pub open spec fn four(a: u8, b: u8, c: u8, d: u8) -> Seq<u8> {
    seq![a, b, c, d]
}

fn prefix_is(p: &[u8; 10], a: u8, b: u8, c: u8, d: u8) -> (r: bool)
    ensures
        r == (p@.subrange(0, 4) == four(a, b, c, d)),
{
    let r = p[0] == a && p[1] == b && p[2] == c && p[3] == d;
    proof {
        if r {
            assert(p@.subrange(0, 4) =~= four(a, b, c, d));
        } else {
            assert(p@.subrange(0, 4)[0] == p@[0]);
            assert(p@.subrange(0, 4)[1] == p@[1]);
            assert(p@.subrange(0, 4)[2] == p@[2]);
            assert(p@.subrange(0, 4)[3] == p@[3]);
        }
    }
    r
}

/// The region implied by a serial number prefix, over literal bytes.
pub open spec fn region_of_prefix(p: Seq<u8>) -> Option<Region> {
    if p == four(0x53, 0x43, 0x50, 0x53) || p == four(0x53, 0x4c, 0x50, 0x53) || p == four(0x53, 0x4c, 0x50, 0x4d)
        || p == four(0x50, 0x41, 0x50, 0x58) {
        Some(Region::Japan)
    } else if p == four(0x53, 0x43, 0x55, 0x53) || p == four(0x53, 0x4c, 0x55, 0x53) || p == four(0x4c, 0x53, 0x50, 0x2d) {
        Some(Region::NorthAmerica)
    } else if p == four(0x53, 0x43, 0x45, 0x53) || p == four(0x53, 0x43, 0x45, 0x44) || p == four(0x53, 0x4c, 0x45, 0x53)
        || p == four(0x53, 0x4c, 0x45, 0x44) {
        Some(Region::Europe)
    } else {
        None
    }
}

impl SerialNumber {
    /// The serial number of a boot file name "aaaa_ddd.dd" (or "aaaa-ddd.dd").
    pub fn from_bin_name(bin: &[u8]) -> (r: Result<SerialNumber>)
        ensures
            is_bin_name(bin@) ==> (r matches Ok(sn) && sn.0@ == serial_of(bin@)),
            !is_bin_name(bin@) ==> (r matches Err(PsxError::NoSerialNumber)),
    {
        if bin.len() != 11 {
            return Err(PsxError::NoSerialNumber);
        }
        if bin[4] != 0x5f && bin[4] != 0x2d {
            return Err(PsxError::NoSerialNumber);
        }
        let serial: [u8; 10] = [
            to_upper(bin[0]),
            to_upper(bin[1]),
            to_upper(bin[2]),
            to_upper(bin[3]),
            0x2d,
            bin[5],
            bin[6],
            bin[7],
            bin[9],
            bin[10],
        ];
        assert(serial@ =~= serial_of(bin@));
        Ok(SerialNumber(serial))
    }

    /// The region given by the serial number's prefix, if it is a known one.
    pub fn region(&self) -> (r: Option<Region>)
        ensures
            r == region_of_prefix(self.0@.subrange(0, 4)),
    {
        let p = &self.0;
        if prefix_is(p, 0x53, 0x43, 0x50, 0x53) || prefix_is(p, 0x53, 0x4c, 0x50, 0x53)
            || prefix_is(p, 0x53, 0x4c, 0x50, 0x4d) || prefix_is(p, 0x50, 0x41, 0x50, 0x58) {
            Some(Region::Japan)
        } else if prefix_is(p, 0x53, 0x43, 0x55, 0x53) || prefix_is(p, 0x53, 0x4c, 0x55, 0x53)
            || prefix_is(p, 0x4c, 0x53, 0x50, 0x2d) {
            Some(Region::NorthAmerica)
        } else if prefix_is(p, 0x53, 0x43, 0x45, 0x53) || prefix_is(p, 0x53, 0x43, 0x45, 0x44)
            || prefix_is(p, 0x53, 0x4c, 0x45, 0x53) || prefix_is(p, 0x53, 0x4c, 0x45, 0x44) {
            Some(Region::Europe)
        } else {
            None
        }
    }
}

// SYSTEM.CNF parsing.

/// A line break: LF or CR.
pub open spec fn is_line_sep(b: u8) -> bool {
    b == 0x0a || b == 0x0d
}

/// A word separator on a line: space, tab or '='.
pub open spec fn is_word_sep(b: u8) -> bool {
    b == 0x20 || b == 0x09 || b == 0x3d
}

/// The end of the line that starts at `i`: the next line break, or the end.
pub open spec fn line_end(s: Seq<u8>, i: int) -> int
    decreases s.len() - i,
{
    if i >= s.len() { s.len() as int } else if is_line_sep(s[i]) { i } else { line_end(s, i + 1) }
}

/// The words of `l` from `i` on, with `cur` the part of a word already read.
pub open spec fn words_from(l: Seq<u8>, i: int, cur: Seq<u8>) -> Seq<Seq<u8>>
    decreases l.len() - i,
{
    if i >= l.len() {
        if cur.len() > 0 { seq![cur] } else { Seq::empty() }
    } else if is_word_sep(l[i]) {
        (if cur.len() > 0 { seq![cur] } else { Seq::empty() }) + words_from(l, i + 1, Seq::empty())
    } else {
        words_from(l, i + 1, cur.push(l[i]))
    }
}

/// The non-empty words of a line, split at separators.
pub open spec fn words(l: Seq<u8>) -> Seq<Seq<u8>> {
    words_from(l, 0, Seq::empty())
}

/// The bytes "BOOT".
pub open spec fn boot_key() -> Seq<u8> {
    seq![0x42u8, 0x4fu8, 0x4fu8, 0x54u8]
}

/// The value of the first line from `i` on that has exactly two words, the first being
/// "BOOT".
pub open spec fn find_boot(s: Seq<u8>, i: int) -> Option<Seq<u8>>
    decreases s.len() - i + 1,
{
    if i > s.len() || i < 0 {
        None
    } else {
        proof { lemma_line_end_bounds(s, i); }
        let e = line_end(s, i);
        let w = words(s.subrange(i, e));
        if w.len() == 2 && w[0] == boot_key() {
            Some(w[1])
        } else if e >= s.len() {
            None
        } else {
            find_boot(s, e + 1)
        }
    }
}

/// The end of the part of `p` before its first ';', searching from `i`.
pub open spec fn semi_end(p: Seq<u8>, i: int) -> int
    decreases p.len() - i,
{
    if i >= p.len() { p.len() as int } else if p[i] == 0x3b { i } else { semi_end(p, i + 1) }
}

/// Whether `b` separates path components: ':' or '\'.
pub open spec fn is_path_sep(b: u8) -> bool {
    b == 0x3a || b == 0x5c
}

/// The start of the last path component of `p[..n]`.
pub open spec fn name_start(p: Seq<u8>, n: int) -> int
    decreases n,
{
    if n <= 0 { 0 } else if is_path_sep(p[n - 1]) { n } else { name_start(p, n - 1) }
}

/// The boot file name of a boot path: the last component, without a ";1" version.
pub open spec fn boot_file_name(bp: Seq<u8>) -> Seq<u8> {
    let p = bp.subrange(0, semi_end(bp, 0));
    p.subrange(name_start(p, p.len() as int), p.len() as int)
}

/// The serial number that SYSTEM.CNF `cnf` names, if any.
pub open spec fn cnf_serial(cnf: Seq<u8>) -> Option<Seq<u8>> {
    match find_boot(cnf, 0) {
        Some(bp) => if is_bin_name(boot_file_name(bp)) { Some(serial_of(boot_file_name(bp))) } else { None },
        None => None,
    }
}

fn scan_line_end(cnf: &[u8], start: usize) -> (r: usize)
    requires
        start <= cnf@.len(),
    ensures
        r == line_end(cnf@, start as int),
        start <= r <= cnf@.len(),
{
    let mut i = start;
    while i < cnf.len() && cnf[i] != 0x0a && cnf[i] != 0x0d
        invariant
            start <= i <= cnf@.len(),
            line_end(cnf@, start as int) == line_end(cnf@, i as int),
        decreases cnf@.len() - i,
    {
        i = i + 1;
    }
    i
}

/// A line ends at or after its start, and within the text.
pub proof fn lemma_line_end_bounds(s: Seq<u8>, i: int)
    requires
        0 <= i <= s.len(),
    ensures
        i <= line_end(s, i) <= s.len(),
    decreases s.len() - i,
{
    if i < s.len() && !is_line_sep(s[i]) {
        lemma_line_end_bounds(s, i + 1);
    }
}

/// The number of words on `cnf[start..end]` and its first two words.
fn line_words(cnf: &[u8], start: usize, end: usize) -> (r: (usize, Vec<u8>, Vec<u8>))
    requires
        start <= end <= cnf@.len(),
    ensures
        ({
            let w = words(cnf@.subrange(start as int, end as int));
            &&& r.0 == w.len()
            &&& r.0 >= 1 ==> r.1@ == w[0]
            &&& r.0 >= 2 ==> r.2@ == w[1]
        }),
{
    let ghost l = cnf@.subrange(start as int, end as int);
    let ghost mut acc: Seq<Seq<u8>> = Seq::empty();
    let mut count: usize = 0;
    let mut first: Vec<u8> = Vec::new();
    let mut second: Vec<u8> = Vec::new();
    let mut cur: Vec<u8> = Vec::new();
    let mut i = start;
    while i < end
        invariant
            start <= i <= end <= cnf@.len(),
            l == cnf@.subrange(start as int, end as int),
            acc + words_from(l, i - start, cur@) == words(l),
            count == acc.len(),
            count + cur@.len() <= i - start,
            count >= 1 ==> first@ == acc[0],
            count >= 2 ==> second@ == acc[1],
        decreases end - i,
    {
        let b = cnf[i];
        assert(l[i - start] == b);
        if b == 0x20 || b == 0x09 || b == 0x3d {
            if cur.len() > 0 {
                proof {
                    assert(acc.push(cur@) + words_from(l, i + 1 - start, Seq::empty()) =~= acc + words_from(l, i - start, cur@));
                    acc = acc.push(cur@);
                }
                let w = cur;
                cur = Vec::new();
                if count == 0 {
                    first = w;
                } else if count == 1 {
                    second = w;
                }
                count = count + 1;
            } else {
                assert(cur@ =~= Seq::<u8>::empty());
                assert(words_from(l, i - start, cur@) =~= words_from(l, i + 1 - start, Seq::<u8>::empty()));
            }
        } else {
            cur.push(b);
        }
        i = i + 1;
    }
    if cur.len() > 0 {
        proof {
            assert(acc.push(cur@) =~= acc + words_from(l, i - start, cur@));
            acc = acc.push(cur@);
        }
        let w = cur;
        if count == 0 {
            first = w;
        } else if count == 1 {
            second = w;
        }
        count = count + 1;
    } else {
        assert(acc =~= acc + words_from(l, i - start, cur@));
    }
    (count, first, second)
}

fn is_boot_key(v: &Vec<u8>) -> (r: bool)
    ensures
        r == (v@ == boot_key()),
{
    let r = v.len() == 4 && v[0] == 0x42 && v[1] == 0x4f && v[2] == 0x4f && v[3] == 0x54;
    proof {
        if r {
            assert(v@ =~= boot_key());
        }
    }
    r
}

/// The value of the BOOT line of SYSTEM.CNF, if there is one.
fn find_boot_path(cnf: &[u8]) -> (r: Option<Vec<u8>>)
    ensures
        match find_boot(cnf@, 0) {
            Some(bp) => r matches Some(v) && v@ == bp,
            None => r.is_none(),
        },
{
    let mut start: usize = 0;
    while start <= cnf.len()
        invariant
            start <= cnf@.len() + 1,
            find_boot(cnf@, 0) == find_boot(cnf@, start as int),
        decreases cnf@.len() + 1 - start,
    {
        let end = scan_line_end(cnf, start);
        let (count, first, second) = line_words(cnf, start, end);
        if count == 2 && is_boot_key(&first) {
            return Some(second);
        }
        if end >= cnf.len() {
            return None;
        }
        start = end + 1;
    }
    None
}

/// The boot file name of a boot path.
fn boot_name(bp: &Vec<u8>) -> (r: Vec<u8>)
    ensures
        r@ == boot_file_name(bp@),
{
    let mut e: usize = 0;
    while e < bp.len() && bp[e] != 0x3b
        invariant
            e <= bp@.len(),
            semi_end(bp@, 0) == semi_end(bp@, e as int),
        decreases bp@.len() - e,
    {
        e = e + 1;
    }
    let ghost p = bp@.subrange(0, e as int);
    let mut n: usize = e;
    while n > 0 && bp[n - 1] != 0x3a && bp[n - 1] != 0x5c
        invariant
            n <= e <= bp@.len(),
            p == bp@.subrange(0, e as int),
            name_start(p, e as int) == name_start(p, n as int),
        decreases n,
    {
        n = n - 1;
    }
    let mut name: Vec<u8> = Vec::new();
    let mut k = n;
    while k < e
        invariant
            n <= k <= e <= bp@.len(),
            name@ == bp@.subrange(n as int, k as int),
        decreases e - k,
    {
        name.push(bp[k]);
        k = k + 1;
        assert(name@ =~= bp@.subrange(n as int, k as int));
    }
    proof {
        lemma_name_start_bounds(p, e as int);
        assert(name@ =~= p.subrange(name_start(p, p.len() as int), p.len() as int));
    }
    name
}

proof fn lemma_name_start_bounds(p: Seq<u8>, n: int)
    requires
        0 <= n <= p.len(),
    ensures
        0 <= name_start(p, n) <= n,
    decreases n,
{
    if n > 0 && !is_path_sep(p[n - 1]) {
        lemma_name_start_bounds(p, n - 1);
    }
}

/// The serial number named by the BOOT line of SYSTEM.CNF `system_cnf`.
pub fn parse_serial_number_from_system_cnf(system_cnf: &[u8]) -> (r: Result<SerialNumber>)
    ensures
        match cnf_serial(system_cnf@) {
            Some(sn) => r matches Ok(s) && s.0@ == sn,
            None => r matches Err(PsxError::NoSerialNumber),
        },
{
    let boot_path = match find_boot_path(system_cnf) {
        Some(b) => b,
        None => {
            return Err(PsxError::NoSerialNumber);
        },
    };
    let bin_name = boot_name(&boot_path);
    SerialNumber::from_bin_name(bin_name.as_slice())
}

/// The letters of a license text, in order: its bytes from 'A' to 'z' (the text is
/// spaced out, even inside words, so everything else is dropped).
pub open spec fn license_letters(s: Seq<u8>) -> Seq<u8>
    decreases s.len(),
{
    if s.len() == 0 {
        s
    } else {
        license_letters(s.drop_last()) + if 0x41 <= s.last() <= 0x7a { seq![s.last()] } else { Seq::empty() }
    }
}

/// The region that the letters of a license text name.
pub open spec fn region_of_license(letters: Seq<u8>) -> Option<Region> {
    if letters == "LicensedbySonyComputerEntertainmentInc".spec_bytes() {
        Some(Region::Japan)
    } else if letters == "LicensedbySonyComputerEntertainmentAmerica".spec_bytes()
        || letters == "LicensedbySonyComputerEntertainmentofAmerica".spec_bytes() {
        Some(Region::NorthAmerica)
    } else if letters == "LicensedbySonyComputerEntertainmentEurope".spec_bytes() {
        Some(Region::Europe)
    } else {
        None
    }
}

fn bytes_eq(a: &[u8], b: &[u8]) -> (r: bool)
    ensures
        r == (a@ == b@),
{
    if a.len() != b.len() {
        return false;
    }
    let mut i: usize = 0;
    while i < a.len()
        invariant
            a@.len() == b@.len(),
            i <= a@.len(),
            forall|j: int| 0 <= j < i ==> a@[j] == b@[j],
        decreases a@.len() - i,
    {
        if a[i] != b[i] {
            return false;
        }
        i = i + 1;
    }
    assert(a@ =~= b@);
    true
}

/// The region of a disc, from the XA payload of sector 00:00:04 of its first track: its
/// first 76 bytes hold the license text. A text that names no region is a bad disc
/// format, reported with the letters found.
pub fn extract_system_region(payload: &[u8]) -> (r: Result<Region>)
    requires
        payload@.len() >= 76,
    ensures
        ({
            let letters = license_letters(payload@.subrange(0, 76));
            match region_of_license(letters) {
                Some(region) => r == Ok::<Region, PsxError>(region),
                None => r matches Err(PsxError::BadDiscFormat { reason })
                    && reason@ == "Couldn't identify disc region string: "@ + decode_utf8(letters),
            }
        }),
{
    let ghost blob = payload@.subrange(0, 76);
    let mut letters: Vec<u8> = Vec::new();
    let mut i: usize = 0;
    while i < 76
        invariant
            i <= 76,
            payload@.len() >= 76,
            blob == payload@.subrange(0, 76),
            letters@ == license_letters(blob.take(i as int)),
            forall|j: int| 0 <= j < letters@.len() ==> 0x41 <= #[trigger] letters@[j] <= 0x7a,
        decreases 76 - i,
    {
        let b = payload[i];
        assert(blob.take(i + 1).drop_last() =~= blob.take(i as int));
        if b >= 0x41 && b <= 0x7a {
            letters.push(b);
        }
        i = i + 1;
        assert(letters@ =~= license_letters(blob.take(i as int)));
    }
    assert(blob.take(76) =~= blob);
    let l = letters.as_slice();
    if bytes_eq(l, "LicensedbySonyComputerEntertainmentInc".as_bytes()) {
        Ok(Region::Japan)
    } else if bytes_eq(l, "LicensedbySonyComputerEntertainmentAmerica".as_bytes())
        || bytes_eq(l, "LicensedbySonyComputerEntertainmentofAmerica".as_bytes()) {
        Ok(Region::NorthAmerica)
    } else if bytes_eq(l, "LicensedbySonyComputerEntertainmentEurope".as_bytes()) {
        Ok(Region::Europe)
    } else {
        let ghost text = letters@;
        let mut reason = String::from_str("Couldn't identify disc region string: ");
        match crate::text::string_from_utf8(letters) {
            Ok(t) => reason.append(t.as_str()),
            Err(_) => {},
        }
        proof {
            reveal_strlit("Couldn't identify disc region string: ");
        }
        Err(PsxError::BadDiscFormat { reason })
    }
}

/// A disc: an image and its serial number.
pub struct Disc {
    pub image: crate::cd_stub::StubDisc,
    pub serial: SerialNumber,
}

impl Disc {
    /// A disc over `image`, identified by the SYSTEM.CNF file read from it.
    pub fn new(image: crate::cd_stub::StubDisc, system_cnf: &[u8]) -> (r: Result<Disc>)
        ensures
            match cnf_serial(system_cnf@) {
                Some(sn) => r matches Ok(d) && d.serial.0@ == sn,
                None => r matches Err(PsxError::NoSerialNumber),
            },
    {
        let serial = parse_serial_number_from_system_cnf(system_cnf)?;
        Ok(Disc { image, serial })
    }

    /// Read the sector at `dp`.
    pub fn read_sector(&mut self, dp: DiscPosition) -> (r: core::result::Result<Sector, CdError>)
        ensures
            final(self).serial == old(self).serial,
    {
        self.image.read_sector(&dp)
    }

    /// The disc's region; the serial number must name a known one.
    pub fn region(&self) -> (r: Region)
        requires
            region_of_prefix(self.serial.0@.subrange(0, 4)).is_some(),
        ensures
            Some(r) == region_of_prefix(self.serial.0@.subrange(0, 4)),
    {
        match self.serial.region() {
            Some(r) => r,
            None => Region::Japan,
        }
    }

    /// The disc's serial number.
    pub fn serial_number(&self) -> (r: SerialNumber)
        ensures
            r == self.serial,
    {
        self.serial
    }
}

} // verus!
