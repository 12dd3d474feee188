//! The GDB remote serial protocol: framing of `$packet#cs` packets with their checksum,
//! the hexadecimal fields of requests, and the decoding of each request into what the
//! debugger has to do and answer. The connection itself is the host's.

use vstd::prelude::*;
use vstd::string::StringSliceAdditionalSpecFns;
use vstd::utf8::{decode_utf8, valid_utf8};
use crate::text::string_from_utf8;

verus! {

/// Whether `b` is a digit or a lowercase hexadecimal letter.
pub open spec fn is_hex(b: u8) -> bool {
    (0x30 <= b <= 0x39) || (0x61 <= b <= 0x66)
}

/// The value of a hexadecimal digit.
pub open spec fn hex_val(b: u8) -> u8 {
    if b <= 0x39 { (b - 0x30) as u8 } else { (b - 0x61 + 10) as u8 }
}

/// The value of a single lowercase hexadecimal digit, or `None`.
pub fn ascii_hex(b: u8) -> (r: Option<u8>)
    ensures
        r == (if is_hex(b) { Some(hex_val(b)) } else { None::<u8> }),
{
    if b >= 0x30 && b <= 0x39 {
        Some(b - 0x30)
    } else if b >= 0x61 && b <= 0x66 {
        Some(10 + (b - 0x61))
    } else {
        None
    }
}

/// Whether every byte of `s` is a hexadecimal digit.
pub open spec fn all_hex(s: Seq<u8>) -> bool {
    forall|i: int| 0 <= i < s.len() ==> is_hex(#[trigger] s[i])
}

/// The value of the hexadecimal digits `s`, each shifting the value four bits up (bits
/// beyond 32 are lost).
pub open spec fn hex_value(s: Seq<u8>) -> u32
    decreases s.len(),
{
    if s.len() == 0 { 0 } else { (hex_value(s.drop_last()) << 4u32) | (hex_val(s.last()) as u32) }
}

/// The value of a hexadecimal string; an error if a byte is not a digit.
pub fn parse_hex(hex: &[u8]) -> (r: Result<u32, ()>)
    ensures
        all_hex(hex@) ==> r == Ok::<u32, ()>(hex_value(hex@)),
        !all_hex(hex@) ==> r is Err,
{
    let mut v: u32 = 0;
    let mut i: usize = 0;
    while i < hex.len()
        invariant
            i <= hex@.len(),
            all_hex(hex@.take(i as int)),
            v == hex_value(hex@.take(i as int)),
        decreases hex@.len() - i,
    {
        let b = hex[i];
        match ascii_hex(b) {
            Some(h) => {
                v = (v << 4) | (h as u32);
            },
            None => {
                assert(!is_hex(hex@[i as int]));
                return Err(());
            },
        }
        i = i + 1;
        assert(hex@.take(i as int).drop_last() =~= hex@.take(i - 1));
    }
    assert(hex@.take(hex@.len() as int) =~= hex@);
    Ok(v)
}

/// The number of bytes of `s` equal to `c`.
pub open spec fn count_of(s: Seq<u8>, c: u8) -> nat
    decreases s.len(),
{
    if s.len() == 0 { 0 } else { count_of(s.drop_last(), c) + if s.last() == c { 1nat } else { 0nat } }
}

/// The first position of `c` in `s` at or after `from`, or `s.len()`.
pub open spec fn find_from(s: Seq<u8>, from: int, c: u8) -> int
    decreases s.len() - from,
{
    if from >= s.len() { s.len() as int } else if s[from] == c { from } else { find_from(s, from + 1, c) }
}

proof fn lemma_find_from_bounds(s: Seq<u8>, from: int, c: u8)
    requires
        0 <= from <= s.len(),
    ensures
        from <= find_from(s, from, c) <= s.len(),
        find_from(s, from, c) < s.len() ==> s[find_from(s, from, c)] == c,
        forall|i: int| from <= i < find_from(s, from, c) ==> s[i] != c,
    decreases s.len() - from,
{
    if from < s.len() && s[from] != c {
        lemma_find_from_bounds(s, from + 1, c);
    }
}

/// The position of the first `c` at or after `from`, or the length.
pub fn find_byte(s: &[u8], from: usize, c: u8) -> (r: usize)
    requires
        from <= s@.len(),
    ensures
        r == find_from(s@, from as int, c),
{
    let mut i = from;
    while i < s.len() && s[i] != c
        invariant
            from <= i <= s@.len(),
            find_from(s@, from as int, c) == find_from(s@, i as int, c),
        decreases s@.len() - i,
    {
        i = i + 1;
    }
    i
}

fn slice_of(s: &[u8], from: usize, to: usize) -> (r: Vec<u8>)
    requires
        from <= to <= s@.len(),
    ensures
        r@ == s@.subrange(from as int, to as int),
{
    let mut v: Vec<u8> = Vec::new();
    let mut i = from;
    while i < to
        invariant
            from <= i <= to <= s@.len(),
            v@ == s@.subrange(from as int, i as int),
        decreases to - i,
    {
        v.push(s[i]);
        i = i + 1;
        assert(v@ =~= s@.subrange(from as int, i as int));
    }
    v
}

/// The fields of "addr,len": exactly one comma, both sides non-empty hexadecimal.
pub open spec fn addr_len_of(s: Seq<u8>) -> Option<(u32, u32)> {
    let k = find_from(s, 0, 0x2c);
    let a = s.subrange(0, k);
    let l = s.subrange(k + 1, s.len() as int);
    if k < s.len() && find_from(s, k + 1, 0x2c) == s.len() && a.len() > 0 && l.len() > 0 && all_hex(a) && all_hex(l) {
        Some((hex_value(a), hex_value(l)))
    } else {
        None
    }
}

/// Parse "addr,len", both hexadecimal.
pub fn parse_addr_len(args: &[u8]) -> (r: Result<(u32, u32), ()>)
    ensures
        r matches Ok(v) ==> addr_len_of(args@) == Some(v),
        r is Err ==> addr_len_of(args@) is None,
{
    let k = find_byte(args, 0, 0x2c);
    proof { lemma_find_from_bounds(args@, 0, 0x2c); }
    if k >= args.len() {
        return Err(());
    }
    let k2 = find_byte(args, k + 1, 0x2c);
    proof { lemma_find_from_bounds(args@, k + 1, 0x2c); }
    if k2 < args.len() {
        return Err(());
    }
    if k == 0 || k + 1 == args.len() {
        return Err(());
    }
    proof {
    }
    let a = slice_of(args, 0, k);
    let l = slice_of(args, k + 1, args.len());
    let addr = match parse_hex(a.as_slice()) {
        Ok(v) => v,
        Err(_) => {
            return Err(());
        },
    };
    let len = match parse_hex(l.as_slice()) {
        Ok(v) => v,
        Err(_) => {
            return Err(());
        },
    };
    assert(all_hex(a@) && all_hex(l@));
    assert(addr_len_of(args@) == Some((addr, len)));
    Ok((addr, len))
}

/// The fields of "type,addr,kind": exactly two commas, one-byte type and kind, and a
/// hexadecimal address (possibly empty).
pub open spec fn breakpoint_of(s: Seq<u8>) -> Option<(u8, u32, u8)> {
    let k1 = find_from(s, 0, 0x2c);
    let k2 = find_from(s, k1 + 1, 0x2c);
    let a = s.subrange(k1 + 1, k2);
    if k1 < s.len() && k2 < s.len() && find_from(s, k2 + 1, 0x2c) == s.len() && k1 == 1 && k2 + 2 == s.len() && all_hex(a) {
        Some((s[0], hex_value(a), s[k2 + 1]))
    } else {
        None
    }
}

/// Parse "type,addr,kind".
pub fn parse_breakpoint(args: &[u8]) -> (r: Result<(u8, u32, u8), ()>)
    ensures
        r matches Ok(v) ==> breakpoint_of(args@) == Some(v),
        r is Err ==> breakpoint_of(args@) is None,
{
    let k1 = find_byte(args, 0, 0x2c);
    proof { lemma_find_from_bounds(args@, 0, 0x2c); }
    if k1 >= args.len() {
        return Err(());
    }
    let k2 = find_byte(args, k1 + 1, 0x2c);
    proof { lemma_find_from_bounds(args@, k1 + 1, 0x2c); }
    if k2 >= args.len() {
        return Err(());
    }
    let k3 = find_byte(args, k2 + 1, 0x2c);
    proof { lemma_find_from_bounds(args@, k2 + 1, 0x2c); }
    if k3 < args.len() {
        return Err(());
    }
    if k1 != 1 || args.len() - k2 != 2 {
        return Err(());
    }
    let a = slice_of(args, k1 + 1, k2);
    match parse_hex(a.as_slice()) {
        Ok(addr) => {
            assert(all_hex(a@));
            assert(breakpoint_of(args@) == Some((args@[0], addr, args@[k2 + 1])));
            Ok((args[0], addr, args[k2 + 1]))
        },
        Err(_) => Err(()),
    }
}

/// Where the packet framing stands.
#[derive(Debug, Clone, Copy, PartialEq, Eq, Structural)]
pub enum FrameState {
    /// Skipping bytes until a `$`.
    WaitForStart,
    /// Collecting the packet until a `#`.
    InPacket,
    /// Expecting the first checksum digit.
    WaitForCheckSum,
    /// Expecting the second checksum digit, the first one's value given.
    WaitForCheckSum2(u8),
}

/// A framed packet, or why there is none.
pub enum PacketResult {
    /// A packet whose checksum matched.
    Received(Vec<u8>),
    /// A packet with a bad or malformed checksum: it must be sent again.
    BadChecksum(Vec<u8>),
    /// The connection ended first.
    EndOfStream,
}

/// The packet framer: state, packet so far and running checksum.
pub struct PacketParser {
    pub state: FrameState,
    pub packet: Vec<u8>,
    pub csum: u8,
}

/// The checksum of a packet: the sum of its bytes modulo 256.
pub open spec fn checksum(s: Seq<u8>) -> u8
    decreases s.len(),
{
    if s.len() == 0 { 0 } else { ((checksum(s.drop_last()) + s.last()) % 256) as u8 }
}

impl PacketParser {
    /// Waiting for a packet.
    pub fn new() -> (r: Self)
        ensures
            r.state == FrameState::WaitForStart,
            r.packet@.len() == 0,
            r.csum == 0,
    {
        PacketParser { state: FrameState::WaitForStart, packet: Vec::new(), csum: 0 }
    }

    /// The running checksum is that of the packet so far.
    pub open spec fn wf(&self) -> bool {
        self.csum == checksum(self.packet@)
    }

    /// Take the next byte of the stream. A finished packet (good or bad) is returned;
    /// the parser is then done with it.
    pub fn feed(&mut self, byte: u8) -> (r: Option<PacketResult>)
        requires
            old(self).wf(),
        ensures
            final(self).wf(),
            match old(self).state {
                FrameState::WaitForStart => r is None && final(self).packet@ == old(self).packet@
                    && final(self).state == (if byte == 0x24 { FrameState::InPacket } else { FrameState::WaitForStart }),
                FrameState::InPacket => r is None && if byte == 0x23 {
                    final(self).state == FrameState::WaitForCheckSum && final(self).packet@ == old(self).packet@
                } else {
                    final(self).state == FrameState::InPacket && final(self).packet@ == old(self).packet@.push(byte)
                },
                FrameState::WaitForCheckSum => if is_hex(byte) {
                    r is None && final(self).state == FrameState::WaitForCheckSum2(hex_val(byte))
                        && final(self).packet@ == old(self).packet@
                } else {
                    r matches Some(PacketResult::BadChecksum(p)) && p@ == old(self).packet@
                },
                FrameState::WaitForCheckSum2(c1) => if is_hex(byte) && ((c1 << 4u8) | hex_val(byte)) == checksum(old(self).packet@) {
                    r matches Some(PacketResult::Received(p)) && p@ == old(self).packet@
                } else {
                    r matches Some(PacketResult::BadChecksum(p)) && p@ == old(self).packet@
                },
            },
    {
        match self.state {
            FrameState::WaitForStart => {
                if byte == 0x24 {
                    self.state = FrameState::InPacket;
                }
                None
            },
            FrameState::InPacket => {
                if byte == 0x23 {
                    self.state = FrameState::WaitForCheckSum;
                } else {
                    let ghost p0 = self.packet@;
                    self.packet.push(byte);
                    self.csum = self.csum.wrapping_add(byte);
                    assert(self.packet@.drop_last() =~= p0);
                }
                None
            },
            FrameState::WaitForCheckSum => {
                match ascii_hex(byte) {
                    Some(b) => {
                        self.state = FrameState::WaitForCheckSum2(b);
                        None
                    },
                    None => {
                        let p = self.packet.clone();
                        Some(PacketResult::BadChecksum(p))
                    },
                }
            },
            FrameState::WaitForCheckSum2(c1) => {
                let p = self.packet.clone();
                match ascii_hex(byte) {
                    Some(c2) => {
                        let expected = (c1 << 4) | c2;
                        if expected != self.csum {
                            Some(PacketResult::BadChecksum(p))
                        } else {
                            Some(PacketResult::Received(p))
                        }
                    },
                    None => Some(PacketResult::BadChecksum(p)),
                }
            },
        }
    }
}

/// What framing finds in a byte stream.
pub enum Framed {
    /// A good packet, and the number of bytes up to its end.
    Good(Seq<u8>, nat),
    /// A packet with a bad checksum, and the number of bytes up to where that was seen.
    Bad(Seq<u8>, nat),
    /// The stream ends first.
    End,
}

/// Framing of `s` from position `i` in state `st` with packet `p` so far.
pub open spec fn frame_from(s: Seq<u8>, i: int, st: FrameState, p: Seq<u8>) -> Framed
    decreases s.len() - i,
{
    if i < 0 || i >= s.len() {
        Framed::End
    } else {
        let b = s[i];
        match st {
            FrameState::WaitForStart => frame_from(s, i + 1, if b == 0x24 { FrameState::InPacket } else { FrameState::WaitForStart }, p),
            FrameState::InPacket => if b == 0x23 {
                frame_from(s, i + 1, FrameState::WaitForCheckSum, p)
            } else {
                frame_from(s, i + 1, FrameState::InPacket, p.push(b))
            },
            FrameState::WaitForCheckSum => if is_hex(b) {
                frame_from(s, i + 1, FrameState::WaitForCheckSum2(hex_val(b)), p)
            } else {
                Framed::Bad(p, (i + 1) as nat)
            },
            FrameState::WaitForCheckSum2(c1) => if is_hex(b) && ((c1 << 4u8) | hex_val(b)) == checksum(p) {
                Framed::Good(p, (i + 1) as nat)
            } else {
                Framed::Bad(p, (i + 1) as nat)
            },
        }
    }
}

/// Read one packet from the start of `stream`: the result and how many bytes it used.
pub fn next_packet(stream: &[u8]) -> (r: (PacketResult, usize))
    ensures
        match frame_from(stream@, 0, FrameState::WaitForStart, Seq::empty()) {
            Framed::Good(p, n) => r.0 matches PacketResult::Received(q) && q@ == p && r.1 == n,
            Framed::Bad(p, n) => r.0 matches PacketResult::BadChecksum(q) && q@ == p && r.1 == n,
            Framed::End => r.0 is EndOfStream && r.1 == stream@.len(),
        },
{
    let mut parser = PacketParser::new();
    assert(parser.packet@ =~= Seq::<u8>::empty());
    let mut i: usize = 0;
    while i < stream.len()
        invariant
            parser.wf(),
            i <= stream@.len(),
            frame_from(stream@, 0, FrameState::WaitForStart, Seq::empty())
                == frame_from(stream@, i as int, parser.state, parser.packet@),
        decreases stream@.len() - i,
    {
        let b = stream[i];
        i = i + 1;
        match parser.feed(b) {
            Some(res) => {
                return (res, i);
            },
            None => {},
        }
    }
    (PacketResult::EndOfStream, i)
}


/// The lowercase hexadecimal digit, as a byte, of `n` (0..=15).
pub open spec fn hex_byte(n: u8) -> u8 {
    if n < 10 { (0x30 + n) as u8 } else { (0x61 + n - 10) as u8 }
}

/// A payload framed for the wire: `$`, the payload, `#`, and its checksum in two
/// lowercase hexadecimal digits.
pub open spec fn framed(p: Seq<u8>) -> Seq<u8> {
    seq![0x24u8] + p + seq![0x23u8, hex_byte(checksum(p) / 16), hex_byte(checksum(p) % 16)]
}

fn hex_digit_byte(n: u8) -> (r: u8)
    requires
        n < 16,
    ensures
        r == hex_byte(n),
{
    if n < 10 { 0x30 + n } else { 0x61 + n - 10 }
}

/// Frame a reply payload for sending.
pub fn frame_reply(payload: &[u8]) -> (r: Vec<u8>)
    ensures
        r@ == framed(payload@),
{
    let mut out: Vec<u8> = Vec::new();
    out.push(0x24);
    let mut cs: u8 = 0;
    let mut i: usize = 0;
    while i < payload.len()
        invariant
            i <= payload@.len(),
            out@ == seq![0x24u8] + payload@.take(i as int),
            cs == checksum(payload@.take(i as int)),
        decreases payload@.len() - i,
    {
        let b = payload[i];
        assert(payload@.take(i + 1).drop_last() =~= payload@.take(i as int));
        cs = cs.wrapping_add(b);
        out.push(b);
        i = i + 1;
        assert(out@ =~= seq![0x24u8] + payload@.take(i as int));
    }
    assert(payload@.take(payload@.len() as int) =~= payload@);
    out.push(0x23);
    out.push(hex_digit_byte(cs / 16));
    out.push(hex_digit_byte(cs % 16));
    assert(out@ =~= framed(payload@));
    out
}

proof fn lemma_frame_payload(s: Seq<u8>, p: Seq<u8>, k: int)
    requires
        0 <= k <= p.len(),
        s.len() == p.len() + 4,
        forall|i: int| 0 <= i < p.len() ==> s[1 + i] == p[i] && p[i] != 0x23,
    ensures
        frame_from(s, 1 + k, FrameState::InPacket, p.take(k)) == frame_from(s, 1 + p.len() as int, FrameState::InPacket, p),
    decreases p.len() - k,
{
    if k < p.len() {
        assert(s[1 + k] == p[k]);
        assert(p.take(k).push(p[k]) =~= p.take(k + 1));
        lemma_frame_payload(s, p, k + 1);
    } else {
        assert(p.take(k) =~= p);
    }
}

/// What is framed is read back: a framed payload without a `#` in it parses as that
/// payload with a good checksum, using the whole frame.
pub proof fn lemma_frame_then_parse(p: Seq<u8>)
    requires
        forall|i: int| 0 <= i < p.len() ==> p[i] != 0x23,
    ensures
        frame_from(framed(p), 0, FrameState::WaitForStart, Seq::empty()) == Framed::Good(p, framed(p).len()),
{
    let s = framed(p);
    let n = p.len() as int;
    let c = checksum(p);
    assert(s[0] == 0x24u8);
    assert(p.take(0) =~= Seq::<u8>::empty());
    assert forall|i: int| 0 <= i < p.len() implies s[1 + i] == p[i] && p[i] != 0x23 by {}
    lemma_frame_payload(s, p, 0);
    assert(s[1 + n] == 0x23u8);
    assert(s[2 + n] == hex_byte(c / 16));
    assert(s[3 + n] == hex_byte(c % 16));
    assert(hex_val(hex_byte(c / 16)) == c / 16);
    assert(hex_val(hex_byte(c % 16)) == c % 16);
    assert((((c / 16) as u8) << 4u8) | ((c % 16) as u8) == c) by (bit_vector);
    assert(frame_from(s, 3 + n, FrameState::WaitForCheckSum2(hex_val(s[2 + n])), p) == Framed::Good(p, (4 + n) as nat));
    assert(frame_from(s, 2 + n, FrameState::WaitForCheckSum, p) == Framed::Good(p, (4 + n) as nat));
}

/// Whether `s` starts with `p`.
pub open spec fn starts(s: Seq<u8>, p: Seq<u8>) -> bool {
    p.len() <= s.len() && s.subrange(0, p.len() as int) == p
}

/// Whether `s` starts with `p`.
pub fn starts_with(s: &[u8], p: &[u8]) -> (r: bool)
    ensures
        r == starts(s@, p@),
{
    if p.len() > s.len() {
        return false;
    }
    let mut i: usize = 0;
    while i < p.len()
        invariant
            p@.len() <= s@.len(),
            i <= p@.len(),
            forall|j: int| 0 <= j < i ==> s@[j] == p@[j],
        decreases p@.len() - i,
    {
        if s[i] != p[i] {
            assert(s@.subrange(0, p@.len() as int)[i as int] != p@[i as int]);
            return false;
        }
        i = i + 1;
    }
    assert(s@.subrange(0, p@.len() as int) =~= p@);
    true
}

/// The bytes of `s`.
pub fn bytes_vec(s: &str) -> (r: Vec<u8>)
    ensures
        r@ == s.spec_bytes(),
{
    let b = s.as_bytes();
    let mut v: Vec<u8> = Vec::new();
    let mut i: usize = 0;
    while i < b.len()
        invariant
            b@ == s.spec_bytes(),
            i <= b@.len(),
            v@ == b@.take(i as int),
        decreases b@.len() - i,
    {
        v.push(b[i]);
        i = i + 1;
        assert(v@ =~= b@.take(i as int));
    }
    assert(b@.take(b@.len() as int) =~= b@);
    v
}

/// The bytes that pairs of hexadecimal digits in `s` stand for; `None` if the length is
/// odd or a byte is not a digit.
pub open spec fn hex_bytes(s: Seq<u8>) -> Option<Seq<u8>>
    decreases s.len(),
{
    if s.len() % 2 != 0 {
        None
    } else if s.len() == 0 {
        Some(Seq::empty())
    } else {
        let n = s.len() as int;
        match hex_bytes(s.subrange(0, n - 2)) {
            Some(p) => if is_hex(s[n - 2]) && is_hex(s[n - 1]) {
                Some(p.push(((hex_val(s[n - 2]) << 4u8) | hex_val(s[n - 1])) as u8))
            } else {
                None
            },
            None => None,
        }
    }
}

/// Decode pairs of hexadecimal digits into the text they spell.
pub fn decode_hex_string(hex: &[u8]) -> (r: Result<String, ()>)
    ensures
        r matches Ok(t) ==> hex_bytes(hex@) matches Some(b) && valid_utf8(b) && t@ == decode_utf8(b),
        r is Err ==> hex_bytes(hex@) is None || (hex_bytes(hex@) matches Some(b) && !valid_utf8(b)),
{
    if hex.len() % 2 != 0 {
        return Err(());
    }
    let mut result: Vec<u8> = Vec::new();
    let mut i: usize = 0;
    while i < hex.len()
        invariant
            hex@.len() % 2 == 0,
            i <= hex@.len(),
            i % 2 == 0,
            hex_bytes(hex@.subrange(0, i as int)) == Some(result@),
        decreases hex@.len() - i,
    {
        let h = match ascii_hex(hex[i]) {
            Some(v) => v,
            None => {
                proof { lemma_hex_bytes_prefix_fails(hex@, i as int); }
                return Err(());
            },
        };
        let l = match ascii_hex(hex[i + 1]) {
            Some(v) => v,
            None => {
                proof { lemma_hex_bytes_prefix_fails(hex@, i as int); }
                return Err(());
            },
        };
        result.push((h << 4) | l);
        i = i + 2;
        assert(hex@.subrange(0, i as int).subrange(0, i - 2) =~= hex@.subrange(0, i - 2));
    }
    assert(hex@.subrange(0, hex@.len() as int) =~= hex@);
    string_from_utf8(result)
}

proof fn lemma_hex_bytes_prefix_fails(s: Seq<u8>, i: int)
    requires
        s.len() % 2 == 0,
        0 <= i,
        i % 2 == 0,
        i + 2 <= s.len(),
        !(is_hex(s[i]) && is_hex(s[i + 1])),
    ensures
        hex_bytes(s) is None,
    decreases s.len(),
{
    let n = s.len() as int;
    if i + 2 == n {
        assert(s[n - 2] == s[i]);
    } else {
        let t = s.subrange(0, n - 2);
        assert(t[i] == s[i] && t[i + 1] == s[i + 1]);
        lemma_hex_bytes_prefix_fails(t, i);
    }
}


/// What a data byte count of a write-memory request came to.
#[derive(Debug, Clone, Copy, PartialEq, Eq, Structural)]
pub enum WriteOutcome {
    /// Every byte was given: answer OK.
    Complete,
    /// The data ran out first: answer with an error.
    Short,
    /// A byte was not hexadecimal: the session ends.
    BadHex,
}

/// A decoded request: what the debugger has to do, and the answer it implies.
pub enum GdbRequest {
    /// Answer with this payload; nothing else to do.
    Reply(Vec<u8>),
    /// Answer with an error.
    Error,
    /// Read `len` bytes at `addr` (never 0 bytes).
    ReadMemory { addr: u32, len: u32 },
    /// Write `data` from `addr` on, then answer as `outcome` says.
    WriteMemory { addr: u32, data: Vec<u8>, outcome: WriteOutcome },
    /// Send the registers.
    ReadRegisters,
    /// Set registers 1 to `gprs.len()`; with `special` (SR, LO, HI, BAD, CAUSE, PC) set
    /// those too and answer OK, without it the session ends.
    WriteRegisters { gprs: Vec<u32>, special: Option<Vec<u32>> },
    /// Set register `reg` (1 to 37) and answer OK.
    WriteRegister { reg: u32, value: u32 },
    /// Resume, from `addr` if given.
    Resume { addr: Option<u32> },
    /// Execute one instruction, from `addr` if given.
    Step { addr: Option<u32> },
    /// Stepping was asked for with an address that is not hexadecimal: the step mode is
    /// set, then the session ends.
    StepWithBadAddress,
    /// Add a breakpoint (type 0) or a write (2) or read (3) watchpoint, answer OK.
    AddBreakpoint { btype: u8, addr: u32 },
    /// Remove one, answer OK.
    DelBreakpoint { btype: u8, addr: u32 },
    /// Clear every breakpoint and watchpoint, resume, answer OK.
    Detach,
}

/// The value of a request.
#[verifier::ext_equal]
pub enum Req {
    Reply(Seq<u8>),
    Error,
    ReadMemory(u32, u32),
    WriteMemory(u32, Seq<u8>, WriteOutcome),
    ReadRegisters,
    WriteRegisters(Seq<u32>, Option<Seq<u32>>),
    WriteRegister(u32, u32),
    Resume(Option<u32>),
    Step(Option<u32>),
    StepWithBadAddress,
    AddBreakpoint(u8, u32),
    DelBreakpoint(u8, u32),
    Detach,
}

impl View for GdbRequest {
    type V = Req;

    open spec fn view(&self) -> Req {
        match self {
            GdbRequest::Reply(v) => Req::Reply(v@),
            GdbRequest::Error => Req::Error,
            GdbRequest::ReadMemory { addr, len } => Req::ReadMemory(*addr, *len),
            GdbRequest::WriteMemory { addr, data, outcome } => Req::WriteMemory(*addr, data@, *outcome),
            GdbRequest::ReadRegisters => Req::ReadRegisters,
            GdbRequest::WriteRegisters { gprs, special } => Req::WriteRegisters(gprs@, match special {
                Some(v) => Some(v@),
                None => None,
            }),
            GdbRequest::WriteRegister { reg, value } => Req::WriteRegister(*reg, *value),
            GdbRequest::Resume { addr } => Req::Resume(*addr),
            GdbRequest::Step { addr } => Req::Step(*addr),
            GdbRequest::StepWithBadAddress => Req::StepWithBadAddress,
            GdbRequest::AddBreakpoint { btype, addr } => Req::AddBreakpoint(*btype, *addr),
            GdbRequest::DelBreakpoint { btype, addr } => Req::DelBreakpoint(*btype, *addr),
            GdbRequest::Detach => Req::Detach,
        }
    }
}

/// "OK".
pub open spec fn ok_reply() -> Req {
    Req::Reply("OK".spec_bytes())
}

/// The byte that data pair `j` of `d` stands for.
pub open spec fn pair_byte(d: Seq<u8>, j: int) -> u8 {
    ((hex_val(d[2 * j]) << 4u8) | hex_val(d[2 * j + 1])) as u8
}

/// The first pair at or after `j` and before `n` that is not two hexadecimal digits, or `n`.
pub open spec fn first_bad_pair(d: Seq<u8>, j: int, n: int) -> int
    decreases n - j,
{
    if j >= n { n } else if !(is_hex(d[2 * j]) && is_hex(d[2 * j + 1])) { j } else { first_bad_pair(d, j + 1, n) }
}

/// The bytes written for a write-memory request of `len` bytes with data `d`, and what
/// to answer: bytes are taken until one is missing or not hexadecimal.
pub open spec fn write_data(d: Seq<u8>, len: u32) -> (Seq<u8>, WriteOutcome) {
    let avail: int = if (len as int) < d.len() / 2 { len as int } else { (d.len() / 2) as int };
    let m = first_bad_pair(d, 0, avail);
    (Seq::new(m as nat, |j: int| pair_byte(d, j)), if m < avail {
        WriteOutcome::BadHex
    } else if avail < len {
        WriteOutcome::Short
    } else {
        WriteOutcome::Complete
    })
}

/// "M addr,len:data".
pub open spec fn write_memory_of(a: Seq<u8>) -> Result<Req, ()> {
    let k = find_from(a, 0, 0x3a);
    if k >= a.len() {
        Err(())
    } else {
        let d = a.subrange(k + 1, find_from(a, k + 1, 0x3a));
        match addr_len_of(a.subrange(0, k)) {
            None => Err(()),
            Some((addr, len)) => Ok(Req::WriteMemory(addr, write_data(d, len).0, write_data(d, len).1)),
        }
    }
}

/// Register field `i` (8 hexadecimal digits) of a write-registers request.
pub open spec fn reg_field(a: Seq<u8>, i: int) -> Seq<u8> {
    a.subrange(8 * i, 8 * i + 8)
}

/// The first field at or after `i` and before `n` that is not hexadecimal, or `n`.
pub open spec fn first_bad_field(a: Seq<u8>, i: int, n: int) -> int
    decreases n - i,
{
    if i >= n { n } else if !all_hex(reg_field(a, i)) { i } else { first_bad_field(a, i + 1, n) }
}

/// "G" followed by 38 registers of 8 digits: registers 1 to 31 are set until one does
/// not parse; then the six special registers, all or none.
pub open spec fn write_registers_of(a: Seq<u8>) -> Req {
    if a.len() < 38 * 8 {
        Req::Error
    } else {
        let m = first_bad_field(a, 1, 32);
        let gprs = Seq::new((m - 1) as nat, |i: int| hex_value(reg_field(a, i + 1)));
        if m < 32 {
            Req::WriteRegisters(gprs, None)
        } else if first_bad_field(a, 32, 38) < 38 {
            Req::WriteRegisters(gprs, None)
        } else {
            Req::WriteRegisters(gprs, Some(Seq::new(6, |i: int| hex_value(reg_field(a, i + 32)))))
        }
    }
}

/// "P reg=value".
pub open spec fn write_register_of(a: Seq<u8>) -> Result<Req, ()> {
    let k = find_from(a, 0, 0x3d);
    if k >= a.len() {
        Err(())
    } else {
        let r = a.subrange(0, k);
        let v = a.subrange(k + 1, find_from(a, k + 1, 0x3d));
        if !all_hex(r) || !all_hex(v) {
            Err(())
        } else if hex_value(r) == 0 {
            Ok(ok_reply())
        } else if hex_value(r) <= 37 {
            Ok(Req::WriteRegister(hex_value(r), hex_value(v)))
        } else {
            Ok(Req::Error)
        }
    }
}

/// The answer to a symbol query.
pub open spec fn symbol_reply_of(a: Seq<u8>) -> Result<Req, ()> {
    if starts(a, "Symbol::".spec_bytes()) {
        Ok(ok_reply())
    } else if starts(a, "Symbol:".spec_bytes()) {
        let d = a.subrange("Symbol:".spec_bytes().len() as int, a.len() as int);
        let k = find_from(d, 0, 0x3a);
        if k < d.len() && find_from(d, k + 1, 0x3a) == d.len() {
            match hex_bytes(d.subrange(k + 1, d.len() as int)) {
                Some(b) => if valid_utf8(b) { Ok(ok_reply()) } else { Err(()) },
                None => Err(()),
            }
        } else {
            Ok(ok_reply())
        }
    } else {
        Ok(Req::Reply(Seq::empty()))
    }
}

/// The answer to a query.
pub open spec fn query_of(a: Seq<u8>) -> Result<Req, ()> {
    if starts(a, "Supported".spec_bytes()) {
        Ok(Req::Reply("PacketSize=1000;qXfer:features:read+;qXfer:threads:read+;QStartNoAckMode+;multiprocess+;swbreak+;hwbreak+".spec_bytes()))
    } else if starts(a, "Attached".spec_bytes()) {
        Ok(Req::Reply("1".spec_bytes()))
    } else if starts(a, "fThreadInfo".spec_bytes()) {
        Ok(Req::Reply("m1".spec_bytes()))
    } else if starts(a, "sThreadInfo".spec_bytes()) {
        Ok(Req::Reply("l".spec_bytes()))
    } else if starts(a, "ThreadExtraInfo".spec_bytes()) {
        Ok(Req::Reply("PSX Main CPU".spec_bytes()))
    } else if starts(a, "Symbol".spec_bytes()) {
        symbol_reply_of(a)
    } else if starts(a, "Offsets".spec_bytes()) {
        Ok(Req::Reply("Text=0;Data=0;Bss=0".spec_bytes()))
    } else {
        Ok(Req::Reply(Seq::empty()))
    }
}

/// The answer to a "v" packet.
pub open spec fn v_packet_of(a: Seq<u8>) -> Req {
    if starts(a, "Cont?".spec_bytes()) {
        Req::Reply("vCont;c;s;C;S".spec_bytes())
    } else if starts(a, "Cont".spec_bytes()) {
        let cmd = a.subrange("Cont".spec_bytes().len() as int, a.len() as int);
        if starts(cmd, ";c".spec_bytes()) {
            Req::Resume(None)
        } else if starts(cmd, ";s".spec_bytes()) {
            Req::Step(None)
        } else {
            Req::Error
        }
    } else if starts(a, "Kill".spec_bytes()) {
        ok_reply()
    } else {
        Req::Reply(Seq::empty())
    }
}

/// A breakpoint request: `add` for "Z", remove for "z".
pub open spec fn breakpoint_req_of(a: Seq<u8>, add: bool) -> Result<Req, ()> {
    if add && find_from(a, 0, 0x3b) < a.len() {
        Ok(Req::Error)
    } else {
        match breakpoint_of(a) {
            None => Err(()),
            Some((t, addr, kind)) => if kind != 0x34 {
                Ok(Req::Error)
            } else if t == 0x30 || t == 0x32 || t == 0x33 {
                Ok(if add { Req::AddBreakpoint(t, addr) } else { Req::DelBreakpoint(t, addr) })
            } else {
                Ok(Req::Reply(Seq::empty()))
            },
        }
    }
}

/// The request in packet `p` (a command byte and its arguments), or `Err` when its
/// arguments are malformed in a way that ends the session.
pub open spec fn request_of(p: Seq<u8>) -> Result<Req, ()> {
    let c = p[0];
    let a = p.subrange(1, p.len() as int);
    if c == 0x3f {
        Ok(Req::Reply("S00".spec_bytes()))
    } else if c == 0x6d {
        match addr_len_of(a) {
            None => Err(()),
            Some((addr, len)) => Ok(if len == 0 { Req::Error } else { Req::ReadMemory(addr, len) }),
        }
    } else if c == 0x4d {
        write_memory_of(a)
    } else if c == 0x67 {
        Ok(Req::ReadRegisters)
    } else if c == 0x47 {
        Ok(write_registers_of(a))
    } else if c == 0x50 {
        write_register_of(a)
    } else if c == 0x63 {
        if a.len() == 0 { Ok(Req::Resume(None)) } else if all_hex(a) { Ok(Req::Resume(Some(hex_value(a)))) } else { Err(()) }
    } else if c == 0x73 {
        Ok(if a.len() == 0 { Req::Step(None) } else if all_hex(a) { Req::Step(Some(hex_value(a))) } else { Req::StepWithBadAddress })
    } else if c == 0x5a {
        breakpoint_req_of(a, true)
    } else if c == 0x7a {
        breakpoint_req_of(a, false)
    } else if c == 0x71 {
        query_of(a)
    } else if c == 0x51 {
        Ok(if starts(a, "StartNoAckMode".spec_bytes()) { ok_reply() } else { Req::Reply(Seq::empty()) })
    } else if c == 0x6b || c == 0x48 || c == 0x54 {
        Ok(ok_reply())
    } else if c == 0x44 {
        Ok(Req::Detach)
    } else if c == 0x76 {
        Ok(v_packet_of(a))
    } else {
        Ok(Req::Reply(Seq::empty()))
    }
}


fn reply(s: &str) -> (r: GdbRequest)
    ensures
        r@ == Req::Reply(s.spec_bytes()),
{
    GdbRequest::Reply(bytes_vec(s))
}

fn empty_reply() -> (r: GdbRequest)
    ensures
        r@ == Req::Reply(Seq::empty()),
{
    let v: Vec<u8> = Vec::new();
    assert(v@ =~= Seq::<u8>::empty());
    GdbRequest::Reply(v)
}

fn decode_write_memory(a: &[u8]) -> (r: Result<GdbRequest, ()>)
    ensures
        match r {
            Ok(q) => write_memory_of(a@) matches Ok(x) && x =~~= q@,
            Err(_) => write_memory_of(a@) is Err,
        },
{
    let k = find_byte(a, 0, 0x3a);
    proof { lemma_find_from_bounds(a@, 0, 0x3a); }
    if k >= a.len() {
        return Err(());
    }
    let e = find_byte(a, k + 1, 0x3a);
    proof {
        lemma_find_from_bounds(a@, k + 1, 0x3a);
    }
    let addr_len = slice_of(a, 0, k);
    let data = slice_of(a, k + 1, e);
    let (addr, len) = match parse_addr_len(addr_len.as_slice()) {
        Ok(v) => v,
        Err(_) => {
            return Err(());
        },
    };
    let ghost d = data@;
    assert(write_memory_of(a@) == Ok::<Req, ()>(Req::WriteMemory(addr, write_data(d, len).0, write_data(d, len).1)));
    let dl = data.len();
    let avail: usize = if (len as usize) < data.len() / 2 { len as usize } else { data.len() / 2 };
    assert(avail as int == (if (len as int) < d.len() / 2 { len as int } else { (d.len() / 2) as int }));
    let mut bytes: Vec<u8> = Vec::new();
    let mut i: usize = 0;
    while i < avail
        invariant
            d == data@,
            dl == d.len(),
            write_memory_of(a@) == Ok::<Req, ()>(Req::WriteMemory(addr, write_data(d, len).0, write_data(d, len).1)),
            avail as int == (if (len as int) < d.len() / 2 { len as int } else { (d.len() / 2) as int }),
            avail <= d.len() / 2,
            i <= avail,
            first_bad_pair(d, 0, avail as int) == first_bad_pair(d, i as int, avail as int),
            bytes@ == Seq::new(i as nat, |j: int| pair_byte(d, j)),
        decreases avail - i,
    {
        assert(2 * i + 1 < d.len());
        let h = ascii_hex(data[2 * i]);
        let l = ascii_hex(data[2 * i + 1]);
        match (h, l) {
            (Some(hv), Some(lv)) => {
                bytes.push((hv << 4) | lv);
                i = i + 1;
                assert(bytes@ =~= Seq::new(i as nat, |j: int| pair_byte(d, j)));
            },
            _ => {
                assert(first_bad_pair(d, 0, avail as int) == i);
                assert(write_data(d, len).1 == WriteOutcome::BadHex);
                assert(write_data(d, len).0 =~= bytes@);
                return Ok(GdbRequest::WriteMemory { addr, data: bytes, outcome: WriteOutcome::BadHex });
            },
        }
    }
    assert(first_bad_pair(d, 0, avail as int) == avail);
    let outcome = if avail < len as usize { WriteOutcome::Short } else { WriteOutcome::Complete };
    Ok(GdbRequest::WriteMemory { addr, data: bytes, outcome })
}

proof fn lemma_first_bad_field_bounds(a: Seq<u8>, i: int, n: int)
    requires
        i <= n,
    ensures
        i <= first_bad_field(a, i, n) <= n,
        forall|j: int| i <= j < first_bad_field(a, i, n) ==> all_hex(#[trigger] reg_field(a, j)),
    decreases n - i,
{
    if i < n && all_hex(reg_field(a, i)) {
        lemma_first_bad_field_bounds(a, i + 1, n);
    }
}

fn parse_field(a: &[u8], i: usize) -> (r: Result<u32, ()>)
    requires
        8 * i + 8 <= a@.len(),
    ensures
        all_hex(reg_field(a@, i as int)) ==> r == Ok::<u32, ()>(hex_value(reg_field(a@, i as int))),
        !all_hex(reg_field(a@, i as int)) ==> r is Err,
{
    let n = a.len();
    assert(8 * i + 8 <= n);
    let f = slice_of(a, 8 * i, 8 * i + 8);
    parse_hex(f.as_slice())
}

fn decode_write_registers(a: &[u8]) -> (r: GdbRequest)
    ensures
        r@ == write_registers_of(a@),
{
    if a.len() < 38 * 8 {
        return GdbRequest::Error;
    }
    let mut gprs: Vec<u32> = Vec::new();
    let mut i: usize = 1;
    while i < 32
        invariant
            a@.len() >= 38 * 8,
            1 <= i <= 32,
            first_bad_field(a@, 1, 32) == first_bad_field(a@, i as int, 32),
            gprs@ == Seq::new((i - 1) as nat, |j: int| hex_value(reg_field(a@, j + 1))),
        decreases 32 - i,
    {
        match parse_field(a, i) {
            Ok(v) => {
                gprs.push(v);
                i = i + 1;
                assert(gprs@ =~= Seq::new((i - 1) as nat, |j: int| hex_value(reg_field(a@, j + 1))));
            },
            Err(_) => {
                assert(first_bad_field(a@, 1, 32) == i);
                assert(write_registers_of(a@) == Req::WriteRegisters(gprs@, None));
                let r = GdbRequest::WriteRegisters { gprs, special: None };
                assert(r@ == Req::WriteRegisters(gprs@, None));
                return r;
            },
        }
    }
    let mut special: Vec<u32> = Vec::new();
    let mut j: usize = 32;
    while j < 38
        invariant
            a@.len() >= 38 * 8,
            32 <= j <= 38,
            first_bad_field(a@, 1, 32) == 32,
            gprs@ == Seq::new(31, |k: int| hex_value(reg_field(a@, k + 1))),
            first_bad_field(a@, 32, 38) == first_bad_field(a@, j as int, 38),
            special@ == Seq::new((j - 32) as nat, |k: int| hex_value(reg_field(a@, k + 32))),
        decreases 38 - j,
    {
        match parse_field(a, j) {
            Ok(v) => {
                special.push(v);
                j = j + 1;
                assert(special@ =~= Seq::new((j - 32) as nat, |k: int| hex_value(reg_field(a@, k + 32))));
            },
            Err(_) => {
                assert(first_bad_field(a@, 32, 38) == j);
                return GdbRequest::WriteRegisters { gprs, special: None };
            },
        }
    }
    assert(special@ =~= Seq::new(6, |k: int| hex_value(reg_field(a@, k + 32))));
    assert(gprs@ =~= Seq::new(31, |k: int| hex_value(reg_field(a@, k + 1))));
    GdbRequest::WriteRegisters { gprs, special: Some(special) }
}

fn decode_write_register(a: &[u8]) -> (r: Result<GdbRequest, ()>)
    ensures
        match r {
            Ok(q) => write_register_of(a@) matches Ok(x) && x =~~= q@,
            Err(_) => write_register_of(a@) is Err,
        },
{
    let k = find_byte(a, 0, 0x3d);
    proof { lemma_find_from_bounds(a@, 0, 0x3d); }
    if k >= a.len() {
        return Err(());
    }
    let e = find_byte(a, k + 1, 0x3d);
    proof {
        lemma_find_from_bounds(a@, k + 1, 0x3d);
    }
    let reg_hex = slice_of(a, 0, k);
    let value_hex = slice_of(a, k + 1, e);
    let reg = match parse_hex(reg_hex.as_slice()) {
        Ok(v) => v,
        Err(_) => {
            return Err(());
        },
    };
    let value = match parse_hex(value_hex.as_slice()) {
        Ok(v) => v,
        Err(_) => {
            return Err(());
        },
    };
    if reg == 0 {
        Ok(reply("OK"))
    } else if reg <= 37 {
        Ok(GdbRequest::WriteRegister { reg, value })
    } else {
        Ok(GdbRequest::Error)
    }
}

fn rest(a: &[u8], from: usize) -> (r: Vec<u8>)
    requires
        from <= a@.len(),
    ensures
        r@ == a@.subrange(from as int, a@.len() as int),
{
    slice_of(a, from, a.len())
}

fn decode_symbol(a: &[u8]) -> (r: Result<GdbRequest, ()>)
    ensures
        match r {
            Ok(q) => symbol_reply_of(a@) matches Ok(x) && x =~~= q@,
            Err(_) => symbol_reply_of(a@) is Err,
        },
{
    if starts_with(a, "Symbol::".as_bytes()) {
        Ok(reply("OK"))
    } else if starts_with(a, "Symbol:".as_bytes()) {
        let skip = "Symbol:".as_bytes().len();
        let d = rest(a, skip);
        let k = find_byte(d.as_slice(), 0, 0x3a);
        proof { lemma_find_from_bounds(d@, 0, 0x3a); }
        if k < d.len() {
            let k2 = find_byte(d.as_slice(), k + 1, 0x3a);
            if k2 == d.len() {
                let name_hex = rest(d.as_slice(), k + 1);
                match decode_hex_string(name_hex.as_slice()) {
                    Ok(_) => Ok(reply("OK")),
                    Err(_) => Err(()),
                }
            } else {
                Ok(reply("OK"))
            }
        } else {
            Ok(reply("OK"))
        }
    } else {
        Ok(empty_reply())
    }
}

fn decode_query(a: &[u8]) -> (r: Result<GdbRequest, ()>)
    ensures
        match r {
            Ok(q) => query_of(a@) matches Ok(x) && x =~~= q@,
            Err(_) => query_of(a@) is Err,
        },
{
    if starts_with(a, "Supported".as_bytes()) {
        Ok(reply("PacketSize=1000;qXfer:features:read+;qXfer:threads:read+;QStartNoAckMode+;multiprocess+;swbreak+;hwbreak+"))
    } else if starts_with(a, "Attached".as_bytes()) {
        Ok(reply("1"))
    } else if starts_with(a, "fThreadInfo".as_bytes()) {
        Ok(reply("m1"))
    } else if starts_with(a, "sThreadInfo".as_bytes()) {
        Ok(reply("l"))
    } else if starts_with(a, "ThreadExtraInfo".as_bytes()) {
        Ok(reply("PSX Main CPU"))
    } else if starts_with(a, "Symbol".as_bytes()) {
        decode_symbol(a)
    } else if starts_with(a, "Offsets".as_bytes()) {
        Ok(reply("Text=0;Data=0;Bss=0"))
    } else {
        Ok(empty_reply())
    }
}

fn decode_v(a: &[u8]) -> (r: GdbRequest)
    ensures
        r@ =~~= v_packet_of(a@),
{
    if starts_with(a, "Cont?".as_bytes()) {
        reply("vCont;c;s;C;S")
    } else if starts_with(a, "Cont".as_bytes()) {
        let skip = "Cont".as_bytes().len();
        let cmd = rest(a, skip);
        if starts_with(cmd.as_slice(), ";c".as_bytes()) {
            GdbRequest::Resume { addr: None }
        } else if starts_with(cmd.as_slice(), ";s".as_bytes()) {
            GdbRequest::Step { addr: None }
        } else {
            GdbRequest::Error
        }
    } else if starts_with(a, "Kill".as_bytes()) {
        reply("OK")
    } else {
        empty_reply()
    }
}

fn decode_breakpoint(a: &[u8], add: bool) -> (r: Result<GdbRequest, ()>)
    ensures
        match r {
            Ok(q) => breakpoint_req_of(a@, add) matches Ok(x) && x =~~= q@,
            Err(_) => breakpoint_req_of(a@, add) is Err,
        },
{
    if add && find_byte(a, 0, 0x3b) < a.len() {
        return Ok(GdbRequest::Error);
    }
    match parse_breakpoint(a) {
        Err(_) => Err(()),
        Ok((btype, addr, kind)) => {
            if kind != 0x34 {
                Ok(GdbRequest::Error)
            } else if btype == 0x30 || btype == 0x32 || btype == 0x33 {
                Ok(if add { GdbRequest::AddBreakpoint { btype, addr } } else { GdbRequest::DelBreakpoint { btype, addr } })
            } else {
                Ok(empty_reply())
            }
        },
    }
}

/// Decode a received packet into the request it makes. `Err` means malformed
/// arguments that end the session.
pub fn decode_request(packet: &[u8]) -> (r: Result<GdbRequest, ()>)
    requires
        packet@.len() > 0,
    ensures
        match r {
            Ok(q) => request_of(packet@) matches Ok(x) && x =~~= q@,
            Err(_) => request_of(packet@) is Err,
        },
{
    let command = packet[0];
    let args = rest(packet, 1);
    let a = args.as_slice();
    if command == 0x3f {
        Ok(reply("S00"))
    } else if command == 0x6d {
        match parse_addr_len(a) {
            Err(_) => Err(()),
            Ok((addr, len)) => Ok(if len == 0 { GdbRequest::Error } else { GdbRequest::ReadMemory { addr, len } }),
        }
    } else if command == 0x4d {
        decode_write_memory(a)
    } else if command == 0x67 {
        Ok(GdbRequest::ReadRegisters)
    } else if command == 0x47 {
        Ok(decode_write_registers(a))
    } else if command == 0x50 {
        decode_write_register(a)
    } else if command == 0x63 {
        if a.len() == 0 {
            Ok(GdbRequest::Resume { addr: None })
        } else {
            match parse_hex(a) {
                Ok(v) => Ok(GdbRequest::Resume { addr: Some(v) }),
                Err(_) => Err(()),
            }
        }
    } else if command == 0x73 {
        if a.len() == 0 {
            Ok(GdbRequest::Step { addr: None })
        } else {
            match parse_hex(a) {
                Ok(v) => Ok(GdbRequest::Step { addr: Some(v) }),
                Err(_) => Ok(GdbRequest::StepWithBadAddress),
            }
        }
    } else if command == 0x5a {
        decode_breakpoint(a, true)
    } else if command == 0x7a {
        decode_breakpoint(a, false)
    } else if command == 0x71 {
        decode_query(a)
    } else if command == 0x51 {
        Ok(if starts_with(a, "StartNoAckMode".as_bytes()) { reply("OK") } else { empty_reply() })
    } else if command == 0x6b || command == 0x48 || command == 0x54 {
        Ok(reply("OK"))
    } else if command == 0x44 {
        Ok(GdbRequest::Detach)
    } else if command == 0x76 {
        Ok(decode_v(a))
    } else {
        Ok(empty_reply())
    }
}


/// One access of a memory read.
#[derive(Debug, Clone, Copy, PartialEq, Eq, Structural)]
pub enum MemoryRead {
    Byte(u32),
    Half(u32),
    Word(u32),
}

/// Where a word read takes its value from: coprocessor 0 registers are mapped at
/// 0xBAD00000 (four bytes each); the rest of that range reads as 0x0BAD0BAD.
#[derive(Debug, Clone, Copy, PartialEq, Eq, Structural)]
pub enum WordSource {
    Cop0(u8),
    Constant(u32),
    Memory(u32),
}

/// The source of a word read at `addr`.
pub open spec fn word_source_of(addr: u32) -> WordSource {
    if 0xbad0_0000 <= addr <= 0xbad0_ffff {
        let off = (addr - 0xbad0_0000) / 4;
        if off <= 31 { WordSource::Cop0(off as u8) } else { WordSource::Constant(0x0bad_0bad) }
    } else {
        WordSource::Memory(addr)
    }
}

/// The source of a word read at `addr`.
pub fn examine_word(addr: u32) -> (r: WordSource)
    ensures
        r == word_source_of(addr),
{
    if addr >= 0xbad0_0000 && addr <= 0xbad0_ffff {
        let off = (addr - 0xbad0_0000) / 4;
        if off <= 31 {
            WordSource::Cop0(off as u8)
        } else {
            WordSource::Constant(0x0bad_0bad)
        }
    } else {
        WordSource::Memory(addr)
    }
}

/// `n` byte reads from `addr` on (wrapping).
pub open spec fn byte_reads(addr: u32, n: nat) -> Seq<MemoryRead> {
    Seq::new(n, |i: int| MemoryRead::Byte(((addr + i) % 0x1_0000_0000) as u32))
}

/// The leading accesses of a read of `len` bytes at `addr` that bring it to a word
/// boundary, and how many bytes they cover.
pub open spec fn head_reads(addr: u32, len: u32) -> (Seq<MemoryRead>, nat) {
    let align = addr % 4;
    if align == 1 || align == 3 {
        let count: nat = if len < 4 - align { len as nat } else { (4 - align) as nat };
        (byte_reads(addr, count), count)
    } else if align == 2 {
        if len == 1 { (seq![MemoryRead::Byte(addr)], 1) } else { (seq![MemoryRead::Half(addr)], 2) }
    } else {
        (Seq::empty(), 0)
    }
}

/// The accesses of a read of `len` bytes at `addr`: bytes or a half-word up to a word
/// boundary, whole words, then the remaining bytes or half-word.
pub open spec fn read_plan_of(addr: u32, len: u32) -> Seq<MemoryRead> {
    let h = head_reads(addr, len);
    let a1 = ((addr + h.1) % 0x1_0000_0000) as u32;
    let l1 = len - h.1;
    let nwords = l1 / 4;
    let words = Seq::new(nwords as nat, |i: int| MemoryRead::Word((a1 + i * 4) as u32));
    let a2 = ((a1 + nwords * 4) % 0x1_0000_0000) as u32;
    let rem = l1 - nwords * 4;
    let tail = if rem == 1 || rem == 3 {
        byte_reads(a2, rem as nat)
    } else if rem == 2 {
        seq![MemoryRead::Half(a2)]
    } else {
        Seq::empty()
    };
    h.0 + words + tail
}

fn push_bytes(reads: &mut Vec<MemoryRead>, addr: u32, n: u32)
    ensures
        final(reads)@ == old(reads)@ + byte_reads(addr, n as nat),
{
    let ghost start = reads@;
    let mut i: u32 = 0;
    while i < n
        invariant
            i <= n,
            reads@ == start + byte_reads(addr, i as nat),
        decreases n - i,
    {
        reads.push(MemoryRead::Byte(addr.wrapping_add(i)));
        i = i + 1;
        assert(reads@ =~= start + byte_reads(addr, i as nat));
    }
}

fn head_plan(reads: &mut Vec<MemoryRead>, addr: u32, len: u32) -> (sent: u32)
    requires
        len > 0,
    ensures
        final(reads)@ == old(reads)@ + head_reads(addr, len).0,
        sent == head_reads(addr, len).1,
        sent <= len,
{
    let align = addr % 4;
    if align == 1 || align == 3 {
        let count = if len < 4 - align { len } else { 4 - align };
        push_bytes(reads, addr, count);
        count
    } else if align == 2 {
        if len == 1 {
            reads.push(MemoryRead::Byte(addr));
            1
        } else {
            reads.push(MemoryRead::Half(addr));
            2
        }
    } else {
        0
    }
}

fn word_plan(reads: &mut Vec<MemoryRead>, addr1: u32, nwords: u32)
    requires
        addr1 + nwords * 4 <= 0x1_0000_0000,
    ensures
        final(reads)@ == old(reads)@ + Seq::new(nwords as nat, |k: int| MemoryRead::Word((addr1 + k * 4) as u32)),
{
    let ghost head = reads@;
    let mut i: u32 = 0;
    while i < nwords
        invariant
            i <= nwords,
            addr1 + nwords * 4 <= 0x1_0000_0000,
            reads@ == head + Seq::new(i as nat, |k: int| MemoryRead::Word((addr1 + k * 4) as u32)),
        decreases nwords - i,
    {
        reads.push(MemoryRead::Word(addr1 + i * 4));
        i = i + 1;
        assert(reads@ =~= head + Seq::new(i as nat, |k: int| MemoryRead::Word((addr1 + k * 4) as u32)));
    }
}

/// The accesses that answer a read of `len` bytes at `addr` (at least one; an empty
/// read is answered with an error before). The word-aligned middle must not run past
/// the top of the address space.
#[verifier::rlimit(30)]
pub fn read_plan(addr: u32, len: u32) -> (r: Vec<MemoryRead>)
    requires
        len > 0,
        ({
            let h = head_reads(addr, len);
            let a1 = (addr + h.1) % 0x1_0000_0000;
            a1 + (len - h.1) / 4 * 4 <= 0x1_0000_0000
        }),
    ensures
        r@ == read_plan_of(addr, len),
{
    let mut reads: Vec<MemoryRead> = Vec::new();
    let sent = head_plan(&mut reads, addr, len);
    let addr1 = addr.wrapping_add(sent);
    let len1 = len - sent;
    let nwords = len1 / 4;
    word_plan(&mut reads, addr1, nwords);
    let addr2 = addr1.wrapping_add(nwords * 4);
    let rem = len1 - nwords * 4;
    if rem == 1 || rem == 3 {
        push_bytes(&mut reads, addr2, rem);
    } else if rem == 2 {
        reads.push(MemoryRead::Half(addr2));
    }
    assert(reads@ =~= read_plan_of(addr, len));
    reads
}

} // verus!
