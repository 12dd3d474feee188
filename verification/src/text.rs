//! Number formatting for messages, reports and protocol replies: lowercase hexadecimal
//! with a fixed number of digits, and unsigned decimal.

use vstd::prelude::*;
use vstd::string::StringExecFns;
use vstd::string::StrSliceExecFns;
use vstd::utf8::{decode_utf8, valid_utf8};

verus! {

/// The hexadecimal digit of `n` (0..=15), lowercase.
pub open spec fn hex_digit(n: u32) -> char {
    if n < 10 { ((n + 0x30) as u8) as char } else { ((n - 10 + 0x61) as u8) as char }
}

/// The low `n` nibbles of `v` as lowercase hexadecimal digits, most significant first.
pub open spec fn hex_digits(v: u32, n: nat) -> Seq<char> {
    Seq::new(n, |i: int| hex_digit((v >> (4 * (n - 1 - i)) as u32) & 0xf))
}

/// `v` as "0x" and eight lowercase hexadecimal digits.
pub open spec fn hex_str(v: u32) -> Seq<char> {
    "0x"@ + hex_digits(v, 8)
}

/// The decimal digit of `n` (0..=9).
pub open spec fn dec_digit(n: nat) -> char {
    ((n + 0x30) as u8) as char
}

/// `n` in decimal, without leading zeros.
pub open spec fn dec_str(n: nat) -> Seq<char>
    decreases n,
{
    if n < 10 { seq![dec_digit(n)] } else { dec_str(n / 10) + seq![dec_digit(n % 10)] }
}

/// The one-character string of hexadecimal digit `n`.
pub fn digit_str(n: u32) -> (r: &'static str)
    requires
        n < 16,
    ensures
        r@ == seq![hex_digit(n)],
{
    proof {
        reveal_strlit("0");
        reveal_strlit("1");
        reveal_strlit("2");
        reveal_strlit("3");
        reveal_strlit("4");
        reveal_strlit("5");
        reveal_strlit("6");
        reveal_strlit("7");
        reveal_strlit("8");
        reveal_strlit("9");
        reveal_strlit("a");
        reveal_strlit("b");
        reveal_strlit("c");
        reveal_strlit("d");
        reveal_strlit("e");
        reveal_strlit("f");
    }
    let r = match n {
        0 => "0",
        1 => "1",
        2 => "2",
        3 => "3",
        4 => "4",
        5 => "5",
        6 => "6",
        7 => "7",
        8 => "8",
        9 => "9",
        10 => "a",
        11 => "b",
        12 => "c",
        13 => "d",
        14 => "e",
        _ => "f",
    };
    assert(r@ =~= seq![hex_digit(n)]);
    r
}

/// Append the low `n` nibbles of `v` in hexadecimal.
pub fn append_hex_digits(s: &mut String, v: u32, n: u32)
    requires
        n <= 8,
    ensures
        final(s)@ == old(s)@ + hex_digits(v, n as nat),
{
    let ghost base = old(s)@;
    let mut i: u32 = 0;
    while i < n
        invariant
            i <= n <= 8,
            s@ == base + Seq::new(i as nat, |k: int| hex_digit((v >> (4 * (n - 1 - k)) as u32) & 0xf)),
        decreases n - i,
    {
        let shift: u32 = 4 * (n - 1 - i);
        let d = (v >> shift) & 0xf;
        proof { crate::bits::lemma_and_le(v >> shift, 0xf); }
        s.append(digit_str(d));
        i = i + 1;
        assert(s@ =~= base + Seq::new(i as nat, |k: int| hex_digit((v >> (4 * (n - 1 - k)) as u32) & 0xf)));
    }
    assert(s@ =~= old(s)@ + hex_digits(v, n as nat));
}

/// Append `v` as "0x" and eight hexadecimal digits.
pub fn append_hex(s: &mut String, v: u32)
    ensures
        final(s)@ == old(s)@ + hex_str(v),
{
    proof { reveal_strlit("0x"); }
    s.append("0x");
    append_hex_digits(s, v, 8);
    assert(s@ =~= old(s)@ + hex_str(v));
}

/// How many hexadecimal digits `v` takes without leading zeros (one for zero).
pub open spec fn hex_len(v: u32) -> nat {
    if v < 0x10 { 1 }
    else if v < 0x100 { 2 }
    else if v < 0x1000 { 3 }
    else if v < 0x1_0000 { 4 }
    else if v < 0x10_0000 { 5 }
    else if v < 0x100_0000 { 6 }
    else if v < 0x1000_0000 { 7 }
    else { 8 }
}

/// Append `v` in lowercase hexadecimal without leading zeros.
pub fn append_hex_short(s: &mut String, v: u32)
    ensures
        final(s)@ == old(s)@ + hex_digits(v, hex_len(v)),
{
    let n: u32 = if v < 0x10 { 1 }
        else if v < 0x100 { 2 }
        else if v < 0x1000 { 3 }
        else if v < 0x1_0000 { 4 }
        else if v < 0x10_0000 { 5 }
        else if v < 0x100_0000 { 6 }
        else if v < 0x1000_0000 { 7 }
        else { 8 };
    append_hex_digits(s, v, n);
}

/// Append `v` in decimal.
pub fn append_dec(s: &mut String, v: u64)
    ensures
        final(s)@ == old(s)@ + dec_str(v as nat),
    decreases v,
{
    if v >= 10 {
        append_dec(s, v / 10);
    }
    let d = (v % 10) as u32;
    let ds = digit_str(d);
    assert(ds@ == seq![dec_digit((v % 10) as nat)]);
    s.append(ds);
    assert(s@ =~= old(s)@ + dec_str(v as nat));
}

/// `v` in decimal, as a new string.
pub fn dec_string(v: u64) -> (r: String)
    ensures
        r@ == dec_str(v as nat),
{
    let mut s = String::new();
    append_dec(&mut s, v);
    assert(s@ =~= dec_str(v as nat));
    s
}

/// `String::from_utf8` from std: the bytes as text, or an error when they are not valid
/// UTF-8. The contract claims that the call succeeds exactly on valid UTF-8 (always on
/// ASCII bytes), and that the text is what the bytes encode.
#[verifier::external_body]
pub(crate) fn string_from_utf8(bytes: Vec<u8>) -> (r: Result<String, ()>)
    ensures
        (r is Ok) == valid_utf8(bytes@),
        r matches Ok(t) ==> t@ == decode_utf8(bytes@),
        (forall|i: int| 0 <= i < bytes@.len() ==> bytes@[i] < 0x80) ==> r is Ok,
{
    String::from_utf8(bytes).map_err(|_| ())
}

/// Whether two strings hold the same characters.
pub fn str_eq(a: &str, b: &str) -> (r: bool)
    ensures
        r == (a@ == b@),
{
    let n = a.unicode_len();
    if n != b.unicode_len() {
        return false;
    }
    let mut i: usize = 0;
    while i < n
        invariant
            n == a@.len() == b@.len(),
            i <= n,
            forall|j: int| 0 <= j < i ==> a@[j] == b@[j],
        decreases n - i,
    {
        if a.get_char(i) != b.get_char(i) {
            return false;
        }
        i = i + 1;
    }
    assert(a@ =~= b@);
    true
}

} // verus!
