//! Facts about masks on machine words, shared by the modules that decode registers,
//! instruction fields and addresses.

use vstd::prelude::*;

verus! {

/// Masking a word gives at most the mask and at most the word.
pub proof fn lemma_and_le(x: u32, m: u32)
    by (bit_vector)
    ensures
        x & m <= m,
        x & m <= x,
{
}

/// Masking an index gives at most the mask.
pub proof fn lemma_and_le_usize(x: usize, m: usize)
    by (bit_vector)
    ensures
        x & m <= m,
{
}

/// Masking a byte gives at most the mask.
pub proof fn lemma_and_le_u8(x: u8, m: u8)
    by (bit_vector)
    ensures
        x & m <= m,
{
}

/// An even word is below the largest word, so the next address does not wrap.
pub proof fn lemma_even_below_max(x: u32)
    by (bit_vector)
    ensures
        x & 1 == 0 ==> x < 0xffffffff,
{
}

/// The low five bits of an index are its remainder by 32.
pub proof fn lemma_low5(i: usize)
    by (bit_vector)
    ensures
        i & 0x1f == i % 32,
{
}

} // verus!
