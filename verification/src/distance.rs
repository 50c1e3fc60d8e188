//! The minimum distance of the code, and what follows from it: an error
//! pattern of low weight is known by its syndrome.

use vstd::prelude::*;
use crate::algebra::{is_codeword, lemma_encode_linear, lemma_encoded_is_codeword, lemma_syndrome_linear, lemma_systematic};
use crate::bits::{lemma_popcount_xor, lemma_xor, popcount};
use crate::codec::{encode_spec, syndrome};

verus! {

/// A codeword other than zero has at least eight bits set.
pub proof fn lemma_min_weight(c: u32)
    requires
        c < 0x100_0000,
        is_codeword(c),
        c != 0,
    ensures
        popcount(c) >= 8,
{
    assert(0 < c < 0x100_0000 && syndrome(c) == 0 ==> popcount(c) >= 8) by (bit_vector);
}

/// The codewords of two data words that differ in their 12 bits differ in
/// at least eight places.
pub proof fn lemma_min_distance(a: u16, b: u16)
    requires
        a & 0xfff != b & 0xfff,
    ensures
        popcount(encode_spec(a) ^ encode_spec(b)) >= 8,
{
    let c = encode_spec(a ^ b);
    lemma_encode_linear(a, b);
    lemma_encoded_is_codeword(a ^ b);
    lemma_systematic(a ^ b);
    assert(c != 0) by {
        assert(a & 0xfff != b & 0xfff ==> (a ^ b) & 0xfff != 0) by (bit_vector);
        assert(c >> 12 != 0 ==> c != 0) by (bit_vector);
    }
    lemma_min_weight(c);
}

/// Two error patterns with fewer than eight set bits between them and the
/// same syndrome are the same pattern.
pub proof fn lemma_unique_pattern(e1: u32, e2: u32)
    requires
        e1 < 0x100_0000,
        e2 < 0x100_0000,
        popcount(e1) + popcount(e2) < 8,
        syndrome(e1) == syndrome(e2),
    ensures
        e1 == e2,
{
    let d = e1 ^ e2;
    let s = syndrome(e1);
    lemma_popcount_xor(e1, e2);
    lemma_syndrome_linear(e1, e2);
    lemma_xor(s, s);
    lemma_xor(e1, e2);
    assert(d < 0x100_0000) by (bit_vector)
        requires
            d == e1 ^ e2,
            e1 < 0x100_0000,
            e2 < 0x100_0000,
    ;
    if d != 0 {
        lemma_min_weight(d);
    }
}

} // verus!
