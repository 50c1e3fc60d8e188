//! The linear algebra of the code: encoding and the syndrome are linear maps,
//! codewords are systematic, and the syndrome vanishes exactly on them.

use vstd::prelude::*;
use crate::codec::{decode_spec, encode_spec, syndrome};
use crate::matrix::parity_of;

verus! {

/// A word whose low 24 bits are a codeword: its syndrome is zero.
pub open spec fn is_codeword(c: u32) -> bool {
    syndrome(c) == 0
}

/// A codeword is systematic: it fits in 24 bits, its upper half is the data
/// and its lower half the product of the data with the parity block.
pub proof fn lemma_systematic(a: u16)
    ensures
        encode_spec(a) < 0x100_0000,
        encode_spec(a) >> 12 == a & 0xfff,
        encode_spec(a) & 0xfff == parity_of(a as u32),
{
    assert(encode_spec(a) < 0x100_0000 && encode_spec(a) >> 12 == a & 0xfff && encode_spec(a)
        & 0xfff == parity_of(a as u32)) by (bit_vector);
}

/// Decoding what was encoded gives the data back: all of `a` where it has
/// no bit above its 12-bit field, and its low 12 bits in any case.
pub proof fn lemma_round_trip(a: u16)
    ensures
        decode_spec(encode_spec(a)) == a & 0xfff,
        a < 0x1000 ==> decode_spec(encode_spec(a)) == a,
{
    assert(decode_spec(encode_spec(a)) == a & 0xfff) by (bit_vector);
    assert(a < 0x1000 ==> a & 0xfff == a) by (bit_vector);
}

/// Encoding is linear over GF(2).
pub proof fn lemma_encode_linear(a: u16, b: u16)
    ensures
        encode_spec(a ^ b) == encode_spec(a) ^ encode_spec(b),
{
    assert(encode_spec(a ^ b) == encode_spec(a) ^ encode_spec(b)) by (bit_vector);
}

/// The syndrome is linear over GF(2).
pub proof fn lemma_syndrome_linear(x: u32, y: u32)
    ensures
        syndrome(x ^ y) == syndrome(x) ^ syndrome(y),
{
    assert(syndrome(x ^ y) == syndrome(x) ^ syndrome(y)) by (bit_vector);
}

/// A syndrome has 12 bits, and only the low 24 bits of a word enter it.
pub proof fn lemma_syndrome_range(r: u32)
    ensures
        syndrome(r) < 0x1000,
        syndrome(r) == syndrome(r & 0xff_ffff),
{
    assert(syndrome(r) < 0x1000 && syndrome(r) == syndrome(r & 0xff_ffff)) by (bit_vector);
}

/// The product with the parity block is linear over GF(2).
pub proof fn lemma_parity_linear(x: u32, y: u32)
    ensures
        parity_of(x ^ y) == parity_of(x) ^ parity_of(y),
{
    assert(parity_of(x ^ y) == parity_of(x) ^ parity_of(y)) by (bit_vector);
}

/// The parity block is its own inverse.
pub proof fn lemma_parity_involution(v: u32)
    ensures
        parity_of(parity_of(v)) == v & 0xfff,
{
    assert(parity_of(parity_of(v)) == v & 0xfff) by (bit_vector);
}

/// The syndrome by halves: the data half goes through the parity block, the
/// parity half is added as it stands. A second pass through the parity block
/// exchanges the roles of the two halves.
pub proof fn lemma_syndrome_halves(r: u32)
    ensures
        syndrome(r) == parity_of(r >> 12) ^ (r & 0xfff),
        r < 0x100_0000 ==> parity_of(syndrome(r)) == (r >> 12) ^ parity_of(r & 0xfff),
{
    let hi = r >> 12;
    let lo = r & 0xfff;
    assert(syndrome(r) == parity_of(r >> 12) ^ (r & 0xfff)) by (bit_vector);
    lemma_parity_linear(parity_of(hi), lo);
    lemma_parity_involution(hi);
    assert(r < 0x100_0000 ==> (r >> 12) & 0xfff == r >> 12) by (bit_vector);
}

/// Every encoded word is a codeword.
pub proof fn lemma_encoded_is_codeword(a: u16)
    ensures
        is_codeword(encode_spec(a)),
{
    assert(syndrome(encode_spec(a)) == 0) by (bit_vector);
}

/// Every codeword of 24 bits is the encoding of its own data field.
pub proof fn lemma_codeword_is_encoded(c: u32)
    requires
        c < 0x100_0000,
        is_codeword(c),
    ensures
        c == encode_spec(decode_spec(c)),
{
    assert(c < 0x100_0000 && syndrome(c) == 0 ==> c == encode_spec(decode_spec(c)))
        by (bit_vector);
}

} // verus!
