//! Encoding, syndrome decoding and data extraction.
//!
//! A data word holds 12 bits, a codeword 24: the data in bits 23 to 12, the
//! parity in bits 11 to 0. Bits above a word's field are not looked at;
//! `encode` and `decode` return them as zero, `ecc` returns them as received.

use vstd::prelude::*;
use crate::algebra::{is_codeword, lemma_encoded_is_codeword, lemma_round_trip, lemma_systematic};
use crate::bits::{lemma_popcount_zero, lemma_xor, popcount, weight};
use crate::decoding::{lemma_ecc_nearest, near};
use crate::matrix::{check_row, check_sum, gen_row, gen_sum, lemma_tables, parity_of, G, H_T};

verus! {

/// The codeword of the data in the low 12 bits of `a`: the sum of the rows
/// of the generator matrix that the data bits select.
pub open spec fn encode_spec(a: u16) -> u32 {
    gen_sum(a as u32, 12)
}

/// The data field of a codeword: its bits 23 to 12.
pub open spec fn decode_spec(code: u32) -> u16 {
    ((code >> 12) & 0xfff) as u16
}

/// The syndrome of a received word: the product of its low 24 bits with the
/// transposed parity-check matrix.
pub open spec fn syndrome(r: u32) -> u32 {
    check_sum(r, 24, 24)
}

/// Whether adding parity row `i` to `s` leaves at most two bits set.
pub open spec fn light_at(s: u32, i: u32) -> bool {
    popcount(s ^ check_row(i)) <= 2
}

/// The least `i` in `from..12` with `light_at(s, i)`, or 12 if there is none.
pub open spec fn first_light(s: u32, from: u32) -> u32
    decreases 12 - from,
{
    if from >= 12 {
        12
    } else if light_at(s, from) {
        from
    } else {
        first_light(s, (from + 1) as u32)
    }
}

/// The error pattern that the decoder reads off a syndrome, if it finds one.
///
/// It looks, in this order, for an error confined to the parity half, for one
/// data bit with at most two parity bits, for an error confined to the data
/// half, and for one parity bit with at most two data bits.
pub open spec fn error_of(s: u32) -> Option<u32> {
    let sh = parity_of(s);
    if popcount(s) <= 3 {
        Some(s)
    } else if first_light(s, 0) < 12 {
        let i = first_light(s, 0);
        Some((0x80_0000u32 >> i) | (s ^ check_row(i)))
    } else if popcount(sh) <= 3 {
        Some(sh << 12)
    } else if first_light(sh, 0) < 12 {
        let i = first_light(sh, 0);
        Some(((sh ^ check_row(i)) << 12) | (0x800u32 >> i))
    } else {
        None
    }
}

/// What `ecc` returns: the received word with the error pattern of its
/// syndrome taken out, or nothing where the decoder finds no pattern.
pub open spec fn ecc_spec(r: u32) -> Option<u32> {
    match error_of(syndrome(r)) {
        Some(e) => Some(r ^ e),
        None => None,
    }
}

/// What `ecc_flagged` returns: the corrected word and `true` where the
/// decoder finds an error pattern, the received word as it came and `false`
/// where it finds none.
pub open spec fn ecc_flagged_spec(r: u32) -> (u32, bool) {
    match ecc_spec(r) {
        Some(c) => (c, true),
        None => (r, false),
    }
}

/// Encodes the 12 data bits in the low bits of `a` as a 24-bit codeword.
/// The upper four bits of `a` are ignored.
pub fn encode(a: u16) -> (code: u32)
    ensures
        code == encode_spec(a),
        code < 0x100_0000,
        is_codeword(code),
        decode_spec(code) == a & 0xfff,
{
    let ghost data = a;
    let a: u32 = a as u32;
    let mut code: u32 = 0;
    let mut i: u32 = 0;
    proof {
        lemma_tables();
        lemma_systematic(data);
        lemma_encoded_is_codeword(data);
        lemma_round_trip(data);
    }
    while i < 12
        invariant
            i <= 12,
            code == gen_sum(a, i),
            forall|k: int| 0 <= k < 12 ==> #[trigger] G@[k] == gen_row(k as u32),
        decreases 12 - i,
    {
        if (a >> (11 - i)) & 1 == 1 {
            code = code ^ G[i as usize];
        } else {
            proof {
                lemma_xor(code, 0);
            }
        }
        i = i + 1;
    }
    code
}

/// Extracts the 12 data bits of a codeword. The upper four bits of the
/// result are zero.
pub fn decode(code: u32) -> (data: u16)
    ensures
        data == decode_spec(code),
        data < 0x1000,
{
    let field: u32 = (code >> 12) & 0xfff;
    assert(field < 0x1000) by (bit_vector)
        requires
            field == (code >> 12) & 0xfff,
    ;
    field as u16
}

/// The product of the `width` low bits of `v`, as a vector, with the first
/// `width` rows of the transposed parity-check matrix.
fn row_product(v: u32, width: u32) -> (s: u32)
    requires
        width == 12 || width == 24,
    ensures
        s == check_sum(v, width, width),
{
    let mut s: u32 = 0;
    let mut i: u32 = 0;
    proof {
        lemma_tables();
    }
    while i < width
        invariant
            i <= width <= 24,
            s == check_sum(v, width, i),
            forall|k: int| 0 <= k < 24 ==> #[trigger] H_T@[k] == check_row(k as u32),
        decreases width - i,
    {
        if (v >> (width - 1 - i)) & 1 == 1 {
            s = s ^ H_T[i as usize];
        } else {
            proof {
                lemma_xor(s, 0);
            }
        }
        i = i + 1;
    }
    s
}

/// Scans the parity rows from the first on for one that, added to `s`,
/// leaves at most two bits set.
fn find_light(s: u32) -> (i: u32)
    ensures
        i == first_light(s, 0),
        i <= 12,
{
    let mut i: u32 = 0;
    proof {
        lemma_tables();
    }
    while i < 12
        invariant
            i <= 12,
            first_light(s, 0) == first_light(s, i),
            forall|k: int| 0 <= k < 24 ==> #[trigger] H_T@[k] == check_row(k as u32),
        decreases 12 - i,
    {
        if weight(s ^ H_T[i as usize]) <= 2 {
            return i;
        }
        i = i + 1;
    }
    i
}

/// Detects and corrects errors in a received word.
///
/// Returns the codeword within three bits of `r`, where there is one: up to
/// three flipped bits are corrected. Returns `None` where every codeword is
/// at least four bits away: four flipped bits are detected. Five or more
/// flipped bits may bring `r` within three bits of another codeword than the
/// one sent, and that one is then returned.
pub fn ecc(r: u32) -> (out: Option<u32>)
    ensures
        out == ecc_spec(r),
        out matches Some(c) ==> is_codeword(c) && near(r, c),
        out is None ==> forall|c: u32| is_codeword(c) ==> !#[trigger] near(r, c),
{
    proof {
        lemma_ecc_nearest(r);
    }
    let s: u32 = row_product(r, 24);
    if s == 0 {
        proof {
            lemma_popcount_zero();
            lemma_xor(r, 0);
        }
        return Some(r);
    }
    if weight(s) <= 3 {
        return Some(r ^ s);
    }
    let i: u32 = find_light(s);
    if i < 12 {
        return Some(r ^ ((0x80_0000u32 >> i) | (s ^ H_T[i as usize])));
    }
    let sh: u32 = row_product(s, 12);
    if weight(sh) <= 3 {
        return Some(r ^ (sh << 12));
    }
    let j: u32 = find_light(sh);
    if j < 12 {
        return Some(r ^ (((sh ^ H_T[j as usize]) << 12) | (0x800u32 >> j)));
    }
    None
}

/// Detects and corrects errors in a received word, and answers with a word
/// and a flag in every case.
///
/// The flag says whether the word is a codeword within three bits of `r`.
/// Where it is false, the word is `r` itself, unchanged: its data field is
/// not to be trusted, though it is still right if only parity bits flipped.
pub fn ecc_flagged(r: u32) -> (out: (u32, bool))
    ensures
        out == ecc_flagged_spec(r),
        out.1 ==> is_codeword(out.0) && near(r, out.0),
        !out.1 ==> out.0 == r && forall|c: u32| is_codeword(c) ==> !#[trigger] near(r, c),
{
    match ecc(r) {
        Some(c) => (c, true),
        None => (r, false),
    }
}

} // verus!
