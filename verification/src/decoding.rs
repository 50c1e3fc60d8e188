//! What the decoder achieves: it finds exactly the error patterns of at most
//! three bits, so it restores a codeword from up to three flipped bits and
//! reports four flipped bits without changing a word.

use vstd::prelude::*;
use crate::algebra::{is_codeword, lemma_encoded_is_codeword, lemma_round_trip, lemma_syndrome_halves, lemma_syndrome_linear, lemma_syndrome_range};
use crate::bits::{lemma_popcount_range, lemma_popcount_zero, lemma_xor, popcount};
use crate::codec::{decode_spec, ecc_flagged_spec, ecc_spec, encode_spec, error_of, first_light, light_at, syndrome};
use crate::distance::lemma_unique_pattern;
use crate::matrix::{check_row, parity_of};

verus! {

/// Whether `c` lies within the decoder's reach of `r`: the two differ in at
/// most three bits, all of them among the low 24.
pub open spec fn near(r: u32, c: u32) -> bool {
    r ^ c < 0x100_0000 && popcount(r ^ c) <= 3
}

/// The index of the component that is set in a 12-bit unit vector; 12 for
/// any other word.
pub open spec fn unit_index(v: u32) -> u32 {
    if v == 0x800 {
        0
    } else if v == 0x400 {
        1
    } else if v == 0x200 {
        2
    } else if v == 0x100 {
        3
    } else if v == 0x80 {
        4
    } else if v == 0x40 {
        5
    } else if v == 0x20 {
        6
    } else if v == 0x10 {
        7
    } else if v == 0x8 {
        8
    } else if v == 0x4 {
        9
    } else if v == 0x2 {
        10
    } else if v == 0x1 {
        11
    } else {
        12
    }
}

/// The scan stops at a light row, and at the first one.
pub proof fn lemma_first_light(s: u32, from: u32)
    requires
        from <= 12,
    ensures
        from <= first_light(s, from) <= 12,
        first_light(s, from) < 12 ==> light_at(s, first_light(s, from)),
        forall|i: u32| from <= i < first_light(s, from) ==> !light_at(s, i),
    decreases 12 - from,
{
    if from < 12 && !light_at(s, from) {
        lemma_first_light(s, (from + 1) as u32);
    }
}

/// The pattern read off a syndrome has at most three bits set, all among
/// the low 24, and it has that syndrome.
pub proof fn lemma_error_sound(s: u32)
    requires
        s < 0x1000,
        error_of(s) is Some,
    ensures
        error_of(s).unwrap() < 0x100_0000,
        popcount(error_of(s).unwrap()) <= 3,
        syndrome(error_of(s).unwrap()) == s,
{
    let e = error_of(s).unwrap();
    let sh = parity_of(s);
    lemma_first_light(s, 0);
    lemma_first_light(sh, 0);
    if popcount(s) <= 3 {
        assert(s < 0x1000 ==> syndrome(s) == s) by (bit_vector);
    } else if first_light(s, 0) < 12 {
        let i = first_light(s, 0);
        let t = s ^ check_row(i);
        assert(e < 0x100_0000 && popcount(e) <= 3 && syndrome(e) == s) by (bit_vector)
            requires
                s < 0x1000,
                i < 12,
                t == s ^ check_row(i),
                popcount(t) <= 2,
                e == (0x80_0000u32 >> i) | t,
        ;
    } else if popcount(sh) <= 3 {
        assert(sh << 12 < 0x100_0000 && popcount(sh << 12) == popcount(sh) && syndrome(sh << 12)
            == s) by (bit_vector)
            requires
                s < 0x1000,
                sh == parity_of(s),
        ;
    } else {
        let i = first_light(sh, 0);
        let t = sh ^ check_row(i);
        assert(e < 0x100_0000 && popcount(e) <= 3 && syndrome(e) == s) by (bit_vector)
            requires
                s < 0x1000,
                i < 12,
                sh == parity_of(s),
                t == sh ^ check_row(i),
                popcount(t) <= 2,
                e == (t << 12) | (0x800u32 >> i),
        ;
    }
}

/// The product of a 12-bit unit vector with the parity block is the row of
/// the block that the vector selects.
pub proof fn lemma_unit_row(v: u32)
    requires
        v < 0x1000,
        popcount(v) == 1,
    ensures
        unit_index(v) < 12,
        parity_of(v) == check_row(unit_index(v)),
{
    assert(v < 0x1000 && popcount(v) == 1 ==> unit_index(v) < 12 && parity_of(v) == check_row(
        unit_index(v),
    )) by (bit_vector);
}

/// The decoder finds a pattern for the syndrome of every error of at most
/// three bits.
pub proof fn lemma_error_found(e: u32)
    requires
        e < 0x100_0000,
        popcount(e) <= 3,
    ensures
        error_of(syndrome(e)) is Some,
{
    let s = syndrome(e);
    let sh = parity_of(s);
    let hi = e >> 12;
    let lo = e & 0xfff;
    lemma_popcount_range(hi);
    lemma_popcount_range(lo);
    lemma_first_light(s, 0);
    lemma_first_light(sh, 0);
    lemma_syndrome_halves(e);
    assert(popcount(e) == popcount(hi) + popcount(lo) && hi < 0x1000 && lo < 0x1000)
        by (bit_vector)
        requires
            e < 0x100_0000,
            hi == e >> 12,
            lo == e & 0xfff,
    ;
    if popcount(hi) == 0 {
        // No data bit is wrong: the syndrome is the error itself.
        lemma_popcount_zero();
        assert(parity_of(0) == 0) by (bit_vector);
        lemma_xor(lo, 0);
    } else if popcount(hi) == 1 {
        // One data bit is wrong: its row, taken off the syndrome, leaves the parity errors.
        let i = unit_index(hi);
        let row = check_row(i);
        lemma_unit_row(hi);
        lemma_xor(lo, row);
        assert(light_at(s, i));
    } else if popcount(lo) == 0 {
        // No parity bit is wrong: the second syndrome is the data error itself.
        lemma_popcount_zero();
        assert(parity_of(0) == 0) by (bit_vector);
        lemma_xor(hi, 0);
    } else {
        // One parity bit is wrong: its row, taken off the second syndrome, leaves the data errors.
        let i = unit_index(lo);
        let row = check_row(i);
        lemma_unit_row(lo);
        lemma_xor(hi, row);
        assert(light_at(sh, i));
    }
}

/// From the syndrome of an error of at most three bits the decoder reads
/// that very error.
pub proof fn lemma_error_recovered(e: u32)
    requires
        e < 0x100_0000,
        popcount(e) <= 3,
    ensures
        error_of(syndrome(e)) == Some(e),
{
    lemma_error_found(e);
    lemma_syndrome_range(e);
    lemma_error_sound(syndrome(e));
    lemma_unique_pattern(error_of(syndrome(e)).unwrap(), e);
}

/// From the syndrome of an error of exactly four bits the decoder reads no
/// pattern at all: a lighter one with that syndrome would lie within seven
/// bits of the error, closer than two patterns of one syndrome can be.
pub proof fn lemma_error_detected(e: u32)
    requires
        e < 0x100_0000,
        popcount(e) == 4,
    ensures
        error_of(syndrome(e)) is None,
{
    lemma_syndrome_range(e);
    if error_of(syndrome(e)) is Some {
        lemma_error_sound(syndrome(e));
        lemma_unique_pattern(error_of(syndrome(e)).unwrap(), e);
    }
}

/// A received word and the same word with a codeword added have one syndrome.
pub proof fn lemma_syndrome_of_sum(c: u32, e: u32)
    requires
        is_codeword(c),
    ensures
        syndrome(c ^ e) == syndrome(e),
{
    lemma_syndrome_linear(c, e);
    lemma_xor(syndrome(e), 0);
}

/// What the decoder returns is the codeword nearest to the received word:
/// a codeword within three bits of it where there is one, and nothing where
/// every codeword is further away.
pub proof fn lemma_ecc_nearest(r: u32)
    ensures
        ecc_spec(r) matches Some(c) ==> is_codeword(c) && near(r, c),
        ecc_spec(r) is None ==> forall|c: u32| is_codeword(c) ==> !#[trigger] near(r, c),
{
    let s = syndrome(r);
    lemma_syndrome_range(r);
    if error_of(s) is Some {
        let e = error_of(s).unwrap();
        let c = r ^ e;
        lemma_error_sound(s);
        lemma_syndrome_linear(r, e);
        lemma_xor(s, s);
        lemma_xor(r, e);
    } else {
        assert forall|c: u32| is_codeword(c) implies !near(r, c) by {
            let e = r ^ c;
            if near(r, c) {
                lemma_xor(r, c);
                lemma_xor(c, e);
                lemma_syndrome_of_sum(c, e);
                lemma_error_found(e);
            }
        }
    }
}

/// A codeword passes the decoder unchanged.
pub proof fn lemma_ecc_keeps_codeword(a: u16)
    ensures
        ecc_spec(encode_spec(a)) == Some(encode_spec(a)),
        ecc_flagged_spec(encode_spec(a)) == (encode_spec(a), true),
{
    lemma_popcount_zero();
    lemma_xor(encode_spec(a), 0);
    lemma_ecc_corrects(a, 0);
}

/// Up to three flipped bits are corrected: the decoder returns the codeword
/// that was sent, and decoding it gives the data that was encoded.
pub proof fn lemma_ecc_corrects(a: u16, e: u32)
    requires
        e < 0x100_0000,
        popcount(e) <= 3,
    ensures
        ecc_spec(encode_spec(a) ^ e) == Some(encode_spec(a)),
        ecc_flagged_spec(encode_spec(a) ^ e) == (encode_spec(a), true),
        decode_spec(ecc_spec(encode_spec(a) ^ e).unwrap()) == a & 0xfff,
{
    let c = encode_spec(a);
    lemma_encoded_is_codeword(a);
    lemma_syndrome_of_sum(c, e);
    lemma_error_recovered(e);
    lemma_xor(c, e);
    lemma_round_trip(a);
}

/// Four flipped bits are detected: the decoder returns nothing, wherever in
/// the codeword the four bits lie.
pub proof fn lemma_ecc_detects(a: u16, e: u32)
    requires
        e < 0x100_0000,
        popcount(e) == 4,
    ensures
        ecc_spec(encode_spec(a) ^ e) is None,
        ecc_flagged_spec(encode_spec(a) ^ e) == (encode_spec(a) ^ e, false),
{
    lemma_encoded_is_codeword(a);
    lemma_syndrome_of_sum(encode_spec(a), e);
    lemma_error_detected(e);
}

/// Flipped parity bits, however many, leave the data field as it was sent:
/// a word that the decoder gave up on still decodes rightly in that case.
pub proof fn lemma_parity_errors_spare_data(a: u16, e: u32)
    requires
        e < 0x1000,
    ensures
        decode_spec(encode_spec(a) ^ e) == a & 0xfff,
{
    let c = encode_spec(a);
    lemma_round_trip(a);
    assert(e < 0x1000 ==> decode_spec(c ^ e) == decode_spec(c)) by (bit_vector);
}

} // verus!
