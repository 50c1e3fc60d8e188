//! Bit-level vocabulary: single bits and Hamming weight of a machine word.

use vstd::prelude::*;

verus! {

/// Whether bit `i` of `x` is set; bit 0 is the least significant one.
pub open spec fn bit(x: u32, i: u32) -> bool {
    (x >> i) & 1 == 1
}

/// The number of set bits among the `n` least significant bits of `x`.
pub open spec fn ones_below(x: u32, n: u32) -> int
    decreases n,
{
    if n == 0 {
        0
    } else {
        ones_below(x, (n - 1) as u32) + ((x >> ((n - 1) as u32)) & 1)
    }
}

/// The Hamming weight of `x`: how many of its 32 bits are set.
pub open spec fn popcount(x: u32) -> int {
    ones_below(x, 32)
}

/// `u32::count_ones` is taken on trust to return the number of ones in the
/// binary representation of its argument, which is what `popcount` counts.
pub assume_specification[ u32::count_ones ](x: u32) -> (n: u32)
    ensures
        n == popcount(x),
;

/// The weight of a syndrome: the number of its bits that are set.
pub fn weight(s: u32) -> (w: u32)
    ensures
        w == popcount(s),
        w <= 32,
{
    proof {
        lemma_popcount_range(s);
    }
    s.count_ones()
}

/// XOR commutes, has zero as its unit, and undoes itself.
pub proof fn lemma_xor(x: u32, y: u32)
    ensures
        x ^ y == y ^ x,
        x ^ 0 == x,
        0 ^ x == x,
        x ^ x == 0,
        (x ^ y) ^ y == x,
        x ^ (x ^ y) == y,
{
    assert(x ^ y == y ^ x && x ^ 0 == x && 0 ^ x == x && x ^ x == 0 && (x ^ y) ^ y == x && x ^ (x
        ^ y) == y) by (bit_vector);
}

/// A weight lies between 0 and the width of the word.
pub proof fn lemma_popcount_range(x: u32)
    ensures
        0 <= popcount(x) <= 32,
{
    lemma_ones_below_range(x, 32);
}

/// The zero word has weight zero, and no other word has.
pub proof fn lemma_popcount_zero()
    ensures
        popcount(0) == 0,
        forall|x: u32| #[trigger] popcount(x) == 0 ==> x == 0,
{
    assert(popcount(0u32) == 0) by (bit_vector);
    assert(forall|x: u32| #[trigger] popcount(x) == 0 ==> x == 0) by (bit_vector);
}

/// Among `n` bits, between 0 and `n` are set.
pub proof fn lemma_ones_below_range(x: u32, n: u32)
    ensures
        0 <= ones_below(x, n) <= n,
    decreases n,
{
    if n > 0 {
        let k = (n - 1) as u32;
        lemma_ones_below_range(x, k);
        assert((x >> k) & 1 <= 1) by (bit_vector);
    }
}

/// Flipping the bits of `y` in `x` changes the count of set bits among the
/// low `n` by at most the count of set bits of `y` there.
pub proof fn lemma_ones_below_xor(x: u32, y: u32, n: u32)
    ensures
        ones_below(x ^ y, n) <= ones_below(x, n) + ones_below(y, n),
    decreases n,
{
    if n > 0 {
        let k = (n - 1) as u32;
        lemma_ones_below_xor(x, y, k);
        assert(((x ^ y) >> k) & 1 <= ((x >> k) & 1) + ((y >> k) & 1)) by (bit_vector);
    }
}

/// The triangle inequality of Hamming weight.
pub proof fn lemma_popcount_xor(x: u32, y: u32)
    ensures
        popcount(x ^ y) <= popcount(x) + popcount(y),
{
    lemma_ones_below_xor(x, y, 32);
}

} // verus!
