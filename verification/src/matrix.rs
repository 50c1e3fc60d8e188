//! The two constant matrices of the code and products of bit vectors with them.
//!
//! A matrix is stored row by row, each row packed into one word. A vector is
//! packed into a word too, its first component in the most significant bit of
//! its field. All arithmetic is over GF(2): a sum is an XOR.

use vstd::prelude::*;
use crate::bits::bit;

verus! {

/// The transpose of the parity-check matrix: 24 rows of 12 bits. The upper
/// twelve rows are the parity block, the lower twelve the identity.
pub const H_T: [u32; 24] = [
    0b100111110001,
    0b010011111010,
    0b001001111101,
    0b100100111110,
    0b110010011101,
    0b111001001110,
    0b111100100101,
    0b111110010010,
    0b011111001001,
    0b001111100110,
    0b010101010111,
    0b101010101011,
    0b100000000000,
    0b010000000000,
    0b001000000000,
    0b000100000000,
    0b000010000000,
    0b000001000000,
    0b000000100000,
    0b000000010000,
    0b000000001000,
    0b000000000100,
    0b000000000010,
    0b000000000001,
];

/// The generator matrix: 12 rows of 24 bits, the identity in the upper half
/// of each row and the parity block in the lower half.
pub const G: [u32; 12] = [
    0b100000000000_100111110001,
    0b010000000000_010011111010,
    0b001000000000_001001111101,
    0b000100000000_100100111110,
    0b000010000000_110010011101,
    0b000001000000_111001001110,
    0b000000100000_111100100101,
    0b000000010000_111110010010,
    0b000000001000_011111001001,
    0b000000000100_001111100110,
    0b000000000010_010101010111,
    0b000000000001_101010101011,
];

/// Row `i` of the transposed parity-check matrix; zero past its 24 rows.
pub open spec fn check_row(i: u32) -> u32 {
    if i == 0 {
        0b100111110001
    } else if i == 1 {
        0b010011111010
    } else if i == 2 {
        0b001001111101
    } else if i == 3 {
        0b100100111110
    } else if i == 4 {
        0b110010011101
    } else if i == 5 {
        0b111001001110
    } else if i == 6 {
        0b111100100101
    } else if i == 7 {
        0b111110010010
    } else if i == 8 {
        0b011111001001
    } else if i == 9 {
        0b001111100110
    } else if i == 10 {
        0b010101010111
    } else if i == 11 {
        0b101010101011
    } else if i == 12 {
        0b100000000000
    } else if i == 13 {
        0b010000000000
    } else if i == 14 {
        0b001000000000
    } else if i == 15 {
        0b000100000000
    } else if i == 16 {
        0b000010000000
    } else if i == 17 {
        0b000001000000
    } else if i == 18 {
        0b000000100000
    } else if i == 19 {
        0b000000010000
    } else if i == 20 {
        0b000000001000
    } else if i == 21 {
        0b000000000100
    } else if i == 22 {
        0b000000000010
    } else if i == 23 {
        0b000000000001
    } else {
        0
    }
}

/// Row `i` of the generator matrix; zero past its 12 rows.
pub open spec fn gen_row(i: u32) -> u32 {
    if i == 0 {
        0b100000000000_100111110001
    } else if i == 1 {
        0b010000000000_010011111010
    } else if i == 2 {
        0b001000000000_001001111101
    } else if i == 3 {
        0b000100000000_100100111110
    } else if i == 4 {
        0b000010000000_110010011101
    } else if i == 5 {
        0b000001000000_111001001110
    } else if i == 6 {
        0b000000100000_111100100101
    } else if i == 7 {
        0b000000010000_111110010010
    } else if i == 8 {
        0b000000001000_011111001001
    } else if i == 9 {
        0b000000000100_001111100110
    } else if i == 10 {
        0b000000000010_010101010111
    } else if i == 11 {
        0b000000000001_101010101011
    } else {
        0
    }
}

/// The sum of those among the first `n` rows of the transposed parity-check
/// matrix whose component is set in `v`, a vector of `width` components held
/// in the low `width` bits of the word.
pub open spec fn check_sum(v: u32, width: u32, n: u32) -> u32
    recommends
        n <= width <= 24,
    decreases n,
{
    if n == 0 {
        0
    } else {
        check_sum(v, width, (n - 1) as u32) ^ (if bit(v, (width - n) as u32) {
            check_row((n - 1) as u32)
        } else {
            0
        })
    }
}

/// The sum of those among the first `n` rows of the generator matrix whose
/// component is set in the 12-component vector `v`.
pub open spec fn gen_sum(v: u32, n: u32) -> u32
    recommends
        n <= 12,
    decreases n,
{
    if n == 0 {
        0
    } else {
        gen_sum(v, (n - 1) as u32) ^ (if bit(v, (12 - n) as u32) {
            gen_row((n - 1) as u32)
        } else {
            0
        })
    }
}

/// The product of the 12-component vector in the low bits of `v` with the
/// parity block, the upper half of the transposed parity-check matrix.
pub open spec fn parity_of(v: u32) -> u32 {
    check_sum(v, 12, 12)
}

/// The stored tables hold the rows that `check_row` and `gen_row` name.
pub proof fn lemma_tables()
    ensures
        forall|i: int| 0 <= i < 24 ==> #[trigger] H_T@[i] == check_row(i as u32),
        forall|i: int| 0 <= i < 12 ==> #[trigger] G@[i] == gen_row(i as u32),
{
}

/// The shape of the two matrices: the generator is the identity beside the
/// parity block, the transposed parity check is that block upon the identity.
pub proof fn lemma_matrix_shape(i: u32)
    requires
        i < 12,
    ensures
        gen_row(i) == (0x80_0000u32 >> i) | check_row(i),
        check_row(i) < 0x1000,
        check_row((i + 12) as u32) == 0x800u32 >> i,
{
    let j = (i + 12) as u32;
    assert(gen_row(i) == (0x80_0000u32 >> i) | check_row(i) && check_row(i) < 0x1000 && check_row(j)
        == 0x800u32 >> i) by (bit_vector)
        requires
            i < 12,
            j == i + 12,
    ;
}

} // verus!
