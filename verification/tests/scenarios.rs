use golay::{decode, ecc, ecc_flagged, encode, weight};

#[test]
fn sample_word_encodes_to_its_codeword() {
    assert_eq!(encode(0b100110001101), 0b100110001101_001011010110);
    assert_eq!(encode(0b100110001101), 0x0098_d2d6);
}

#[test]
fn single_rows_of_the_generator() {
    assert_eq!(encode(0), 0);
    assert_eq!(encode(0x0800), 0x0080_09f1);
    assert_eq!(encode(0x0001), 0x0000_1aab);
    assert_eq!(encode(0x0fff), 0x00ff_ffff);
}

#[test]
fn every_single_flipped_bit_is_restored() {
    let code: u32 = encode(0b100110001101);
    for i in 0..24u32 {
        assert_eq!(ecc(code ^ (1 << i)), Some(code));
    }
}

#[test]
fn three_flipped_bits_are_corrected_and_decoded() {
    let tx: u16 = 0b000110001101;
    let encoded: u32 = encode(tx);
    assert_eq!(encoded, 0x0018_db27);
    let error: u32 = 0b0100_0100_0001_0000_0000_0000;
    assert_eq!(error.count_ones(), 3);
    let rx: u32 = encoded ^ error;
    assert_eq!(rx, 0x005c_cb27);
    let corrected: Option<u32> = ecc(rx);
    assert_eq!(corrected, Some(encoded));
    assert_eq!(decode(corrected.unwrap()), tx);
}

#[test]
fn each_step_of_the_decoder_finds_its_pattern() {
    let code: u32 = 0x0098_d2d6;
    // Three parity bits.
    assert_eq!(ecc(0x0098_d2d1), Some(code));
    // One data bit and two parity bits.
    assert_eq!(ecc(0x0018_d2d5), Some(code));
    // Three data bits.
    assert_eq!(ecc(0x0098_ead6), Some(code));
    // Two data bits and one parity bit.
    assert_eq!(ecc(0x0098_e2d7), Some(code));
    // One data bit, one in the middle, one parity bit.
    assert_eq!(ecc(0x0018_c2d7), Some(code));
}

#[test]
fn five_flipped_bits_give_the_nearest_codeword() {
    let sent: u32 = encode(0b100110001101);
    let other: u32 = encode(0b100110001101 ^ 0x0800);
    assert_eq!(other, 0x0018_db27);
    let received: u32 = sent ^ 0x0000_00f1;
    assert_eq!((received ^ sent).count_ones(), 5);
    assert_eq!((received ^ other).count_ones(), 3);
    assert_eq!(ecc(received), Some(other));
}

#[test]
fn six_flipped_bits_may_be_detected() {
    let sent: u32 = encode(0b100110001101);
    assert_eq!(ecc(sent ^ 0x0000_003f), None);
}

#[test]
fn weight_counts_set_bits() {
    assert_eq!(weight(0), 0);
    assert_eq!(weight(0x0fff), 12);
    assert_eq!(weight(1), 1);
    assert_eq!(weight(0x0800), 1);
    assert_eq!(weight(0b101010101011), 7);
    assert_eq!(weight(0x00ff_ffff), 24);
    assert_eq!(weight(0xffff_ffff), 32);
    for x in 0..0x1000u32 {
        let mut count: u32 = 0;
        for i in 0..12u32 {
            count += (x >> i) & 1;
        }
        assert_eq!(weight(x), count);
    }
}

#[test]
fn decode_takes_the_upper_half() {
    assert_eq!(decode(0x0098_d2d6), 0x098d);
    assert_eq!(decode(0x00ab_c123), 0x0abc);
    assert_eq!(decode(0x0000_0fff), 0);
    assert_eq!(decode(0x00ff_f000), 0x0fff);
}

#[test]
fn decode_ignores_bits_above_the_codeword() {
    assert_eq!(decode(0xffab_c123), 0x0abc);
    assert_eq!(decode(0xff00_0000), 0);
}

#[test]
fn encode_ignores_bits_above_the_data() {
    assert_eq!(encode(0xf98d), 0x0098_d2d6);
    assert_eq!(encode(0xf000), 0);
}

#[test]
fn ecc_keeps_bits_above_the_codeword() {
    assert_eq!(ecc(0xab98_d2d6), Some(0xab98_d2d6));
    assert_eq!(ecc(0xab98_d2d6 ^ 0x0080_0003), Some(0xab98_d2d6));
    assert_eq!(ecc(0xab98_d2d6 ^ 0x0000_000f), None);
}

#[test]
fn flagged_answer_carries_the_corrected_word() {
    let code: u32 = encode(0b100110001101);
    assert_eq!(ecc_flagged(code), (code, true));
    assert_eq!(ecc_flagged(code ^ 0x0080_0003), (code, true));
    assert_eq!(ecc_flagged(code ^ 0x0000_00f1), (0x0018_db27, true));
}

#[test]
fn flagged_answer_returns_the_received_word_on_failure() {
    let code: u32 = encode(0b100110001101);
    assert_eq!(ecc_flagged(code ^ 0x0011_0011), (code ^ 0x0011_0011, false));
    // Four flipped parity bits are reported, yet the data field is intact.
    let (word, flag) = ecc_flagged(code ^ 0x0000_000f);
    assert!(!flag);
    assert_eq!(word, code ^ 0x0000_000f);
    assert_eq!(decode(word), 0b100110001101);
}
