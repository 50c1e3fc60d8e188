use golay::{decode, ecc, encode};

#[test]
fn test() {
    let tx: u16 = 0b100110001101;
    let encoded: u32 = encode(tx);

    for i in 0..24u32 {
        for j in 0..24u32 {
            for k in 0..24u32 {
                for l in 0..24u32 {
                    let error: u32 = (1 << i) | (1 << j) | (1 << k) | (1 << l);
                    let rx: u32 = encoded ^ error;
                    let corrected: Option<u32> = ecc(rx);
                    let error_bits: u32 = error.count_ones();
                    if error_bits < 4 {
                        assert_eq!(tx, decode(corrected.unwrap()));
                    } else if error_bits == 4 {
                        assert_eq!(None, corrected);
                    }
                }
            }
        }
    }
}

#[test]
fn every_pattern_of_up_to_three_bits_is_corrected() {
    let words: [u16; 4] = [0, 0b100110001101, 0x0fff, 0x0a5c];
    for tx in words {
        let sent: u32 = encode(tx);
        for i in 0..24u32 {
            for j in 0..24u32 {
                for k in 0..24u32 {
                    let error: u32 = (1 << i) | (1 << j) | (1 << k);
                    assert!(error.count_ones() <= 3);
                    assert_eq!(ecc(sent ^ error), Some(sent));
                }
            }
        }
    }
}

#[test]
fn every_pattern_of_four_bits_is_detected() {
    let sent: u32 = encode(0x0a5c);
    let mut patterns: u32 = 0;
    for i in 0..24u32 {
        for j in (i + 1)..24u32 {
            for k in (j + 1)..24u32 {
                for l in (k + 1)..24u32 {
                    let error: u32 = (1 << i) | (1 << j) | (1 << k) | (1 << l);
                    assert_eq!(ecc(sent ^ error), None);
                    patterns += 1;
                }
            }
        }
    }
    assert_eq!(patterns, 10_626);
}

#[test]
fn four_flipped_data_bits_are_detected_too() {
    let sent: u32 = encode(0b100110001101);
    assert_eq!(ecc(sent ^ 0x00f0_0000), None);
    assert_eq!(ecc(sent ^ 0x0000_000f), None);
}

#[test]
fn every_data_word_round_trips() {
    for a in 0..0x1000u16 {
        assert_eq!(decode(encode(a)), a);
    }
}

#[test]
fn every_codeword_passes_unchanged() {
    for a in 0..0x1000u16 {
        let code: u32 = encode(a);
        assert_eq!(ecc(code), Some(code));
    }
}

#[test]
fn encoding_is_linear() {
    for a in 0..0x1000u16 {
        for shift in 0..12u32 {
            let b: u16 = a.rotate_left(shift) & 0x0fff ^ 0x0421;
            assert_eq!(encode(a ^ b), encode(a) ^ encode(b));
        }
    }
}

#[test]
fn distinct_codewords_differ_in_at_least_eight_bits() {
    for a in 1..0x1000u16 {
        assert!(encode(a).count_ones() >= 8);
        assert!((encode(a) ^ encode(0x0a5c ^ a)).count_ones() >= 8);
    }
}
