use simple_checksum::checksum::calculate_checksum;
use simple_checksum::engine::{compute, summarize, Report};
use simple_checksum::padding::{pad, padding_size};
use simple_checksum::width::Width;

const ALL: [Width; 3] = [Width::Bits8, Width::Bits16, Width::Bits32];

fn reference_sum(bytes: &[u8], word: usize) -> u64 {
    assert_eq!(bytes.len() % word, 0);
    let mut total: u64 = 0;
    let mut at = 0;
    while at < bytes.len() {
        let mut value: u64 = 0;
        for k in 0..word {
            value = value * 256 + bytes[at + k] as u64;
        }
        total += value;
        at += word;
    }
    total
}

fn sample(len: usize) -> Vec<u8> {
    let mut out = Vec::new();
    let mut state: u32 = 0x2545_F491;
    for _ in 0..len {
        state = state.wrapping_mul(1_664_525).wrapping_add(1_013_904_223);
        out.push((state >> 24) as u8);
    }
    out
}

#[test]
fn sixteen_bit_pads_odd_input_with_one_x() {
    let bytes = [0x01u8, 0x02, 0x03];
    assert_eq!(pad(&bytes, Width::Bits16), vec![0x01, 0x02, 0x03, 0x58]);
    assert_eq!(compute(&bytes, Width::Bits16), 0x045A);
    let report = summarize(&bytes, Width::Bits16);
    assert_eq!(report, Report { width: Width::Bits16, checksum: 0x045A, count: 3 });
}

#[test]
fn thirty_two_bit_wraps_and_pads_with_three_x() {
    let bytes = [0xFFu8; 5];
    assert_eq!(pad(&bytes, Width::Bits32), vec![0xFF, 0xFF, 0xFF, 0xFF, 0xFF, 0x58, 0x58, 0x58]);
    assert_eq!(compute(&bytes, Width::Bits32), 0xFF58_5857);
    let report = summarize(&bytes, Width::Bits32);
    assert_eq!(report.checksum, 0xFF58_5857);
    assert_eq!(report.count, 5);
    assert_eq!(report.width, Width::Bits32);
}

#[test]
fn eight_bit_sum_is_cut_to_a_byte() {
    let bytes = [0x10u8, 0xF0, 0x10];
    assert_eq!(compute(&bytes, Width::Bits8), 0x10);
    assert_eq!(calculate_checksum(&bytes, 8), 0x10);
    assert_eq!(summarize(&bytes, Width::Bits8).count, 3);
}

#[test]
fn empty_input_has_checksum_zero() {
    for width in ALL {
        assert_eq!(compute(&[], width), 0);
        assert_eq!(calculate_checksum(&[], width.bits()), 0);
        assert_eq!(pad(&[], width), Vec::<u8>::new());
        assert_eq!(summarize(&[], width), Report { width, checksum: 0, count: 0 });
    }
}

#[test]
fn eight_bit_is_the_byte_sum_modulo_256() {
    for len in [0usize, 1, 2, 3, 255, 256, 257, 1000, 4097] {
        let bytes = sample(len);
        let total: u64 = bytes.iter().map(|b| *b as u64).sum();
        assert_eq!(compute(&bytes, Width::Bits8) as u64, total % 256);
        assert_eq!(calculate_checksum(&bytes, 8) as u64, total % 256);
    }
    let all_high = vec![0xFFu8; 100_000];
    assert_eq!(compute(&all_high, Width::Bits8), ((255u64 * 100_000) % 256) as u32);
}

#[test]
fn sixteen_bit_is_the_word_sum_modulo_65536() {
    for len in [0usize, 1, 2, 3, 4, 5, 79, 80, 81, 1000, 4097] {
        let bytes = sample(len);
        let mut padded = bytes.clone();
        if len % 2 == 1 {
            padded.push(0x58);
        }
        assert_eq!(pad(&bytes, Width::Bits16), padded);
        assert_eq!(compute(&bytes, Width::Bits16) as u64, reference_sum(&padded, 2) % 65_536);
    }
}

#[test]
fn thirty_two_bit_is_the_word_sum_modulo_two_to_the_32() {
    for len in [0usize, 1, 2, 3, 4, 5, 6, 7, 8, 79, 80, 81, 1000, 4097] {
        let bytes = sample(len);
        let mut padded = bytes.clone();
        while padded.len() % 4 != 0 {
            padded.push(0x58);
        }
        assert!(padded.len() - len <= 3);
        assert_eq!(pad(&bytes, Width::Bits32), padded);
        assert_eq!(
            compute(&bytes, Width::Bits32) as u64,
            reference_sum(&padded, 4) % 4_294_967_296
        );
    }
}

#[test]
fn count_is_that_of_the_unpadded_input() {
    for width in ALL {
        for len in 0usize..20 {
            let bytes = sample(len);
            let report = summarize(&bytes, width);
            assert_eq!(report.count, len);
            assert_eq!(report.width, width);
            assert_eq!(report.checksum, compute(&bytes, width));
        }
    }
}

#[test]
fn padding_size_by_width_and_length() {
    for len in 0usize..16 {
        assert_eq!(padding_size(len, Width::Bits8), 0);
    }
    assert_eq!(padding_size(0, Width::Bits16), 0);
    assert_eq!(padding_size(1, Width::Bits16), 1);
    assert_eq!(padding_size(2, Width::Bits16), 0);
    assert_eq!(padding_size(7, Width::Bits16), 1);
    assert_eq!(padding_size(0, Width::Bits32), 0);
    assert_eq!(padding_size(1, Width::Bits32), 3);
    assert_eq!(padding_size(2, Width::Bits32), 2);
    assert_eq!(padding_size(3, Width::Bits32), 1);
    assert_eq!(padding_size(4, Width::Bits32), 0);
    assert_eq!(padding_size(5, Width::Bits32), 3);
    assert_eq!(padding_size(usize::MAX, Width::Bits32), 1);
    assert_eq!(padding_size(usize::MAX, Width::Bits16), 1);
}

#[test]
fn pad_appends_only_x_and_keeps_the_input() {
    for width in ALL {
        for len in 0usize..13 {
            let bytes = sample(len);
            let padded = pad(&bytes, width);
            assert_eq!(padded.len(), len + padding_size(len, width));
            assert_eq!(padded.len() % width.word_bytes(), 0);
            assert_eq!(&padded[..len], &bytes[..]);
            assert!(padded[len..].iter().all(|b| *b == b'X'));
        }
    }
}

#[test]
fn aligned_input_is_not_padded() {
    let bytes = [0x12u8, 0x34, 0x56, 0x78];
    for width in ALL {
        assert_eq!(pad(&bytes, width), bytes.to_vec());
    }
    assert_eq!(compute(&bytes, Width::Bits8), 0x14);
    assert_eq!(compute(&bytes, Width::Bits16), 0x68AC);
    assert_eq!(compute(&bytes, Width::Bits32), 0x1234_5678);
}

#[test]
fn sixteen_bit_sum_is_cut_after_adding() {
    assert_eq!(compute(&[0xFF, 0xFF, 0x00, 0x02], Width::Bits16), 0x0001);
    assert_eq!(calculate_checksum(&[0xFF, 0xFF, 0x00, 0x02], 16), 0x0001);
    let many = vec![0xFFu8; 2 * 70_000];
    assert_eq!(compute(&many, Width::Bits16) as u64, (0xFFFFu64 * 70_000) % 65_536);
}

#[test]
fn thirty_two_bit_sum_wraps() {
    let bytes = [0xFFu8, 0xFF, 0xFF, 0xFF, 0x00, 0x00, 0x00, 0x02];
    assert_eq!(compute(&bytes, Width::Bits32), 0x0000_0001);
    assert_eq!(calculate_checksum(&bytes, 32), 0x0000_0001);
}

#[test]
fn unpadded_short_group_keeps_the_high_places() {
    assert_eq!(calculate_checksum(&[0x01, 0x02, 0x03], 16), 0x0402);
    assert_eq!(calculate_checksum(&[0xAB], 16), 0xAB00);
    assert_eq!(calculate_checksum(&[0x01, 0x02, 0x03, 0x04, 0x05], 32), 0x0602_0304);
    assert_eq!(calculate_checksum(&[0x01, 0x02, 0x03, 0x04, 0x05, 0x06], 32), 0x0608_0304);
    assert_eq!(calculate_checksum(&[0x01, 0x02, 0x03, 0x04, 0x05, 0x06, 0x07], 32), 0x0608_0A04);
    assert_eq!(calculate_checksum(&[0xAB], 32), 0xAB00_0000);
    assert_eq!(calculate_checksum(&[0xAB, 0xCD], 32), 0xABCD_0000);
    assert_eq!(calculate_checksum(&[0xAB, 0xCD, 0xEF], 32), 0xABCD_EF00);
}

#[test]
fn result_fits_in_the_width() {
    let bytes = sample(5000);
    assert!(compute(&bytes, Width::Bits8) <= Width::Bits8.mask());
    assert!(compute(&bytes, Width::Bits16) <= Width::Bits16.mask());
    assert!(compute(&bytes, Width::Bits32) <= Width::Bits32.mask());
}

#[test]
fn compute_is_calculate_on_the_padded_input() {
    for width in ALL {
        for len in 0usize..40 {
            let bytes = sample(len);
            assert_eq!(compute(&bytes, width), calculate_checksum(&pad(&bytes, width), width.bits()));
        }
    }
}
