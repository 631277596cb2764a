use ruiden::codec::{combine_pair, format_serial};
use ruiden::serialize::{HighLowPair, SerialNumber};

#[test]
fn combine_pair_puts_high_word_first() {
    assert_eq!(combine_pair(0x0001, 0x0002), 0x0001_0002);
    assert_eq!(combine_pair(0x0002, 0x0001), 0x0002_0001);
}

#[test]
fn combine_pair_edges() {
    assert_eq!(combine_pair(0, 0), 0);
    assert_eq!(combine_pair(0, 0xFFFF), 0x0000_FFFF);
    assert_eq!(combine_pair(0xFFFF, 0), 0xFFFF_0000);
    assert_eq!(combine_pair(0xFFFF, 0xFFFF), u32::MAX);
}

#[test]
fn combine_pair_matches_shift_or() {
    for &(high, low) in &[(0u16, 1u16), (1, 0), (0x1234, 0xABCD), (0x8000, 0x7FFF)] {
        assert_eq!(combine_pair(high, low), (high as u32) << 16 | low as u32);
    }
}

#[test]
fn high_low_pair_from_word_pair() {
    assert_eq!(HighLowPair::from([0x0001, 0x0002]), HighLowPair(0x0001_0002));
    assert_eq!(HighLowPair::from([0, 12]).0, 12);
}

#[test]
fn format_serial_pads_to_eight_digits() {
    assert_eq!(format_serial(1234), "00001234");
    assert_eq!(format_serial(0), "00000000");
    assert_eq!(format_serial(12), "00000012");
    assert_eq!(format_serial(99_999_999), "99999999");
}

#[test]
fn format_serial_never_truncates() {
    assert_eq!(format_serial(100_000_000), "100000000");
    assert_eq!(format_serial(1_000_000_000), "1000000000");
    assert_eq!(format_serial(u32::MAX), "4294967295");
}

#[test]
fn format_serial_length_below_limit() {
    for v in [0u32, 7, 10, 65_535, 1_000_000, 12_345_678, 99_999_999] {
        let s = format_serial(v);
        assert_eq!(s.len(), 8);
        assert!(s.chars().all(|c| c.is_ascii_digit()));
        assert_eq!(s.parse::<u32>().unwrap(), v);
    }
}

#[test]
fn serial_number_from_word_and_pair() {
    assert_eq!(SerialNumber::from_word(42).0, "00000042");
    assert_eq!(SerialNumber::from_word(u16::MAX).0, "00065535");
    assert_eq!(SerialNumber::from_pair([0, 12]).0, "00000012");
    assert_eq!(SerialNumber::from_pair([0x0001, 0x0000]).0, "00065536");
}
