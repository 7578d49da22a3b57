use flexispot_e7::error::DeskError;
use flexispot_e7::height::{compose_height, decode_seven_segment, loop_count, normalize};

const PATTERNS: [u8; 11] = [0x3f, 0x06, 0x5b, 0x4f, 0x66, 0x6d, 0x7d, 0x07, 0x7f, 0x6f, 0x40];

#[test]
fn seven_segment_known_patterns() {
    for (digit, pattern) in PATTERNS.iter().enumerate() {
        assert_eq!(decode_seven_segment(*pattern), (digit as i32, false));
        assert_eq!(decode_seven_segment(*pattern | 0x80), (digit as i32, true));
    }
}

#[test]
fn seven_segment_other_patterns_are_sentinel() {
    for byte in 0u8..=255 {
        if !PATTERNS.contains(&(byte & 0x7f)) {
            assert_eq!(decode_seven_segment(byte).0, -1);
        }
        assert_eq!(decode_seven_segment(byte).1, byte & 0x80 != 0);
    }
}

#[test]
fn compose_whole_centimetres() {
    // 1, 0, 5 without a decimal point: 105 cm.
    assert_eq!(compose_height(0x06, 0x3f, 0x6d), Ok(1050));
}

#[test]
fn compose_with_decimal_point() {
    // The same digits with any one point lit: 10.5 cm.
    assert_eq!(compose_height(0x86, 0x3f, 0x6d), Ok(105));
    assert_eq!(compose_height(0x06, 0xbf, 0x6d), Ok(105));
    assert_eq!(compose_height(0x06, 0x3f, 0xed), Ok(105));
}

#[test]
fn compose_dash_digit() {
    assert_eq!(compose_height(0x40, 0x40, 0x40), Ok(11100));
}

#[test]
fn compose_unknown_pattern_is_display_empty() {
    assert_eq!(compose_height(0x00, 0x3f, 0x6d), Err(DeskError::DisplayEmpty));
    assert_eq!(compose_height(0x06, 0x01, 0x6d), Err(DeskError::DisplayEmpty));
    assert_eq!(compose_height(0x06, 0x3f, 0x9b), Err(DeskError::DisplayEmpty));
}

#[test]
fn normalize_clamps() {
    assert_eq!(normalize(500), 605);
    assert_eq!(normalize(2000), 1260);
    assert_eq!(normalize(1000), 1000);
    assert_eq!(normalize(605), 605);
    assert_eq!(normalize(1260), 1260);
    assert_eq!(normalize(i32::MIN), 605);
    assert_eq!(normalize(i32::MAX), 1260);
}

#[test]
fn normalize_is_idempotent() {
    for v in [-10, 0, 500, 604, 605, 1000, 1260, 1261, 2000] {
        assert_eq!(normalize(normalize(v)), normalize(v));
    }
}

#[test]
fn loop_count_values() {
    assert_eq!(loop_count(None), 1);
    // A zero distance sends no frame at all.
    assert_eq!(loop_count(Some(0)), 0);
    assert_eq!(loop_count(Some(10)), 29);
    assert_eq!(loop_count(Some(-10)), 29);
    // 1.5 cm: 43.5 pulses, rounded up.
    assert_eq!(loop_count(Some(15)), 44);
    assert_eq!(loop_count(Some(1)), 3);
    assert_eq!(loop_count(Some(i32::MIN)), 6227702580);
}
