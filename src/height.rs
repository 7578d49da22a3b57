use vstd::prelude::*;

use crate::error::DeskError;

verus! {

// Heights and height differences are counted in tenths of a centimetre, the
// resolution of the desk's display: 60.5 cm is 605, a move of 2 cm is 20.

/// Lowest height the desk can travel to, in tenths of a centimetre.
pub const MIN_HEIGHT: i32 = 605;

/// Highest height the desk can travel to, in tenths of a centimetre.
pub const MAX_HEIGHT: i32 = 1260;

/// Motion pulses per centimetre of travel. Fitted by hand on one actuator;
/// another setup may need another value.
pub const PULSES_PER_CM: u64 = 29;

/// The digit shown by a seven-segment pattern (the low seven bits of a
/// display byte): 0 to 9, 10 for the lone middle bar, -1 for any other pattern.
pub open spec fn segment_digit(pattern: u8) -> int {
    if pattern == 0x3f { 0 }
    else if pattern == 0x06 { 1 }
    else if pattern == 0x5b { 2 }
    else if pattern == 0x4f { 3 }
    else if pattern == 0x66 { 4 }
    else if pattern == 0x6d { 5 }
    else if pattern == 0x7d { 6 }
    else if pattern == 0x07 { 7 }
    else if pattern == 0x7f { 8 }
    else if pattern == 0x6f { 9 }
    else if pattern == 0x40 { 10 }
    else { -1 }
}

/// The eleven known patterns, the one at index `i` showing digit `i`.
pub open spec fn segment_patterns() -> Seq<u8> {
    seq![0x3fu8, 0x06u8, 0x5bu8, 0x4fu8, 0x66u8, 0x6du8, 0x7du8, 0x07u8, 0x7fu8, 0x6fu8, 0x40u8]
}

/// The digit of a display byte, read from its low seven bits.
pub open spec fn byte_digit(byte: u8) -> int {
    segment_digit(byte & 0x7f)
}

/// Whether the decimal point (the high bit) of a display byte is lit.
pub open spec fn byte_point(byte: u8) -> bool {
    byte & 0x80 != 0
}

/// The height shown by three display bytes, in tenths of a centimetre.
/// Without a decimal point the three digits are whole centimetres; with one
/// lit anywhere, the last digit is the tenths.
pub open spec fn composed_height(b0: u8, b1: u8, b2: u8) -> Result<int, DeskError> {
    let (d0, d1, d2) = (byte_digit(b0), byte_digit(b1), byte_digit(b2));
    if d0 < 0 || d1 < 0 || d2 < 0 {
        Err(DeskError::DisplayEmpty)
    } else {
        let n = 100 * d0 + 10 * d1 + d2;
        if byte_point(b0) || byte_point(b1) || byte_point(b2) {
            Ok(n)
        } else {
            Ok(10 * n)
        }
    }
}

/// `v` brought into the desk's travel range.
pub open spec fn clamped(v: int) -> int {
    if v < MIN_HEIGHT { MIN_HEIGHT as int }
    else if v > MAX_HEIGHT { MAX_HEIGHT as int }
    else { v }
}

/// Number of motion frames for a move of `diff` tenths of a centimetre:
/// one nudge when no distance is given, else the distance in centimetres times
/// the pulses per centimetre, rounded up. A zero distance gives no frame.
pub open spec fn pulse_count(diff: Option<int>) -> int {
    match diff {
        None => 1,
        Some(d) => {
            let a = if d < 0 { -d } else { d };
            (PULSES_PER_CM * a + 9) / 10
        }
    }
}

/// Splits a display byte into the digit of its low seven bits and the
/// decimal-point flag of its high bit.
pub fn decode_seven_segment(byte: u8) -> (r: (i32, bool))
    ensures
        r.0 == byte_digit(byte),
        r.1 == byte_point(byte),
{
    let digit: i32 = match byte & 0x7f {
        0x3f => 0,
        0x06 => 1,
        0x5b => 2,
        0x4f => 3,
        0x66 => 4,
        0x6d => 5,
        0x7d => 6,
        0x07 => 7,
        0x7f => 8,
        0x6f => 9,
        0x40 => 10,
        _ => -1,
    };
    (digit, byte & 0x80 != 0)
}

/// The height shown by three display bytes (hundreds, tens, ones), in tenths
/// of a centimetre, or `DisplayEmpty` when one of them shows no known pattern.
pub fn compose_height(b0: u8, b1: u8, b2: u8) -> (r: Result<i32, DeskError>)
    ensures
        match r {
            Ok(h) => composed_height(b0, b1, b2) == Ok::<int, DeskError>(h as int),
            Err(e) => composed_height(b0, b1, b2) == Err::<int, DeskError>(e),
        },
{
    let (d0, p0) = decode_seven_segment(b0);
    let (d1, p1) = decode_seven_segment(b1);
    let (d2, p2) = decode_seven_segment(b2);
    if d0 < 0 || d1 < 0 || d2 < 0 {
        return Err(DeskError::DisplayEmpty);
    }
    let n: i32 = 100 * d0 + 10 * d1 + d2;
    if p0 || p1 || p2 {
        Ok(n)
    } else {
        Ok(10 * n)
    }
}

/// Brings a target height into the desk's travel range: below it gives the
/// lowest height, above it the highest, anything else is kept.
pub fn normalize(v: i32) -> (r: i32)
    ensures
        r == clamped(v as int),
{
    if v < MIN_HEIGHT {
        MIN_HEIGHT
    } else if v > MAX_HEIGHT {
        MAX_HEIGHT
    } else {
        v
    }
}

/// How many times the motion frame is sent for a move of `diff` tenths of a
/// centimetre (`None`: a single nudge).
pub fn loop_count(diff: Option<i32>) -> (r: u64)
    ensures
        r == pulse_count(
            match diff {
                Some(d) => Some(d as int),
                None => None,
            },
        ),
{
    match diff {
        None => 1,
        Some(d) => {
            let a: u64 = if d < 0 { (-(d as i64)) as u64 } else { d as u64 };
            (PULSES_PER_CM * a + 9) / 10
        },
    }
}

/// A height composed from display bytes lies between 0 and 1110 cm.
pub proof fn lemma_composed_range(b0: u8, b1: u8, b2: u8)
    ensures
        composed_height(b0, b1, b2) matches Ok(h) ==> 0 <= h <= 11100,
{
}

/// Clamping is idempotent, always lands in the travel range, and keeps a
/// height that is already in range.
pub proof fn lemma_normalize_idempotent(v: int)
    ensures
        clamped(clamped(v)) == clamped(v),
        MIN_HEIGHT <= clamped(v) <= MAX_HEIGHT,
        MIN_HEIGHT <= v <= MAX_HEIGHT ==> clamped(v) == v,
{
}

/// Each of the eleven known patterns shows the digit of its index, every
/// other seven-bit pattern shows the sentinel -1, and the decimal-point bit
/// does not change the digit of a byte.
pub proof fn lemma_seven_segment_table(byte: u8)
    ensures
        forall|i: int| 0 <= i < 11 ==> segment_digit(#[trigger] segment_patterns()[i]) == i,
        segment_patterns().contains(byte & 0x7f) <==> 0 <= byte_digit(byte) <= 10,
        !segment_patterns().contains(byte & 0x7f) ==> byte_digit(byte) == -1,
        byte_digit(byte | 0x80) == byte_digit(byte),
        byte_digit(byte & 0x7f) == byte_digit(byte),
        byte_point(byte | 0x80),
        !byte_point(byte & 0x7f),
{
    let p = segment_patterns();
    assert((byte | 0x80) & 0x7f == byte & 0x7f) by (bit_vector);
    assert((byte & 0x7f) & 0x7f == byte & 0x7f) by (bit_vector);
    assert((byte | 0x80) & 0x80 != 0) by (bit_vector);
    assert((byte & 0x7f) & 0x80 == 0) by (bit_vector);
    if 0 <= byte_digit(byte) <= 10 {
        assert(p[byte_digit(byte)] == byte & 0x7f);
    }
    if p.contains(byte & 0x7f) {
        let i = choose|i: int| 0 <= i < p.len() && p[i] == byte & 0x7f;
        assert(0 <= i < 11);
    }
}

} // verus!
