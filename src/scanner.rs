use vstd::prelude::*;

use crate::error::DeskError;
use crate::height::{compose_height, composed_height};

verus! {

/// The byte that starts every frame of the desk.
pub const MARKER: u8 = 0x9b;

/// The type byte of a height report.
pub const HEIGHT_TYPE: u8 = 0x12;

/// The length byte of a height report.
pub const HEIGHT_LENGTH: u8 = 7;

/// What a scan window holds, as mathematical values.
pub ghost struct ScanState {
    /// The five bytes seen last, the latest first.
    pub history: Seq<u8>,
    /// The length byte of the frame last seen.
    pub msg_len: u8,
    /// The type byte of the frame last seen.
    pub msg_type: u8,
    /// Whether a height report has been recognized.
    pub valid: bool,
}

/// The state of a scan before its first byte.
pub open spec fn fresh_scan() -> ScanState {
    ScanState { history: seq![0u8, 0u8, 0u8, 0u8, 0u8], msg_len: 0, msg_type: 0, valid: false }
}

/// `h` with `b` come in at the front and the oldest byte gone.
pub open spec fn shifted(h: Seq<u8>, b: u8) -> Seq<u8> {
    seq![b, h[0], h[1], h[2], h[3]]
}

/// One byte of the scan: the state after it, and the outcome when the byte
/// ends the scan. Every rule looks at where the marker stood in the history
/// before the byte came in:
/// - right before it: the byte is the frame's length;
/// - two back: the byte is the frame's type;
/// - three back, in a frame of the height type and length: the byte is the
///   first digit; zero there means a blank display, anything else
///   recognizes the frame, and nothing more is looked at for this byte;
/// - four back, in a recognized frame: the byte is the second digit, kept;
/// - five back, in a recognized frame of the height length: the byte is the
///   third digit, and the height is composed from the three.
pub open spec fn scan_step(s: ScanState, b: u8) -> (ScanState, Option<Result<int, DeskError>>) {
    let h = s.history;
    let len = if h[0] == MARKER { b } else { s.msg_len };
    let ty = if h[1] == MARKER { b } else { s.msg_type };
    let header = h[2] == MARKER && ty == HEIGHT_TYPE && len == HEIGHT_LENGTH;
    let next = ScanState {
        history: shifted(h, b),
        msg_len: len,
        msg_type: ty,
        valid: s.valid || (header && b != 0),
    };
    if header {
        if b == 0 {
            (next, Some(Err(DeskError::HeightEmpty)))
        } else {
            (next, None)
        }
    } else if h[3] == MARKER && s.valid {
        (next, None)
    } else if h[4] == MARKER && s.valid && len == HEIGHT_LENGTH {
        (next, Some(composed_height(h[1], h[0], b)))
    } else {
        (next, None)
    }
}

/// The outcome of scanning `bytes` from state `s`: that of the first byte
/// that ends the scan, or `None` when none does.
pub open spec fn scan_bytes(s: ScanState, bytes: Seq<u8>) -> Option<Result<int, DeskError>>
    decreases bytes.len(),
{
    if bytes.len() == 0 {
        None
    } else {
        let (t, r) = scan_step(s, bytes[0]);
        if r is Some {
            r
        } else {
            scan_bytes(t, bytes.drop_first())
        }
    }
}

/// An outcome with a machine height, as one with a mathematical height.
pub open spec fn lift_outcome(r: Option<Result<i32, DeskError>>) -> Option<Result<int, DeskError>> {
    match r {
        None => None,
        Some(Ok(h)) => Some(Ok(h as int)),
        Some(Err(e)) => Some(Err(e)),
    }
}

/// The decoder of the desk's status stream: the bytes seen last and what is
/// known of the current frame. Start a new one for every query.
#[derive(Clone, Copy)]
pub struct ScanWindow {
    history: [u8; 5],
    msg_len: u8,
    msg_type: u8,
    valid: bool,
}

impl View for ScanWindow {
    type V = ScanState;

    closed spec fn view(&self) -> ScanState {
        ScanState {
            history: self.history@,
            msg_len: self.msg_len,
            msg_type: self.msg_type,
            valid: self.valid,
        }
    }
}

impl ScanWindow {
    /// A window that has seen no byte.
    pub fn new() -> (r: ScanWindow)
        ensures
            r@ == fresh_scan(),
    {
        let r = ScanWindow { history: [0u8; 5], msg_len: 0, msg_type: 0, valid: false };
        assert(r@.history =~= fresh_scan().history);
        r
    }

    /// Takes in one byte of the stream. Returns the outcome of the scan when
    /// this byte ends it (a height in tenths of a centimetre, or why there is
    /// none), else `None`.
    pub fn feed(&mut self, byte: u8) -> (r: Option<Result<i32, DeskError>>)
        ensures
            (final(self)@, lift_outcome(r)) == scan_step(old(self)@, byte),
    {
        let h = self.history;
        let len = if h[0] == MARKER { byte } else { self.msg_len };
        let ty = if h[1] == MARKER { byte } else { self.msg_type };
        let header = h[2] == MARKER && ty == HEIGHT_TYPE && len == HEIGHT_LENGTH;
        let was_valid = self.valid;
        self.history = [byte, h[0], h[1], h[2], h[3]];
        self.msg_len = len;
        self.msg_type = ty;
        assert(self.history@ =~= shifted(h@, byte));
        if header {
            if byte == 0 {
                return Some(Err(DeskError::HeightEmpty));
            }
            self.valid = true;
            None
        } else if h[3] == MARKER && was_valid {
            None
        } else if h[4] == MARKER && was_valid && len == HEIGHT_LENGTH {
            Some(compose_height(h[1], h[0], byte))
        } else {
            None
        }
    }
}

/// Scanning a byte and then the rest: the byte's outcome if it ends the
/// scan, else the rest scanned from the state after the byte.
pub proof fn lemma_scan_cons(s: ScanState, b: u8, rest: Seq<u8>)
    ensures
        scan_bytes(s, seq![b] + rest) == (if scan_step(s, b).1 is Some {
            scan_step(s, b).1
        } else {
            scan_bytes(scan_step(s, b).0, rest)
        }),
{
    let bytes = seq![b] + rest;
    assert(bytes[0] == b);
    assert(bytes.drop_first() =~= rest);
}

/// A fresh scan of a height report (marker, length, type, then three digit
/// bytes of which the first is not zero) ends on the third digit byte with
/// the height that the three digits show, whatever follows them. The first
/// two digit bytes must not be the marker, which would start a new frame.
pub proof fn lemma_scan_height_frame(d0: u8, d1: u8, d2: u8, rest: Seq<u8>)
    requires
        d0 != 0,
        d0 != MARKER,
        d1 != MARKER,
    ensures
        scan_bytes(fresh_scan(), seq![MARKER, HEIGHT_LENGTH, HEIGHT_TYPE, d0, d1, d2] + rest)
            == Some(composed_height(d0, d1, d2)),
{
    let s0 = fresh_scan();
    let s1 = scan_step(s0, MARKER).0;
    let s2 = scan_step(s1, HEIGHT_LENGTH).0;
    let s3 = scan_step(s2, HEIGHT_TYPE).0;
    let s4 = scan_step(s3, d0).0;
    let s5 = scan_step(s4, d1).0;
    let t5 = seq![d2] + rest;
    let t4 = seq![d1] + t5;
    let t3 = seq![d0] + t4;
    let t2 = seq![HEIGHT_TYPE] + t3;
    let t1 = seq![HEIGHT_LENGTH] + t2;
    let t0 = seq![MARKER] + t1;
    assert(seq![MARKER, HEIGHT_LENGTH, HEIGHT_TYPE, d0, d1, d2] + rest =~= t0);
    lemma_scan_cons(s0, MARKER, t1);
    lemma_scan_cons(s1, HEIGHT_LENGTH, t2);
    lemma_scan_cons(s2, HEIGHT_TYPE, t3);
    lemma_scan_cons(s3, d0, t4);
    lemma_scan_cons(s4, d1, t5);
    lemma_scan_cons(s5, d2, rest);
}

/// A fresh scan of a height report whose first digit byte is zero, a blank
/// display, ends on that byte with `HeightEmpty`, whatever follows it.
pub proof fn lemma_scan_blank_display(rest: Seq<u8>)
    ensures
        scan_bytes(fresh_scan(), seq![MARKER, HEIGHT_LENGTH, HEIGHT_TYPE, 0u8] + rest)
            == Some(Err::<int, DeskError>(DeskError::HeightEmpty)),
{
    let s0 = fresh_scan();
    let s1 = scan_step(s0, MARKER).0;
    let s2 = scan_step(s1, HEIGHT_LENGTH).0;
    let s3 = scan_step(s2, HEIGHT_TYPE).0;
    let t3 = seq![0u8] + rest;
    let t2 = seq![HEIGHT_TYPE] + t3;
    let t1 = seq![HEIGHT_LENGTH] + t2;
    let t0 = seq![MARKER] + t1;
    assert(seq![MARKER, HEIGHT_LENGTH, HEIGHT_TYPE, 0u8] + rest =~= t0);
    lemma_scan_cons(s0, MARKER, t1);
    lemma_scan_cons(s1, HEIGHT_LENGTH, t2);
    lemma_scan_cons(s2, HEIGHT_TYPE, t3);
    lemma_scan_cons(s3, 0u8, rest);
}

} // verus!
