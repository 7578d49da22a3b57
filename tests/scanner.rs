use flexispot_e7::error::DeskError;
use flexispot_e7::scanner::ScanWindow;

/// Feeds bytes until the scan ends; the outcome and how many bytes it took.
fn scan(bytes: &[u8]) -> Option<(Result<i32, DeskError>, usize)> {
    let mut window = ScanWindow::new();
    for (i, b) in bytes.iter().enumerate() {
        if let Some(r) = window.feed(*b) {
            return Some((r, i + 1));
        }
    }
    None
}

#[test]
fn height_frame_decodes() {
    // Marker, length 7, type 0x12, then the digits 9, 0 with its point, 0:
    // 90.0 cm. The first digit byte is the non-zero byte after the header.
    assert_eq!(scan(&[0x9b, 0x07, 0x12, 0x6f, 0xbf, 0x3f, 0x00, 0x00]), Some((Ok(900), 6)));
}

#[test]
fn height_frame_whole_centimetres() {
    // 0, 9, 0 without a point: 90 cm.
    assert_eq!(scan(&[0x9b, 0x07, 0x12, 0x3f, 0x6f, 0x3f, 0x12]), Some((Ok(900), 6)));
}

#[test]
fn height_frame_after_noise() {
    let bytes = [0x01, 0x9d, 0x9b, 0x06, 0x02, 0x01, 0x00, 0x9b, 0x07, 0x12, 0x06, 0x3f, 0x6d];
    assert_eq!(scan(&bytes), Some((Ok(1050), 13)));
}

#[test]
fn blank_display_is_height_empty() {
    assert_eq!(scan(&[0x9b, 0x07, 0x12, 0x00, 0x3f, 0x3f]), Some((Err(DeskError::HeightEmpty), 4)));
}

#[test]
fn unknown_digit_is_display_empty() {
    assert_eq!(scan(&[0x9b, 0x07, 0x12, 0x06, 0x01, 0x6d]), Some((Err(DeskError::DisplayEmpty), 6)));
}

#[test]
fn other_frames_are_skipped() {
    assert_eq!(scan(&[0x9b, 0x06, 0x02, 0x01, 0x00, 0xfc, 0xa0, 0x9d]), None);
    assert_eq!(scan(&[0x9b, 0x07, 0x11, 0x06, 0x3f, 0x6d, 0x00]), None);
}
