use flexispot_e7::command::{encode, memory_sequence, preset_sequence, Command, Preset};

const UP: [u8; 8] = [0x9b, 0x06, 0x02, 0x01, 0x00, 0xfc, 0xa0, 0x9d];
const DOWN: [u8; 8] = [0x9b, 0x06, 0x02, 0x02, 0x00, 0x0c, 0xa0, 0x9d];

#[test]
fn preset_aliases_share_frames() {
    assert_eq!(
        encode(&Command::Go { preset: Preset::Standing }),
        encode(&Command::Go { preset: Preset::Preset3 })
    );
    assert_eq!(
        encode(&Command::Go { preset: Preset::Sitting }),
        encode(&Command::Go { preset: Preset::Preset4 })
    );
    assert_ne!(preset_sequence(Preset::Standing), preset_sequence(Preset::Sitting));
    assert_ne!(preset_sequence(Preset::Preset1), preset_sequence(Preset::Preset2));
}

#[test]
fn preset_frames() {
    assert_eq!(
        encode(&Command::Go { preset: Preset::Standing }),
        Some(([0x9b, 0x06, 0x02, 0x10, 0x00, 0xac, 0xac, 0x9d], 1))
    );
    assert_eq!(
        encode(&Command::Go { preset: Preset::Sitting }),
        Some(([0x9b, 0x06, 0x02, 0x00, 0x01, 0xac, 0x60, 0x9d], 1))
    );
    assert_eq!(
        encode(&Command::Go { preset: Preset::Preset1 }),
        Some(([0x9b, 0x06, 0x02, 0x04, 0x00, 0xac, 0xa3, 0x9d], 1))
    );
    assert_eq!(
        encode(&Command::Go { preset: Preset::Preset2 }),
        Some(([0x9b, 0x06, 0x02, 0x08, 0x00, 0xac, 0xa6, 0x9d], 1))
    );
}

#[test]
fn motion_frames_and_counts() {
    assert_eq!(encode(&Command::Up { diff: None }), Some((UP, 1)));
    assert_eq!(encode(&Command::Down { diff: None }), Some((DOWN, 1)));
    assert_eq!(encode(&Command::Up { diff: Some(20) }), Some((UP, 58)));
    assert_eq!(encode(&Command::Down { diff: Some(-20) }), Some((DOWN, 58)));
    assert_eq!(encode(&Command::Up { diff: Some(0) }), Some((UP, 0)));
}

#[test]
fn single_frames() {
    assert_eq!(
        encode(&Command::WakeUp),
        Some(([0x9b, 0x06, 0x02, 0x00, 0x00, 0x6c, 0xa1, 0x9d], 1))
    );
    assert_eq!(encode(&Command::Memory), Some((memory_sequence(), 1)));
    assert_eq!(memory_sequence(), [0x9b, 0x06, 0x02, 0x20, 0x00, 0xac, 0xb8, 0x9d]);
}

#[test]
fn set_height_and_query_have_no_frame() {
    assert_eq!(encode(&Command::SetHeight { height: 1000 }), None);
    assert_eq!(encode(&Command::Query), None);
}

#[test]
fn preset_from_names() {
    assert_eq!(Preset::from("standing".to_string()), Preset::Standing);
    assert_eq!(Preset::from("sitting".to_string()), Preset::Sitting);
    assert_eq!(Preset::from("preset1".to_string()), Preset::Preset1);
    assert_eq!(Preset::from("p2".to_string()), Preset::Preset2);
    assert_eq!(Preset::from("preset3".to_string()), Preset::Preset3);
    assert_eq!(Preset::from("preset4".to_string()), Preset::Preset4);
    assert_eq!(Preset::from("preset5".to_string()), Preset::Standing);
    assert_eq!(Preset::from("".to_string()), Preset::Standing);
    assert_eq!(Preset::from("s".to_string()), Preset::Standing);
}

#[test]
fn preset_from_names_ignores_case() {
    assert_eq!(Preset::from("SItting".to_string()), Preset::Sitting);
    assert_eq!(Preset::from("PRESET2".to_string()), Preset::Preset2);
}

#[test]
fn preset_from_lowercase_bytes() {
    assert_eq!(Preset::from_lowercase(b"sit"), Preset::Sitting);
    assert_eq!(Preset::from_lowercase(b"st"), Preset::Standing);
    assert_eq!(Preset::from_lowercase(b"p4"), Preset::Preset4);
    assert_eq!(Preset::from_lowercase(b"SITTING"), Preset::Standing);
}
