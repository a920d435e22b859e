use mute_assistant::{key_codes, key_label, LAST_KEY_CODE};

#[test]
fn letters_and_digits_have_labels() {
    assert_eq!(key_label(0x41), Some("A key"));
    assert_eq!(key_label(0x5A), Some("Z key"));
    assert_eq!(key_label(0x30), Some("0 key"));
    assert_eq!(key_label(0x2E), Some("DEL key"));
}

#[test]
fn repeated_codes_keep_the_last_label() {
    assert_eq!(key_label(0x15), Some("IME Hangul mode"));
    assert_eq!(key_label(0x19), Some("IME Kanji mode"));
}

#[test]
fn other_labels_come_from_the_table() {
    assert_eq!(key_label(0x01), Some("Left mouse button"));
    assert_eq!(key_label(0x5D), Some("Applications key (Natural keyboard)"));
    assert_eq!(key_label(0x87), Some("F24 key"));
    assert_eq!(key_label(0xB7), Some("Start Application 2 key"));
}

#[test]
fn unlisted_codes_have_no_label() {
    assert_eq!(key_label(0x00), None);
    assert_eq!(key_label(0x07), None);
    assert_eq!(key_label(0x5E), None);
    assert_eq!(key_label(0xB8), None);
    assert_eq!(key_label(u32::MAX), None);
}

#[test]
fn key_codes_are_ascending_and_labelled() {
    let codes = key_codes();
    assert_eq!(codes.len(), 148);
    assert_eq!(codes[0], 0x01);
    assert_eq!(*codes.last().unwrap(), LAST_KEY_CODE);
    for w in codes.windows(2) {
        assert!(w[0] < w[1]);
    }
    for c in 0..=0x100u32 {
        assert_eq!(codes.contains(&c), key_label(c).is_some());
    }
}
