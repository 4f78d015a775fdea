use rawkey::events::{key_event_label, KEY_RELEASE_FLAG, RAW_INPUT_TYPE_KEYBOARD};

#[test]
fn key_press_produces_its_label() {
    let out = key_event_label(RAW_INPUT_TYPE_KEYBOARD, 0x41, 0);
    assert_eq!(out, Some("A".to_string()));
}

#[test]
fn key_release_produces_no_output() {
    assert_eq!(key_event_label(RAW_INPUT_TYPE_KEYBOARD, 0x41, KEY_RELEASE_FLAG), None);
    assert_eq!(key_event_label(RAW_INPUT_TYPE_KEYBOARD, 0x0D, 1), None);
}

#[test]
fn extended_key_release_produces_no_output() {
    // release bit together with the extended-key bit, e.g. right Ctrl going up
    assert_eq!(key_event_label(RAW_INPUT_TYPE_KEYBOARD, 0xA3, 3), None);
    assert_eq!(key_event_label(RAW_INPUT_TYPE_KEYBOARD, 0x41, 3), None);
}

#[test]
fn non_keyboard_events_produce_no_output() {
    assert_eq!(key_event_label(0, 0x41, 0), None);
    assert_eq!(key_event_label(2, 0x41, 0), None);
}

#[test]
fn press_with_extended_flags_still_produces_output() {
    let out = key_event_label(RAW_INPUT_TYPE_KEYBOARD, 0x0D, 2);
    assert_eq!(out, Some("Enter".to_string()));
}

#[test]
fn unknown_key_press_is_labelled_unknown() {
    let out = key_event_label(RAW_INPUT_TYPE_KEYBOARD, 0x07, 0);
    assert_eq!(out, Some("Unknown".to_string()));
}
