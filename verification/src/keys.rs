use vstd::prelude::*;

verus! {

/// Codes in this range are the letter keys `A` through `Z`; each code is the
/// code point of the uppercase letter on the key.
pub open spec fn is_letter_key(key: u16) -> bool {
    0x41 <= key <= 0x5A
}

/// Codes in this range are the digit keys `0` through `9`; each code is the
/// code point of the digit on the key.
pub open spec fn is_digit_key(key: u16) -> bool {
    0x30 <= key <= 0x39
}

/// The display label for a virtual-key code: a letter or digit key labels
/// itself with its single character, a fixed set of control keys has named
/// labels, and every other code is labelled "Unknown".
pub open spec fn key_label(key: u16) -> Seq<char> {
    if is_letter_key(key) || is_digit_key(key) {
        seq![key as u8 as char]
    } else if key == 0x0D {
        "Enter"@
    } else if key == 0x10 {
        "Shift"@
    } else if key == 0x11 {
        "Ctrl"@
    } else if key == 0x12 {
        "Alt"@
    } else if key == 0x14 {
        "Caps lock"@
    } else if key == 0x08 {
        "Backspace"@
    } else if key == 0x20 {
        "Space"@
    } else if key == 0x1B {
        "Escape"@
    } else {
        "Unknown"@
    }
}

/// A letter key labels itself: its label is one character, the uppercase
/// letter whose code point is the key's code.
pub proof fn lemma_letter_key_label(key: u16)
    requires
        is_letter_key(key),
    ensures
        key_label(key).len() == 1,
        key_label(key)[0] as u32 == key,
        'A' <= key_label(key)[0] <= 'Z',
{
}

/// A digit key labels itself: its label is one character, the digit whose
/// code point is the key's code.
pub proof fn lemma_digit_key_label(key: u16)
    requires
        is_digit_key(key),
    ensures
        key_label(key).len() == 1,
        key_label(key)[0] as u32 == key,
        '0' <= key_label(key)[0] <= '9',
{
}

/// Relies on `String::push`: appends the given character to the end of the
/// string.
pub assume_specification[ String::push ](s: &mut String, ch: char)
    ensures
        final(s)@ == old(s)@.push(ch),
;

/// The display label for a virtual-key code, as a `String`.
pub fn key_to_string(key_pressed: u16) -> (label: String)
    ensures
        label@ == key_label(key_pressed),
{
    if (0x41 <= key_pressed && key_pressed <= 0x5A) || (0x30 <= key_pressed && key_pressed <= 0x39) {
        let mut label = String::new();
        label.push(key_pressed as u8 as char);
        proof {
            assert(label@ =~= key_label(key_pressed));
        }
        label
    } else {
        match key_pressed {
            0x0D => "Enter".to_owned(),
            0x10 => "Shift".to_owned(),
            0x11 => "Ctrl".to_owned(),
            0x12 => "Alt".to_owned(),
            0x14 => "Caps lock".to_owned(),
            0x08 => "Backspace".to_owned(),
            0x20 => "Space".to_owned(),
            0x1B => "Escape".to_owned(),
            _ => "Unknown".to_owned(),
        }
    }
}

} // verus!
