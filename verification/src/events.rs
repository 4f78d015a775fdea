use vstd::prelude::*;
use crate::keys::{key_label, key_to_string};

verus! {

/// The raw-input type code that marks a keyboard device
/// (Win32 `RIM_TYPEKEYBOARD`).
pub const RAW_INPUT_TYPE_KEYBOARD: u32 = 1;

/// The key-state flag bit that marks a key release
/// (Win32 `RI_KEY_BREAK`).
pub const KEY_RELEASE_FLAG: u16 = 1;

/// Whether a raw input event produces output: it must come from a keyboard
/// device and be a key press, not a release (the release bit clear).
pub open spec fn produces_output(dw_type: u32, flags: u16) -> bool {
    dw_type == RAW_INPUT_TYPE_KEYBOARD && flags & KEY_RELEASE_FLAG == 0
}

/// The label to print for a raw input event, or `None` where the event
/// produces no output: key releases and non-keyboard events are dropped,
/// and every keyboard key press yields the label of its virtual-key code.
pub fn key_event_label(dw_type: u32, vkey: u16, flags: u16) -> (out: Option<String>)
    ensures
        out is Some <==> produces_output(dw_type, flags),
        out matches Some(label) ==> label@ == key_label(vkey),
{
    if dw_type == RAW_INPUT_TYPE_KEYBOARD && flags & KEY_RELEASE_FLAG == 0 {
        Some(key_to_string(vkey))
    } else {
        None
    }
}

} // verus!
