//! Display labels for raw keyboard input.
//!
//! The library maps virtual-key codes to human-readable labels and decides
//! which raw input events produce output: key presses from a keyboard do,
//! key releases and non-keyboard events do not.

pub mod events;
pub mod keys;
