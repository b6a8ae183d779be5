//! Plain input events as the scene graph consumes them.  The windowing
//! layer turns its raw pointer and key events into these values; positions
//! are in device space until a page converts them to user space.

use vstd::prelude::*;

verus! {

/// The primary pointer button, the only one the editing engine reacts to.
pub const PRIMARY_BUTTON: u8 = 1;

/// The key code that arms the page-level pan action while held.
pub const PAN_KEY: u32 = 32;

/// Pointer movement, with the device-space position and whether the
/// primary button is held down during the move.
#[derive(Clone, Copy, PartialEq, Eq, Structural, Debug)]
pub struct MotionEvent {
    pub x: i64,
    pub y: i64,
    pub primary_held: bool,
}

/// A pointer button press or release at a device-space position.
#[derive(Clone, Copy, PartialEq, Eq, Structural, Debug)]
pub struct ButtonEvent {
    pub x: i64,
    pub y: i64,
    pub button: u8,
}

/// A key press or release.
#[derive(Clone, Copy, PartialEq, Eq, Structural, Debug)]
pub struct KeyEvent {
    pub key: u32,
}

} // verus!
