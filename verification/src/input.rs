//! Seat input: the events a pane forwards to the nested compositor, and the key and button codes
//! in them.

use vstd::prelude::*;

verus! {

/// One input event for the nested compositor's seat.
///
/// Positions are output positions in sub-pixels (see [`crate::geometry::SUBPIXELS`]); buttons and
/// keys are raw Linux evdev codes.
#[derive(Debug, Clone, PartialEq, Eq)]
pub enum SpikeInput {
    /// The pointer moved, with no button involved.
    Motion { x: i64, y: i64 },
    /// A pointer button went down or up.
    Button { x: i64, y: i64, button: u32, pressed: bool },
    /// A scroll delta along each axis, as the bit pattern of the toolkit's binary64 value.
    Scroll { dx: u64, dy: u64 },
    /// A key went down or up.
    Key { evdev: u32, pressed: bool },
    /// A run of text to type.
    Text(String),
    /// Keyboard focus entered or left the pane.
    Focus(bool),
    /// The nested output should have this size, in device pixels.
    Resize { width: i32, height: i32 },
}

/// evdev code of the left pointer button.
pub const BTN_LEFT: u32 = 0x110;

/// evdev code of the right pointer button.
pub const BTN_RIGHT: u32 = 0x111;

/// evdev code of the middle pointer button.
pub const BTN_MIDDLE: u32 = 0x112;

/// How far a toolkit keycode lies above the evdev code of the same key.
pub const KEYCODE_OFFSET: u32 = 8;

/// The evdev code of a GTK pointer button: left, middle and right are forwarded, others not.
pub open spec fn evdev_button(button: u32) -> Option<u32> {
    if button == 1 {
        Some(BTN_LEFT)
    } else if button == 2 {
        Some(BTN_MIDDLE)
    } else if button == 3 {
        Some(BTN_RIGHT)
    } else {
        None
    }
}

/// Maps a GTK pointer button number to its Linux `BTN_*` evdev code (unknown: `None`).
pub fn gtk_button_to_evdev(button: u32) -> (code: Option<u32>)
    ensures
        code == evdev_button(button),
        code == Some(0x110u32) <==> button == 1,
        code == Some(0x112u32) <==> button == 2,
        code == Some(0x111u32) <==> button == 3,
        code is Some <==> 1 <= button <= 3,
{
    match button {
        1 => Some(BTN_LEFT),
        2 => Some(BTN_MIDDLE),
        3 => Some(BTN_RIGHT),
        _ => None,
    }
}

/// The evdev code of a hardware keycode; the lowest keycodes stand for no key.
pub open spec fn evdev_key(keycode: u32) -> Option<u32> {
    if keycode >= KEYCODE_OFFSET {
        Some((keycode - KEYCODE_OFFSET) as u32)
    } else {
        None
    }
}

/// Maps a hardware keycode to its evdev code.
pub fn keycode_to_evdev(keycode: u32) -> (code: Option<u32>)
    ensures
        code == evdev_key(keycode),
        code is Some <==> keycode >= 8,
        code matches Some(c) ==> c + 8 == keycode,
{
    keycode.checked_sub(KEYCODE_OFFSET)
}

/// Different buttons stay different: no two forwarded buttons share a code.
pub proof fn law_buttons_stay_distinct(a: u32, b: u32)
    ensures
        evdev_button(a) is Some && evdev_button(a) == evdev_button(b) ==> a == b,
{
}

/// A key's evdev code plus the offset is its keycode, and every keycode that is high enough has
/// one.
pub proof fn law_keycode_comes_back(keycode: u32)
    ensures
        evdev_key(keycode) matches Some(code) ==> code + KEYCODE_OFFSET == keycode,
        evdev_key(keycode) is Some <==> keycode >= KEYCODE_OFFSET,
{
}

/// The left button is `BTN_LEFT` to the seat, the middle one `BTN_MIDDLE` and the right one
/// `BTN_RIGHT`, each by its number in the evdev protocol, and no other button has a code.
pub proof fn law_buttons_have_their_evdev_codes(button: u32)
    ensures
        evdev_button(button) == Some(0x110u32) <==> button == 1,
        evdev_button(button) == Some(0x112u32) <==> button == 2,
        evdev_button(button) == Some(0x111u32) <==> button == 3,
        evdev_button(button) is None <==> button == 0 || button > 3,
{
}

/// Keycodes lie eight above the evdev codes, and so neighbouring keys stay neighbours.
pub proof fn law_keycodes_lie_eight_above_evdev(keycode: u32, evdev: u32)
    ensures
        evdev_key(keycode) == Some(evdev) <==> keycode == evdev + 8,
        evdev_key(keycode) is None <==> keycode < 8,
{
}

} // verus!
