//! What a key press does in the macOS picker.

use vstd::prelude::*;

verus! {

/// Virtual key code of Escape.
pub const KEY_ESCAPE: u16 = 53;

/// Virtual key code of Return.
pub const KEY_RETURN: u16 = 36;

/// Virtual key code of the left arrow.
pub const KEY_LEFT: u16 = 123;

/// Virtual key code of the right arrow.
pub const KEY_RIGHT: u16 = 124;

/// Virtual key code of the down arrow.
pub const KEY_DOWN: u16 = 125;

/// Virtual key code of the up arrow.
pub const KEY_UP: u16 = 126;

/// Pixels an arrow key moves the cursor with Shift held (one without).
pub const MAC_SHIFT_MOVE_PIXELS: i32 = 50;

/// What the macOS picker does for a key.
#[derive(Clone, Copy, Debug, PartialEq, Eq)]
pub enum MacKeyAction {
    /// Close the picker without choosing.
    Stop,
    /// Choose the colour under the cursor and close the picker.
    SelectAndStop,
    /// Move the cursor by `(dx, dy)` pixels, `dy` counted upwards, then sample its colour.
    Move(i32, i32),
    /// Nothing.
    Ignore,
}

/// The action for a key code; arrows move one pixel, or fifty with Shift.
pub open spec fn mac_key_action_spec(key_code: u16, shift: bool) -> MacKeyAction {
    let amount: i32 = if shift { MAC_SHIFT_MOVE_PIXELS } else { 1 };
    if key_code == KEY_ESCAPE {
        MacKeyAction::Stop
    } else if key_code == KEY_RETURN {
        MacKeyAction::SelectAndStop
    } else if key_code == KEY_LEFT {
        MacKeyAction::Move((-amount) as i32, 0)
    } else if key_code == KEY_RIGHT {
        MacKeyAction::Move(amount, 0)
    } else if key_code == KEY_DOWN {
        MacKeyAction::Move(0, (-amount) as i32)
    } else if key_code == KEY_UP {
        MacKeyAction::Move(0, amount)
    } else {
        MacKeyAction::Ignore
    }
}

/// The action of the macOS picker for a key press with the given Shift state.
pub fn mac_key_action(key_code: u16, shift: bool) -> (action: MacKeyAction)
    ensures
        action == mac_key_action_spec(key_code, shift),
{
    let amount: i32 = if shift {
        MAC_SHIFT_MOVE_PIXELS
    } else {
        1
    };
    if key_code == KEY_ESCAPE {
        MacKeyAction::Stop
    } else if key_code == KEY_RETURN {
        MacKeyAction::SelectAndStop
    } else if key_code == KEY_LEFT {
        MacKeyAction::Move(-amount, 0)
    } else if key_code == KEY_RIGHT {
        MacKeyAction::Move(amount, 0)
    } else if key_code == KEY_DOWN {
        MacKeyAction::Move(0, -amount)
    } else if key_code == KEY_UP {
        MacKeyAction::Move(0, amount)
    } else {
        MacKeyAction::Ignore
    }
}

/// Escape (53) closes, Return (36) chooses and closes, the arrows 123 to 126 move left,
/// right, down and up by one pixel or fifty with Shift, and no other key does anything.
pub proof fn lemma_mac_keys(key_code: u16, shift: bool)
    ensures
        key_code == 53 ==> mac_key_action_spec(key_code, shift) == MacKeyAction::Stop,
        key_code == 36 ==> mac_key_action_spec(key_code, shift) == MacKeyAction::SelectAndStop,
        key_code == 123 ==> mac_key_action_spec(key_code, shift) == MacKeyAction::Move(
            if shift { -50i32 } else { -1i32 },
            0,
        ),
        key_code == 124 ==> mac_key_action_spec(key_code, shift) == MacKeyAction::Move(
            if shift { 50i32 } else { 1i32 },
            0,
        ),
        key_code == 125 ==> mac_key_action_spec(key_code, shift) == MacKeyAction::Move(
            0,
            if shift { -50i32 } else { -1i32 },
        ),
        key_code == 126 ==> mac_key_action_spec(key_code, shift) == MacKeyAction::Move(
            0,
            if shift { 50i32 } else { 1i32 },
        ),
        !(key_code == 53 || key_code == 36 || (123 <= key_code <= 126)) ==> mac_key_action_spec(
            key_code,
            shift,
        ) == MacKeyAction::Ignore,
{
}

} // verus!
