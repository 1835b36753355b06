//! Mouse buttons: the terminal's buttons, the window's buttons, and the
//! slot that holds the state of each tracked button.
use vstd::prelude::*;

verus! {

/// A mouse button as the terminal reports it.
#[derive(Clone, Copy, Debug, PartialEq, Eq, Hash, Structural)]
pub enum TermMouseButton {
    Left,
    Right,
    Middle,
}

/// A mouse button as the window interface names it.
#[derive(Clone, Copy, Debug, PartialEq, Eq, Hash, Structural)]
pub enum MouseButton {
    Left,
    Right,
    Middle,
    /// Any further button of the pointer, by its number.
    Extra(u8),
}

/// The number of mouse buttons whose state the window tracks.
pub const TRACKED_BUTTONS: usize = 3;

/// The window button that a terminal button stands for.
pub open spec fn window_button(btn: TermMouseButton) -> MouseButton {
    match btn {
        TermMouseButton::Left => MouseButton::Left,
        TermMouseButton::Right => MouseButton::Right,
        TermMouseButton::Middle => MouseButton::Middle,
    }
}

/// The slot of a tracked button in the button state, or `None` for a button
/// that is not tracked.
pub open spec fn button_slot(button: MouseButton) -> Option<int> {
    match button {
        MouseButton::Left => Some(0),
        MouseButton::Right => Some(1),
        MouseButton::Middle => Some(2),
        MouseButton::Extra(_) => None,
    }
}

/// Converts a terminal mouse button into the window's mouse button.
pub fn button_to_index(btn: TermMouseButton) -> (button: MouseButton)
    ensures
        button == window_button(btn),
{
    match btn {
        TermMouseButton::Left => MouseButton::Left,
        TermMouseButton::Right => MouseButton::Right,
        TermMouseButton::Middle => MouseButton::Middle,
    }
}

/// The slot that holds the state of `button`, if the window tracks it.
pub fn slot_of(button: MouseButton) -> (slot: Option<usize>)
    ensures
        match button_slot(button) {
            Some(i) => slot == Some(i as usize) && 0 <= i < TRACKED_BUTTONS,
            None => slot is None,
        },
{
    match button {
        MouseButton::Left => Some(0),
        MouseButton::Right => Some(1),
        MouseButton::Middle => Some(2),
        MouseButton::Extra(_) => None,
    }
}

} // verus!
