//! Terminal input events and what each does to the window's input state.
use vstd::prelude::*;

use crate::keys::{keycode_of, KeyCode, TermKeyCode};
use crate::mouse::{button_slot, window_button, MouseButton, TermMouseButton};

verus! {

/// What happened to a key.
#[derive(Clone, Copy, Debug, PartialEq, Eq, Hash, Structural)]
pub enum TermKeyEventKind {
    Press,
    Repeat,
    Release,
}

/// What the mouse did.
#[derive(Clone, Copy, Debug, PartialEq, Eq, Hash, Structural)]
pub enum TermMouseEventKind {
    Down(TermMouseButton),
    Up(TermMouseButton),
    Drag(TermMouseButton),
    Moved,
    ScrollDown,
    ScrollUp,
    ScrollLeft,
    ScrollRight,
}

/// An input event as the terminal reports it.
#[derive(Clone, Debug, PartialEq, Eq)]
pub enum TermEvent {
    FocusGained,
    FocusLost,
    Key { code: TermKeyCode, kind: TermKeyEventKind },
    Mouse { column: u16, row: u16, action: TermMouseEventKind },
    Paste(String),
    Resize(u16, u16),
}

/// The set of pressed keys after a key event: a press adds the key, a
/// release removes it, a repeat changes nothing.
pub open spec fn keys_after(keys: Set<KeyCode>, code: TermKeyCode, kind: TermKeyEventKind) -> Set<
    KeyCode,
> {
    match kind {
        TermKeyEventKind::Press => keys.insert(keycode_of(code)),
        TermKeyEventKind::Release => keys.remove(keycode_of(code)),
        TermKeyEventKind::Repeat => keys,
    }
}

/// The button state with the state of `button` set to `down`; a button
/// that is not tracked leaves it as it is.
pub open spec fn with_button(buttons: Seq<bool>, button: MouseButton, down: bool) -> Seq<bool> {
    match button_slot(button) {
        Some(i) => buttons.update(i, down),
        None => buttons,
    }
}

/// The button state after a mouse event: a press marks the button down, a
/// release marks it up, anything else changes nothing.
pub open spec fn buttons_after(buttons: Seq<bool>, kind: TermMouseEventKind) -> Seq<bool> {
    match kind {
        TermMouseEventKind::Down(b) => with_button(buttons, window_button(b), true),
        TermMouseEventKind::Up(b) => with_button(buttons, window_button(b), false),
        _ => buttons,
    }
}

/// Whether `button` is down in the button state `buttons`; a button that is
/// not tracked is never down.
pub open spec fn button_down(buttons: Seq<bool>, button: MouseButton) -> bool {
    match button_slot(button) {
        Some(i) => buttons[i],
        None => false,
    }
}

/// The set of pressed keys after any event: only key events change it.
pub open spec fn event_keys(keys: Set<KeyCode>, event: TermEvent) -> Set<KeyCode> {
    match event {
        TermEvent::Key { code, kind } => keys_after(keys, code, kind),
        _ => keys,
    }
}

/// The set of pressed keys after the events `events`, taken in order.
pub open spec fn keys_after_events(keys: Set<KeyCode>, events: Seq<TermEvent>) -> Set<KeyCode>
    decreases events.len(),
{
    if events.len() == 0 {
        keys
    } else {
        event_keys(keys_after_events(keys, events.drop_last()), events.last())
    }
}

/// Whether `event` is a press of a key that stands for `key`.
pub open spec fn is_press_of(event: TermEvent, key: KeyCode) -> bool {
    event matches TermEvent::Key { code, kind } && kind == TermKeyEventKind::Press && keycode_of(
        code,
    ) == key
}

/// Whether `event` is a release of a key that stands for `key`.
pub open spec fn is_release_of(event: TermEvent, key: KeyCode) -> bool {
    event matches TermEvent::Key { code, kind } && kind == TermKeyEventKind::Release
        && keycode_of(code) == key
}

/// Whether no event of `events` from position `from` on releases `key`.
pub open spec fn not_released_from(events: Seq<TermEvent>, from: int, key: KeyCode) -> bool {
    forall|j: int| from <= j < events.len() ==> !is_release_of(#[trigger] events[j], key)
}

/// Whether some event of `events` presses `key` and no later one releases it.
pub open spec fn pressed_last(events: Seq<TermEvent>, key: KeyCode) -> bool {
    exists|i: int|
        0 <= i < events.len() && is_press_of(#[trigger] events[i], key) && not_released_from(
            events,
            i + 1,
            key,
        )
}

} // verus!
