//! Properties of the key mapping and of the input state that hold for all
//! inputs.
use vstd::prelude::*;

use crate::events::{
    button_down, buttons_after, is_press_of, is_release_of, keys_after, keys_after_events,
    not_released_from, pressed_last, TermEvent, TermKeyEventKind, TermMouseEventKind,
};
use crate::keys::{
    char_key, function_key, is_lower_letter, keycode_of, letter_key, KeyCode, TermKeyCode,
};
use crate::mouse::{button_slot, window_button, MouseButton, TermMouseButton};

verus! {

/// Pressing a key that was up and then releasing it leaves the set of
/// pressed keys as it was.
pub proof fn law_press_then_release(keys: Set<KeyCode>, code: TermKeyCode)
    requires
        !keys.contains(keycode_of(code)),
    ensures
        keys_after(keys_after(keys, code, TermKeyEventKind::Press), code, TermKeyEventKind::Release)
            == keys,
{
    assert(keys.insert(keycode_of(code)).remove(keycode_of(code)) =~= keys);
}

/// After a press the key is down, after a release it is up, and a repeat
/// changes nothing; the other keys keep their state.
pub proof fn law_key_event_effect(keys: Set<KeyCode>, code: TermKeyCode, other: KeyCode)
    requires
        other != keycode_of(code),
    ensures
        keys_after(keys, code, TermKeyEventKind::Press).contains(keycode_of(code)),
        !keys_after(keys, code, TermKeyEventKind::Release).contains(keycode_of(code)),
        keys_after(keys, code, TermKeyEventKind::Repeat) == keys,
        keys_after(keys, code, TermKeyEventKind::Press).contains(other) == keys.contains(other),
        keys_after(keys, code, TermKeyEventKind::Release).contains(other) == keys.contains(other),
{
}

/// After a mouse button goes down it is down, after it goes up it is up,
/// and the other buttons keep their state.
pub proof fn law_mouse_event_effect(buttons: Seq<bool>, btn: TermMouseButton, other: MouseButton)
    requires
        buttons.len() == 3,
        other != window_button(btn),
    ensures
        button_down(buttons_after(buttons, TermMouseEventKind::Down(btn)), window_button(btn)),
        !button_down(buttons_after(buttons, TermMouseEventKind::Up(btn)), window_button(btn)),
        button_down(buttons_after(buttons, TermMouseEventKind::Down(btn)), other) == button_down(
            buttons,
            other,
        ),
        button_down(buttons_after(buttons, TermMouseEventKind::Up(btn)), other) == button_down(
            buttons,
            other,
        ),
        buttons_after(buttons, TermMouseEventKind::Drag(btn)) == buttons,
        buttons_after(buttons, TermMouseEventKind::Moved) == buttons,
{
}

/// Only pressing or releasing a button changes the button state; moving,
/// dragging and scrolling leave every button as it was.
pub proof fn law_only_press_and_release_change_buttons(
    buttons: Seq<bool>,
    kind: TermMouseEventKind,
)
    requires
        !(kind is Down),
        !(kind is Up),
    ensures
        buttons_after(buttons, kind) == buttons,
{
}

/// The terminal's left, right and middle buttons are the window's left,
/// right and middle buttons, held in three different slots.
pub proof fn law_button_values()
    ensures
        window_button(TermMouseButton::Left) == MouseButton::Left,
        window_button(TermMouseButton::Right) == MouseButton::Right,
        window_button(TermMouseButton::Middle) == MouseButton::Middle,
        button_slot(MouseButton::Left) == Some(0int),
        button_slot(MouseButton::Right) == Some(1int),
        button_slot(MouseButton::Middle) == Some(2int),
        forall|n: u8| #[trigger] button_slot(MouseButton::Extra(n)) is None,
{
}

/// Every terminal mouse button is a tracked window button, and different
/// terminal buttons are different window buttons.
pub proof fn law_buttons_tracked_and_distinct(a: TermMouseButton, b: TermMouseButton)
    ensures
        button_slot(window_button(a)) is Some,
        a != b ==> window_button(a) != window_button(b),
{
}

/// A letter typed in upper case is the same key as in lower case.
pub proof fn law_letters_ignore_case(lower: char, upper: char)
    requires
        is_lower_letter(lower),
        upper as int == lower as int - 32,
    ensures
        keycode_of(TermKeyCode::Char(lower)) == keycode_of(TermKeyCode::Char(upper)),
        keycode_of(TermKeyCode::Char(lower)) != KeyCode::Unknown,
{
    assert(char_key(lower) == letter_key(lower as int - 'a' as int));
}

/// Different letters of the alphabet are different keys.
pub proof fn law_letters_distinct(a: char, b: char)
    requires
        is_lower_letter(a),
        is_lower_letter(b),
        a != b,
    ensures
        keycode_of(TermKeyCode::Char(a)) != keycode_of(TermKeyCode::Char(b)),
{
}

/// The function keys F1 to F12 are twelve different known keys, and every
/// other function key is unknown.
pub proof fn law_function_keys(n: u8, m: u8)
    ensures
        1 <= n <= 12 ==> function_key(n) != KeyCode::Unknown,
        !(1 <= n <= 12) ==> keycode_of(TermKeyCode::F(n)) == KeyCode::Unknown,
        1 <= n <= 12 && 1 <= m <= 12 && n != m ==> function_key(n) != function_key(m),
{
}

/// After a sequence of events, a key is down exactly when some event pressed
/// it and no later one released it, or it was down before and no event
/// released it; repeats and all other events never change the set.
pub proof fn law_keys_after_events(keys: Set<KeyCode>, events: Seq<TermEvent>, key: KeyCode)
    ensures
        keys_after_events(keys, events).contains(key) == (pressed_last(events, key) || (
        keys.contains(key) && not_released_from(events, 0, key))),
    decreases events.len(),
{
    if events.len() > 0 {
        let prev = events.drop_last();
        let n = events.len() - 1;
        let e = events.last();
        law_keys_after_events(keys, prev, key);
        assert(forall|j: int| 0 <= j < n ==> prev[j] == events[j]);
        if is_press_of(e, key) {
            assert(is_press_of(events[n], key));
            assert(not_released_from(events, n + 1, key));
        } else if is_release_of(e, key) {
            assert(!not_released_from(events, 0, key)) by {
                assert(is_release_of(events[n], key));
            }
            if pressed_last(events, key) {
                let i = choose|i: int|
                    0 <= i < events.len() && is_press_of(#[trigger] events[i], key)
                        && not_released_from(events, i + 1, key);
                assert(i != n);
                assert(is_release_of(events[n], key));
            }
        } else {
            assert(keys_after_events(keys, events).contains(key) == keys_after_events(keys, prev).contains(
                key,
            )) by {
                match e {
                    TermEvent::Key { code, kind } => {
                        if keycode_of(code) == key {
                            assert(kind == TermKeyEventKind::Repeat);
                        } else {
                            assert(keys_after(keys_after_events(keys, prev), code, kind).contains(key)
                                == keys_after_events(keys, prev).contains(key));
                        }
                    },
                    _ => {},
                }
            }
            if pressed_last(events, key) {
                let i = choose|i: int|
                    0 <= i < events.len() && is_press_of(#[trigger] events[i], key)
                        && not_released_from(events, i + 1, key);
                assert(i != n);
                assert(is_press_of(prev[i], key));
                assert(not_released_from(prev, i + 1, key));
            }
            if pressed_last(prev, key) {
                let i = choose|i: int|
                    0 <= i < prev.len() && is_press_of(#[trigger] prev[i], key)
                        && not_released_from(prev, i + 1, key);
                assert(is_press_of(events[i], key));
                assert(not_released_from(events, i + 1, key));
            }
            if not_released_from(prev, 0, key) {
                assert(not_released_from(events, 0, key));
            }
            if not_released_from(events, 0, key) {
                assert(not_released_from(prev, 0, key));
            }
        }
    }
}

/// Starting with no key down, after a sequence of events a key is down
/// exactly when some event pressed it and no later one released it.
pub proof fn law_pressed_after_events(events: Seq<TermEvent>, key: KeyCode)
    ensures
        keys_after_events(Set::empty(), events).contains(key) == pressed_last(events, key),
{
    law_keys_after_events(Set::empty(), events, key);
}

} // verus!
