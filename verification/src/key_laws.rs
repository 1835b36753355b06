//! What the key mapping gives, key by key, and that it tells different keys
//! apart.
use vstd::prelude::*;

use crate::keys::{
    is_digit, is_lower_letter, is_upper_letter, keycode_of, KeyCode, TermKeyCode, TermMediaKeyCode, TermModifierKeyCode,
};

verus! {

/// A character with an upper-case ASCII letter folded to lower case.
pub open spec fn folded(c: char) -> int {
    if is_upper_letter(c) {
        c as int + 32
    } else {
        c as int
    }
}

/// Whether two terminal keys are the same key of the keyboard: equal, the
/// same letter in either case, home and keypad begin, reverse and rewind,
/// or a meta key and the control key of its side.
pub open spec fn same_key(a: TermKeyCode, b: TermKeyCode) -> bool {
    ||| a == b
    ||| (a matches TermKeyCode::Char(c) && b matches TermKeyCode::Char(d) && folded(c) == folded(d))
    ||| ((a == TermKeyCode::Home || a == TermKeyCode::KeypadBegin) && (b == TermKeyCode::Home || b
        == TermKeyCode::KeypadBegin))
    ||| ((a == TermKeyCode::Media(TermMediaKeyCode::Reverse) || a == TermKeyCode::Media(
        TermMediaKeyCode::Rewind,
    )) && (b == TermKeyCode::Media(TermMediaKeyCode::Reverse) || b == TermKeyCode::Media(
        TermMediaKeyCode::Rewind,
    )))
    ||| ((a == TermKeyCode::Modifier(TermModifierKeyCode::LeftControl) || a == TermKeyCode::Modifier(
        TermModifierKeyCode::LeftMeta,
    )) && (b == TermKeyCode::Modifier(TermModifierKeyCode::LeftControl) || b
        == TermKeyCode::Modifier(TermModifierKeyCode::LeftMeta)))
    ||| ((a == TermKeyCode::Modifier(TermModifierKeyCode::RightControl) || a
        == TermKeyCode::Modifier(TermModifierKeyCode::RightMeta)) && (b == TermKeyCode::Modifier(
        TermModifierKeyCode::RightControl,
    ) || b == TermKeyCode::Modifier(TermModifierKeyCode::RightMeta)))
}

/// Two terminal keys with a known window key get the same window key
/// exactly when they are the same key of the keyboard.
pub proof fn law_keys_distinct(a: TermKeyCode, b: TermKeyCode)
    ensures
        keycode_of(a) != KeyCode::Unknown ==> (keycode_of(a) == keycode_of(b) <==> same_key(a, b)),
{
}

/// The keys of the alphabet, in order.
pub open spec fn alphabet() -> Seq<KeyCode> {
    seq![
        KeyCode::KeyA, KeyCode::KeyB, KeyCode::KeyC, KeyCode::KeyD, KeyCode::KeyE, KeyCode::KeyF,
        KeyCode::KeyG, KeyCode::KeyH, KeyCode::KeyI, KeyCode::KeyJ, KeyCode::KeyK, KeyCode::KeyL,
        KeyCode::KeyM, KeyCode::KeyN, KeyCode::KeyO, KeyCode::KeyP, KeyCode::KeyQ, KeyCode::KeyR,
        KeyCode::KeyS, KeyCode::KeyT, KeyCode::KeyU, KeyCode::KeyV, KeyCode::KeyW, KeyCode::KeyX,
        KeyCode::KeyY, KeyCode::KeyZ,
    ]
}

/// The digit keys, in order.
pub open spec fn digits() -> Seq<KeyCode> {
    seq![
        KeyCode::Num0, KeyCode::Num1, KeyCode::Num2, KeyCode::Num3, KeyCode::Num4, KeyCode::Num5,
        KeyCode::Num6, KeyCode::Num7, KeyCode::Num8, KeyCode::Num9,
    ]
}

/// The function keys F1 to F12, in order.
pub open spec fn function_keys() -> Seq<KeyCode> {
    seq![
        KeyCode::F1, KeyCode::F2, KeyCode::F3, KeyCode::F4, KeyCode::F5, KeyCode::F6, KeyCode::F7,
        KeyCode::F8, KeyCode::F9, KeyCode::F10, KeyCode::F11, KeyCode::F12,
    ]
}

/// A letter, in either case, is the key of its place in the alphabet.
pub proof fn law_letter_values(c: char)
    requires
        is_lower_letter(c) || is_upper_letter(c),
    ensures
        keycode_of(TermKeyCode::Char(c)) == alphabet()[folded(c) - 'a' as int],
{
}

/// A digit is the key of its value.
pub proof fn law_digit_values(c: char)
    requires
        is_digit(c),
    ensures
        keycode_of(TermKeyCode::Char(c)) == digits()[c as int - '0' as int],
{
}

/// The function key `F(n)` is the n-th function key for `1 <= n <= 12`.
pub proof fn law_function_values(n: u8)
    requires
        1 <= n <= 12,
    ensures
        keycode_of(TermKeyCode::F(n)) == function_keys()[n - 1],
{
}

/// The space bar and the punctuation keys.
pub proof fn law_symbol_values()
    ensures
        keycode_of(TermKeyCode::Char(' ')) == KeyCode::Space,
        keycode_of(TermKeyCode::Char('-')) == KeyCode::Minus,
        keycode_of(TermKeyCode::Char('=')) == KeyCode::Equal,
        keycode_of(TermKeyCode::Char('[')) == KeyCode::LeftBracket,
        keycode_of(TermKeyCode::Char(']')) == KeyCode::RightBracket,
        keycode_of(TermKeyCode::Char('\\')) == KeyCode::Backslash,
        keycode_of(TermKeyCode::Char(';')) == KeyCode::Semicolon,
        keycode_of(TermKeyCode::Char('\'')) == KeyCode::Quote,
        keycode_of(TermKeyCode::Char(',')) == KeyCode::Comma,
        keycode_of(TermKeyCode::Char('.')) == KeyCode::Period,
        keycode_of(TermKeyCode::Char('/')) == KeyCode::Slash,
        keycode_of(TermKeyCode::Char('`')) == KeyCode::Grave,
{
}

/// Whether `c` is one of the characters with a key of its own besides the
/// letters and digits.
pub open spec fn is_symbol(c: char) -> bool {
    c == ' ' || c == '-' || c == '=' || c == '[' || c == ']' || c == '\\' || c == ';' || c == '\''
        || c == ',' || c == '.' || c == '/' || c == '`'
}

/// A character is an unknown key exactly when it is neither a letter, a
/// digit nor one of the symbols with a key.
pub proof fn law_unknown_chars(c: char)
    ensures
        (keycode_of(TermKeyCode::Char(c)) == KeyCode::Unknown) <==> !(is_lower_letter(c)
            || is_upper_letter(c) || is_digit(c) || is_symbol(c)),
{
}

/// The named keys.
pub proof fn law_named_values()
    ensures
        keycode_of(TermKeyCode::Backspace) == KeyCode::Backspace,
        keycode_of(TermKeyCode::Enter) == KeyCode::Enter,
        keycode_of(TermKeyCode::Left) == KeyCode::LeftArrow,
        keycode_of(TermKeyCode::Right) == KeyCode::RightArrow,
        keycode_of(TermKeyCode::Up) == KeyCode::UpArrow,
        keycode_of(TermKeyCode::Down) == KeyCode::DownArrow,
        keycode_of(TermKeyCode::Home) == KeyCode::Home,
        keycode_of(TermKeyCode::KeypadBegin) == KeyCode::Home,
        keycode_of(TermKeyCode::End) == KeyCode::End,
        keycode_of(TermKeyCode::PageUp) == KeyCode::PageUp,
        keycode_of(TermKeyCode::PageDown) == KeyCode::PageDown,
        keycode_of(TermKeyCode::Tab) == KeyCode::Tab,
        keycode_of(TermKeyCode::BackTab) == KeyCode::BackTab,
        keycode_of(TermKeyCode::Delete) == KeyCode::Delete,
        keycode_of(TermKeyCode::Insert) == KeyCode::Insert,
        keycode_of(TermKeyCode::Null) == KeyCode::Unknown,
        keycode_of(TermKeyCode::Esc) == KeyCode::Escape,
        keycode_of(TermKeyCode::CapsLock) == KeyCode::CapsLock,
        keycode_of(TermKeyCode::ScrollLock) == KeyCode::ScrollLock,
        keycode_of(TermKeyCode::NumLock) == KeyCode::NumLock,
        keycode_of(TermKeyCode::PrintScreen) == KeyCode::PrintScreen,
        keycode_of(TermKeyCode::Pause) == KeyCode::Pause,
        keycode_of(TermKeyCode::Menu) == KeyCode::Menu,
{
}

/// The media keys.
pub proof fn law_media_values()
    ensures
        keycode_of(TermKeyCode::Media(TermMediaKeyCode::Play)) == KeyCode::MediaPlay,
        keycode_of(TermKeyCode::Media(TermMediaKeyCode::Pause)) == KeyCode::MediaPause,
        keycode_of(TermKeyCode::Media(TermMediaKeyCode::PlayPause)) == KeyCode::MediaPlayPause,
        keycode_of(TermKeyCode::Media(TermMediaKeyCode::Reverse)) == KeyCode::MediaReverse,
        keycode_of(TermKeyCode::Media(TermMediaKeyCode::Rewind)) == KeyCode::MediaReverse,
        keycode_of(TermKeyCode::Media(TermMediaKeyCode::Stop)) == KeyCode::MediaStop,
        keycode_of(TermKeyCode::Media(TermMediaKeyCode::FastForward))
            == KeyCode::MediaFastForward,
        keycode_of(TermKeyCode::Media(TermMediaKeyCode::TrackNext)) == KeyCode::MediaNext,
        keycode_of(TermKeyCode::Media(TermMediaKeyCode::TrackPrevious)) == KeyCode::MediaPrev,
        keycode_of(TermKeyCode::Media(TermMediaKeyCode::Record)) == KeyCode::MediaRecord,
        keycode_of(TermKeyCode::Media(TermMediaKeyCode::LowerVolume)) == KeyCode::VolumeDown,
        keycode_of(TermKeyCode::Media(TermMediaKeyCode::RaiseVolume)) == KeyCode::VolumeUp,
        keycode_of(TermKeyCode::Media(TermMediaKeyCode::MuteVolume)) == KeyCode::Mute,
{
}

/// The modifier keys.
pub proof fn law_modifier_values()
    ensures
        keycode_of(TermKeyCode::Modifier(TermModifierKeyCode::LeftShift)) == KeyCode::LeftShift,
        keycode_of(TermKeyCode::Modifier(TermModifierKeyCode::LeftControl))
            == KeyCode::LeftControl,
        keycode_of(TermKeyCode::Modifier(TermModifierKeyCode::LeftMeta)) == KeyCode::LeftControl,
        keycode_of(TermKeyCode::Modifier(TermModifierKeyCode::LeftAlt)) == KeyCode::LeftAlt,
        keycode_of(TermKeyCode::Modifier(TermModifierKeyCode::LeftSuper)) == KeyCode::LeftSuper,
        keycode_of(TermKeyCode::Modifier(TermModifierKeyCode::LeftHyper)) == KeyCode::LeftHyper,
        keycode_of(TermKeyCode::Modifier(TermModifierKeyCode::RightShift))
            == KeyCode::RightShift,
        keycode_of(TermKeyCode::Modifier(TermModifierKeyCode::RightControl))
            == KeyCode::RightControl,
        keycode_of(TermKeyCode::Modifier(TermModifierKeyCode::RightMeta))
            == KeyCode::RightControl,
        keycode_of(TermKeyCode::Modifier(TermModifierKeyCode::RightAlt)) == KeyCode::RightAlt,
        keycode_of(TermKeyCode::Modifier(TermModifierKeyCode::RightSuper))
            == KeyCode::RightSuper,
        keycode_of(TermKeyCode::Modifier(TermModifierKeyCode::RightHyper))
            == KeyCode::RightHyper,
        keycode_of(TermKeyCode::Modifier(TermModifierKeyCode::IsoLevel3Shift))
            == KeyCode::AltControl,
        keycode_of(TermKeyCode::Modifier(TermModifierKeyCode::IsoLevel5Shift))
            == KeyCode::SpecialControl,
{
}

} // verus!
