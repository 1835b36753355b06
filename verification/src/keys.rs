//! Keys: the terminal's key codes, the window's key codes, and the mapping
//! from the first to the second.
use vstd::prelude::*;

verus! {

/// A media key as the terminal reports it.
#[derive(Clone, Copy, Debug, PartialEq, Eq, Hash, Structural)]
pub enum TermMediaKeyCode {
    Play,
    Pause,
    PlayPause,
    Reverse,
    Stop,
    FastForward,
    Rewind,
    TrackNext,
    TrackPrevious,
    Record,
    LowerVolume,
    RaiseVolume,
    MuteVolume,
}

/// A modifier key as the terminal reports it.
#[derive(Clone, Copy, Debug, PartialEq, Eq, Hash, Structural)]
pub enum TermModifierKeyCode {
    LeftShift,
    LeftControl,
    LeftAlt,
    LeftSuper,
    LeftHyper,
    LeftMeta,
    RightShift,
    RightControl,
    RightAlt,
    RightSuper,
    RightHyper,
    RightMeta,
    IsoLevel3Shift,
    IsoLevel5Shift,
}

/// A key as the terminal reports it.
#[derive(Clone, Copy, Debug, PartialEq, Eq, Hash, Structural)]
pub enum TermKeyCode {
    Backspace,
    Enter,
    Left,
    Right,
    Up,
    Down,
    Home,
    End,
    PageUp,
    PageDown,
    Tab,
    BackTab,
    Delete,
    Insert,
    F(u8),
    Char(char),
    Null,
    Esc,
    CapsLock,
    ScrollLock,
    NumLock,
    PrintScreen,
    Pause,
    Menu,
    KeypadBegin,
    Media(TermMediaKeyCode),
    Modifier(TermModifierKeyCode),
}

/// A key as the window interface names it.
#[derive(Clone, Copy, Debug, PartialEq, Eq, Hash, Structural)]
pub enum KeyCode {
    KeyA,
    KeyB,
    KeyC,
    KeyD,
    KeyE,
    KeyF,
    KeyG,
    KeyH,
    KeyI,
    KeyJ,
    KeyK,
    KeyL,
    KeyM,
    KeyN,
    KeyO,
    KeyP,
    KeyQ,
    KeyR,
    KeyS,
    KeyT,
    KeyU,
    KeyV,
    KeyW,
    KeyX,
    KeyY,
    KeyZ,
    Num0,
    Num1,
    Num2,
    Num3,
    Num4,
    Num5,
    Num6,
    Num7,
    Num8,
    Num9,
    Enter,
    Escape,
    Backspace,
    Tab,
    Space,
    LeftArrow,
    RightArrow,
    UpArrow,
    DownArrow,
    F1,
    F2,
    F3,
    F4,
    F5,
    F6,
    F7,
    F8,
    F9,
    F10,
    F11,
    F12,
    Insert,
    Delete,
    Home,
    End,
    PageUp,
    PageDown,
    Minus,
    Equal,
    LeftBracket,
    RightBracket,
    Backslash,
    Semicolon,
    Quote,
    Comma,
    Period,
    Slash,
    Grave,
    BackTab,
    Unknown,
    CapsLock,
    ScrollLock,
    NumLock,
    PrintScreen,
    Pause,
    Menu,
    MediaPlay,
    MediaPause,
    MediaPlayPause,
    MediaReverse,
    MediaStop,
    MediaFastForward,
    MediaNext,
    MediaPrev,
    MediaRecord,
    VolumeDown,
    VolumeUp,
    Mute,
    LeftShift,
    LeftControl,
    LeftAlt,
    LeftSuper,
    LeftHyper,
    RightShift,
    RightControl,
    RightAlt,
    RightSuper,
    RightHyper,
    AltControl,
    SpecialControl,
}

/// The letter key at position `i` of the alphabet (0 for A), for `0 <= i < 26`.
pub open spec fn letter_key(i: int) -> KeyCode {
    if i == 0 { KeyCode::KeyA }
    else if i == 1 { KeyCode::KeyB }
    else if i == 2 { KeyCode::KeyC }
    else if i == 3 { KeyCode::KeyD }
    else if i == 4 { KeyCode::KeyE }
    else if i == 5 { KeyCode::KeyF }
    else if i == 6 { KeyCode::KeyG }
    else if i == 7 { KeyCode::KeyH }
    else if i == 8 { KeyCode::KeyI }
    else if i == 9 { KeyCode::KeyJ }
    else if i == 10 { KeyCode::KeyK }
    else if i == 11 { KeyCode::KeyL }
    else if i == 12 { KeyCode::KeyM }
    else if i == 13 { KeyCode::KeyN }
    else if i == 14 { KeyCode::KeyO }
    else if i == 15 { KeyCode::KeyP }
    else if i == 16 { KeyCode::KeyQ }
    else if i == 17 { KeyCode::KeyR }
    else if i == 18 { KeyCode::KeyS }
    else if i == 19 { KeyCode::KeyT }
    else if i == 20 { KeyCode::KeyU }
    else if i == 21 { KeyCode::KeyV }
    else if i == 22 { KeyCode::KeyW }
    else if i == 23 { KeyCode::KeyX }
    else if i == 24 { KeyCode::KeyY }
    else { KeyCode::KeyZ }
}

/// The digit key for the digit `i`, for `0 <= i < 10`.
pub open spec fn digit_key(i: int) -> KeyCode {
    if i == 0 { KeyCode::Num0 }
    else if i == 1 { KeyCode::Num1 }
    else if i == 2 { KeyCode::Num2 }
    else if i == 3 { KeyCode::Num3 }
    else if i == 4 { KeyCode::Num4 }
    else if i == 5 { KeyCode::Num5 }
    else if i == 6 { KeyCode::Num6 }
    else if i == 7 { KeyCode::Num7 }
    else if i == 8 { KeyCode::Num8 }
    else { KeyCode::Num9 }
}

/// The key for a character that is neither a letter nor a digit: the space
/// bar and the punctuation keys of a US layout; any other character is an
/// unknown key.
pub open spec fn symbol_key(c: char) -> KeyCode {
    if c == ' ' { KeyCode::Space }
    else if c == '-' { KeyCode::Minus }
    else if c == '=' { KeyCode::Equal }
    else if c == '[' { KeyCode::LeftBracket }
    else if c == ']' { KeyCode::RightBracket }
    else if c == '\\' { KeyCode::Backslash }
    else if c == ';' { KeyCode::Semicolon }
    else if c == '\'' { KeyCode::Quote }
    else if c == ',' { KeyCode::Comma }
    else if c == '.' { KeyCode::Period }
    else if c == '/' { KeyCode::Slash }
    else if c == '`' { KeyCode::Grave }
    else { KeyCode::Unknown }
}

/// Whether `c` is an ASCII lower-case letter.
pub open spec fn is_lower_letter(c: char) -> bool {
    'a' as int <= c as int <= 'z' as int
}

/// Whether `c` is an ASCII upper-case letter.
pub open spec fn is_upper_letter(c: char) -> bool {
    'A' as int <= c as int <= 'Z' as int
}

/// Whether `c` is an ASCII digit.
pub open spec fn is_digit(c: char) -> bool {
    '0' as int <= c as int <= '9' as int
}

/// The key that a typed character stands for: letters regardless of case,
/// digits, and the symbols of `symbol_key`.
pub open spec fn char_key(c: char) -> KeyCode {
    if is_lower_letter(c) {
        letter_key(c as int - 'a' as int)
    } else if is_upper_letter(c) {
        letter_key(c as int - 'A' as int)
    } else if is_digit(c) {
        digit_key(c as int - '0' as int)
    } else {
        symbol_key(c)
    }
}

/// The function key `F<n>`, for `1 <= n <= 12`; any other number is an
/// unknown key.
pub open spec fn function_key(n: u8) -> KeyCode {
    if n == 1 { KeyCode::F1 }
    else if n == 2 { KeyCode::F2 }
    else if n == 3 { KeyCode::F3 }
    else if n == 4 { KeyCode::F4 }
    else if n == 5 { KeyCode::F5 }
    else if n == 6 { KeyCode::F6 }
    else if n == 7 { KeyCode::F7 }
    else if n == 8 { KeyCode::F8 }
    else if n == 9 { KeyCode::F9 }
    else if n == 10 { KeyCode::F10 }
    else if n == 11 { KeyCode::F11 }
    else if n == 12 { KeyCode::F12 }
    else { KeyCode::Unknown }
}

/// The window key for a media key; rewinding counts as reversing.
pub open spec fn media_key(m: TermMediaKeyCode) -> KeyCode {
    match m {
        TermMediaKeyCode::Play => KeyCode::MediaPlay,
        TermMediaKeyCode::Pause => KeyCode::MediaPause,
        TermMediaKeyCode::PlayPause => KeyCode::MediaPlayPause,
        TermMediaKeyCode::Reverse => KeyCode::MediaReverse,
        TermMediaKeyCode::Rewind => KeyCode::MediaReverse,
        TermMediaKeyCode::Stop => KeyCode::MediaStop,
        TermMediaKeyCode::FastForward => KeyCode::MediaFastForward,
        TermMediaKeyCode::TrackNext => KeyCode::MediaNext,
        TermMediaKeyCode::TrackPrevious => KeyCode::MediaPrev,
        TermMediaKeyCode::Record => KeyCode::MediaRecord,
        TermMediaKeyCode::LowerVolume => KeyCode::VolumeDown,
        TermMediaKeyCode::RaiseVolume => KeyCode::VolumeUp,
        TermMediaKeyCode::MuteVolume => KeyCode::Mute,
    }
}

/// The window key for a modifier key; a meta key counts as the control key
/// of its side, the ISO level 3 and level 5 shifts as the two special
/// control keys.
pub open spec fn modifier_key(m: TermModifierKeyCode) -> KeyCode {
    match m {
        TermModifierKeyCode::LeftShift => KeyCode::LeftShift,
        TermModifierKeyCode::LeftControl => KeyCode::LeftControl,
        TermModifierKeyCode::LeftMeta => KeyCode::LeftControl,
        TermModifierKeyCode::LeftAlt => KeyCode::LeftAlt,
        TermModifierKeyCode::LeftSuper => KeyCode::LeftSuper,
        TermModifierKeyCode::LeftHyper => KeyCode::LeftHyper,
        TermModifierKeyCode::RightShift => KeyCode::RightShift,
        TermModifierKeyCode::RightControl => KeyCode::RightControl,
        TermModifierKeyCode::RightMeta => KeyCode::RightControl,
        TermModifierKeyCode::RightAlt => KeyCode::RightAlt,
        TermModifierKeyCode::RightSuper => KeyCode::RightSuper,
        TermModifierKeyCode::RightHyper => KeyCode::RightHyper,
        TermModifierKeyCode::IsoLevel3Shift => KeyCode::AltControl,
        TermModifierKeyCode::IsoLevel5Shift => KeyCode::SpecialControl,
    }
}

/// The window key that a terminal key stands for.
pub open spec fn keycode_of(key: TermKeyCode) -> KeyCode {
    match key {
        TermKeyCode::Char(c) => char_key(c),
        TermKeyCode::F(n) => function_key(n),
        TermKeyCode::Media(m) => media_key(m),
        TermKeyCode::Modifier(m) => modifier_key(m),
        TermKeyCode::Enter => KeyCode::Enter,
        TermKeyCode::Esc => KeyCode::Escape,
        TermKeyCode::Backspace => KeyCode::Backspace,
        TermKeyCode::Tab => KeyCode::Tab,
        TermKeyCode::BackTab => KeyCode::BackTab,
        TermKeyCode::Left => KeyCode::LeftArrow,
        TermKeyCode::Right => KeyCode::RightArrow,
        TermKeyCode::Up => KeyCode::UpArrow,
        TermKeyCode::Down => KeyCode::DownArrow,
        TermKeyCode::Insert => KeyCode::Insert,
        TermKeyCode::Delete => KeyCode::Delete,
        TermKeyCode::Home => KeyCode::Home,
        TermKeyCode::KeypadBegin => KeyCode::Home,
        TermKeyCode::End => KeyCode::End,
        TermKeyCode::PageUp => KeyCode::PageUp,
        TermKeyCode::PageDown => KeyCode::PageDown,
        TermKeyCode::Null => KeyCode::Unknown,
        TermKeyCode::CapsLock => KeyCode::CapsLock,
        TermKeyCode::ScrollLock => KeyCode::ScrollLock,
        TermKeyCode::NumLock => KeyCode::NumLock,
        TermKeyCode::PrintScreen => KeyCode::PrintScreen,
        TermKeyCode::Pause => KeyCode::Pause,
        TermKeyCode::Menu => KeyCode::Menu,
    }
}

/// Converts a terminal key code into the window's key code.
///
/// Letters map to their key whatever their case; characters without a key
/// of their own, function keys past F12 and the null key map to
/// `KeyCode::Unknown`.
pub fn crossterm_to_keycode(key: TermKeyCode) -> (code: KeyCode)
    ensures
        code == keycode_of(key),
{
    match key {
        TermKeyCode::Char('a' | 'A') => KeyCode::KeyA,
        TermKeyCode::Char('b' | 'B') => KeyCode::KeyB,
        TermKeyCode::Char('c' | 'C') => KeyCode::KeyC,
        TermKeyCode::Char('d' | 'D') => KeyCode::KeyD,
        TermKeyCode::Char('e' | 'E') => KeyCode::KeyE,
        TermKeyCode::Char('f' | 'F') => KeyCode::KeyF,
        TermKeyCode::Char('g' | 'G') => KeyCode::KeyG,
        TermKeyCode::Char('h' | 'H') => KeyCode::KeyH,
        TermKeyCode::Char('i' | 'I') => KeyCode::KeyI,
        TermKeyCode::Char('j' | 'J') => KeyCode::KeyJ,
        TermKeyCode::Char('k' | 'K') => KeyCode::KeyK,
        TermKeyCode::Char('l' | 'L') => KeyCode::KeyL,
        TermKeyCode::Char('m' | 'M') => KeyCode::KeyM,
        TermKeyCode::Char('n' | 'N') => KeyCode::KeyN,
        TermKeyCode::Char('o' | 'O') => KeyCode::KeyO,
        TermKeyCode::Char('p' | 'P') => KeyCode::KeyP,
        TermKeyCode::Char('q' | 'Q') => KeyCode::KeyQ,
        TermKeyCode::Char('r' | 'R') => KeyCode::KeyR,
        TermKeyCode::Char('s' | 'S') => KeyCode::KeyS,
        TermKeyCode::Char('t' | 'T') => KeyCode::KeyT,
        TermKeyCode::Char('u' | 'U') => KeyCode::KeyU,
        TermKeyCode::Char('v' | 'V') => KeyCode::KeyV,
        TermKeyCode::Char('w' | 'W') => KeyCode::KeyW,
        TermKeyCode::Char('x' | 'X') => KeyCode::KeyX,
        TermKeyCode::Char('y' | 'Y') => KeyCode::KeyY,
        TermKeyCode::Char('z' | 'Z') => KeyCode::KeyZ,
        TermKeyCode::Char('0') => KeyCode::Num0,
        TermKeyCode::Char('1') => KeyCode::Num1,
        TermKeyCode::Char('2') => KeyCode::Num2,
        TermKeyCode::Char('3') => KeyCode::Num3,
        TermKeyCode::Char('4') => KeyCode::Num4,
        TermKeyCode::Char('5') => KeyCode::Num5,
        TermKeyCode::Char('6') => KeyCode::Num6,
        TermKeyCode::Char('7') => KeyCode::Num7,
        TermKeyCode::Char('8') => KeyCode::Num8,
        TermKeyCode::Char('9') => KeyCode::Num9,
        TermKeyCode::Enter => KeyCode::Enter,
        TermKeyCode::Esc => KeyCode::Escape,
        TermKeyCode::Backspace => KeyCode::Backspace,
        TermKeyCode::Tab => KeyCode::Tab,
        TermKeyCode::Char(' ') => KeyCode::Space,
        TermKeyCode::Left => KeyCode::LeftArrow,
        TermKeyCode::Right => KeyCode::RightArrow,
        TermKeyCode::Up => KeyCode::UpArrow,
        TermKeyCode::Down => KeyCode::DownArrow,
        TermKeyCode::F(1) => KeyCode::F1,
        TermKeyCode::F(2) => KeyCode::F2,
        TermKeyCode::F(3) => KeyCode::F3,
        TermKeyCode::F(4) => KeyCode::F4,
        TermKeyCode::F(5) => KeyCode::F5,
        TermKeyCode::F(6) => KeyCode::F6,
        TermKeyCode::F(7) => KeyCode::F7,
        TermKeyCode::F(8) => KeyCode::F8,
        TermKeyCode::F(9) => KeyCode::F9,
        TermKeyCode::F(10) => KeyCode::F10,
        TermKeyCode::F(11) => KeyCode::F11,
        TermKeyCode::F(12) => KeyCode::F12,
        TermKeyCode::Insert => KeyCode::Insert,
        TermKeyCode::Delete => KeyCode::Delete,
        TermKeyCode::Home | TermKeyCode::KeypadBegin => KeyCode::Home,
        TermKeyCode::End => KeyCode::End,
        TermKeyCode::PageUp => KeyCode::PageUp,
        TermKeyCode::PageDown => KeyCode::PageDown,
        TermKeyCode::Char('-') => KeyCode::Minus,
        TermKeyCode::Char('=') => KeyCode::Equal,
        TermKeyCode::Char('[') => KeyCode::LeftBracket,
        TermKeyCode::Char(']') => KeyCode::RightBracket,
        TermKeyCode::Char('\\') => KeyCode::Backslash,
        TermKeyCode::Char(';') => KeyCode::Semicolon,
        TermKeyCode::Char('\'') => KeyCode::Quote,
        TermKeyCode::Char(',') => KeyCode::Comma,
        TermKeyCode::Char('.') => KeyCode::Period,
        TermKeyCode::Char('/') => KeyCode::Slash,
        TermKeyCode::Char('`') => KeyCode::Grave,
        TermKeyCode::BackTab => KeyCode::BackTab,
        TermKeyCode::F(_) | TermKeyCode::Char(_) | TermKeyCode::Null => KeyCode::Unknown,
        TermKeyCode::CapsLock => KeyCode::CapsLock,
        TermKeyCode::ScrollLock => KeyCode::ScrollLock,
        TermKeyCode::NumLock => KeyCode::NumLock,
        TermKeyCode::PrintScreen => KeyCode::PrintScreen,
        TermKeyCode::Pause => KeyCode::Pause,
        TermKeyCode::Menu => KeyCode::Menu,
        TermKeyCode::Media(media_key_code) => match media_key_code {
            TermMediaKeyCode::Play => KeyCode::MediaPlay,
            TermMediaKeyCode::Pause => KeyCode::MediaPause,
            TermMediaKeyCode::PlayPause => KeyCode::MediaPlayPause,
            TermMediaKeyCode::Reverse | TermMediaKeyCode::Rewind => KeyCode::MediaReverse,
            TermMediaKeyCode::Stop => KeyCode::MediaStop,
            TermMediaKeyCode::FastForward => KeyCode::MediaFastForward,
            TermMediaKeyCode::TrackNext => KeyCode::MediaNext,
            TermMediaKeyCode::TrackPrevious => KeyCode::MediaPrev,
            TermMediaKeyCode::Record => KeyCode::MediaRecord,
            TermMediaKeyCode::LowerVolume => KeyCode::VolumeDown,
            TermMediaKeyCode::RaiseVolume => KeyCode::VolumeUp,
            TermMediaKeyCode::MuteVolume => KeyCode::Mute,
        },
        TermKeyCode::Modifier(modifier_key_code) => match modifier_key_code {
            TermModifierKeyCode::LeftShift => KeyCode::LeftShift,
            TermModifierKeyCode::LeftControl | TermModifierKeyCode::LeftMeta => {
                KeyCode::LeftControl
            },
            TermModifierKeyCode::LeftAlt => KeyCode::LeftAlt,
            TermModifierKeyCode::LeftSuper => KeyCode::LeftSuper,
            TermModifierKeyCode::LeftHyper => KeyCode::LeftHyper,
            TermModifierKeyCode::RightShift => KeyCode::RightShift,
            TermModifierKeyCode::RightControl | TermModifierKeyCode::RightMeta => {
                KeyCode::RightControl
            },
            TermModifierKeyCode::RightAlt => KeyCode::RightAlt,
            TermModifierKeyCode::RightSuper => KeyCode::RightSuper,
            TermModifierKeyCode::RightHyper => KeyCode::RightHyper,
            TermModifierKeyCode::IsoLevel3Shift => KeyCode::AltControl,
            TermModifierKeyCode::IsoLevel5Shift => KeyCode::SpecialControl,
        },
    }
}

} // verus!
