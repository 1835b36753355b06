use mirl_console::{
    crossterm_to_keycode, KeyCode, TermKeyCode, TermMediaKeyCode, TermModifierKeyCode,
};

#[test]
fn letters_map_in_either_case() {
    assert_eq!(crossterm_to_keycode(TermKeyCode::Char('a')), KeyCode::KeyA);
    assert_eq!(crossterm_to_keycode(TermKeyCode::Char('A')), KeyCode::KeyA);
    assert_eq!(crossterm_to_keycode(TermKeyCode::Char('q')), KeyCode::KeyQ);
    assert_eq!(crossterm_to_keycode(TermKeyCode::Char('Z')), KeyCode::KeyZ);
    for (lower, upper) in ('a'..='z').zip('A'..='Z') {
        let lo = crossterm_to_keycode(TermKeyCode::Char(lower));
        assert_eq!(lo, crossterm_to_keycode(TermKeyCode::Char(upper)));
        assert_ne!(lo, KeyCode::Unknown);
    }
}

#[test]
fn letters_are_distinct() {
    let keys: Vec<KeyCode> = ('a'..='z').map(|c| crossterm_to_keycode(TermKeyCode::Char(c))).collect();
    for i in 0..keys.len() {
        for j in 0..keys.len() {
            if i != j {
                assert_ne!(keys[i], keys[j]);
            }
        }
    }
}

#[test]
fn digits_and_symbols() {
    assert_eq!(crossterm_to_keycode(TermKeyCode::Char('0')), KeyCode::Num0);
    assert_eq!(crossterm_to_keycode(TermKeyCode::Char('7')), KeyCode::Num7);
    assert_eq!(crossterm_to_keycode(TermKeyCode::Char(' ')), KeyCode::Space);
    assert_eq!(crossterm_to_keycode(TermKeyCode::Char('-')), KeyCode::Minus);
    assert_eq!(crossterm_to_keycode(TermKeyCode::Char('\\')), KeyCode::Backslash);
    assert_eq!(crossterm_to_keycode(TermKeyCode::Char('\'')), KeyCode::Quote);
    assert_eq!(crossterm_to_keycode(TermKeyCode::Char('`')), KeyCode::Grave);
}

#[test]
fn unmapped_keys_are_unknown() {
    assert_eq!(crossterm_to_keycode(TermKeyCode::Char('!')), KeyCode::Unknown);
    assert_eq!(crossterm_to_keycode(TermKeyCode::Char('é')), KeyCode::Unknown);
    assert_eq!(crossterm_to_keycode(TermKeyCode::F(0)), KeyCode::Unknown);
    assert_eq!(crossterm_to_keycode(TermKeyCode::F(13)), KeyCode::Unknown);
    assert_eq!(crossterm_to_keycode(TermKeyCode::Null), KeyCode::Unknown);
}

#[test]
fn function_keys() {
    assert_eq!(crossterm_to_keycode(TermKeyCode::F(1)), KeyCode::F1);
    assert_eq!(crossterm_to_keycode(TermKeyCode::F(12)), KeyCode::F12);
    let keys: Vec<KeyCode> = (1..=12u8).map(|n| crossterm_to_keycode(TermKeyCode::F(n))).collect();
    for i in 0..keys.len() {
        assert_ne!(keys[i], KeyCode::Unknown);
        for j in (i + 1)..keys.len() {
            assert_ne!(keys[i], keys[j]);
        }
    }
}

#[test]
fn named_keys() {
    assert_eq!(crossterm_to_keycode(TermKeyCode::Esc), KeyCode::Escape);
    assert_eq!(crossterm_to_keycode(TermKeyCode::Left), KeyCode::LeftArrow);
    assert_eq!(crossterm_to_keycode(TermKeyCode::Home), KeyCode::Home);
    assert_eq!(crossterm_to_keycode(TermKeyCode::KeypadBegin), KeyCode::Home);
    assert_eq!(crossterm_to_keycode(TermKeyCode::BackTab), KeyCode::BackTab);
    assert_eq!(crossterm_to_keycode(TermKeyCode::Menu), KeyCode::Menu);
}

#[test]
fn media_keys() {
    assert_eq!(
        crossterm_to_keycode(TermKeyCode::Media(TermMediaKeyCode::Rewind)),
        KeyCode::MediaReverse
    );
    assert_eq!(
        crossterm_to_keycode(TermKeyCode::Media(TermMediaKeyCode::Reverse)),
        KeyCode::MediaReverse
    );
    assert_eq!(
        crossterm_to_keycode(TermKeyCode::Media(TermMediaKeyCode::TrackPrevious)),
        KeyCode::MediaPrev
    );
    assert_eq!(
        crossterm_to_keycode(TermKeyCode::Media(TermMediaKeyCode::MuteVolume)),
        KeyCode::Mute
    );
}

#[test]
fn modifier_keys() {
    assert_eq!(
        crossterm_to_keycode(TermKeyCode::Modifier(TermModifierKeyCode::LeftMeta)),
        KeyCode::LeftControl
    );
    assert_eq!(
        crossterm_to_keycode(TermKeyCode::Modifier(TermModifierKeyCode::RightMeta)),
        KeyCode::RightControl
    );
    assert_eq!(
        crossterm_to_keycode(TermKeyCode::Modifier(TermModifierKeyCode::IsoLevel3Shift)),
        KeyCode::AltControl
    );
    assert_eq!(
        crossterm_to_keycode(TermKeyCode::Modifier(TermModifierKeyCode::IsoLevel5Shift)),
        KeyCode::SpecialControl
    );
}
