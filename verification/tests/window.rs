use mirl_console::{
    button_to_index, compose_frame, Framework, KeyCode, MouseButton, TermEvent, TermKeyCode,
    TermKeyEventKind, TermMouseButton, TermMouseEventKind, WindowSettings,
};

fn open(title: &str) -> Framework {
    Framework::new(
        title,
        WindowSettings { os_menu: true, visible: true, title_visible: false, size: (4, 10) },
    )
}

fn key(c: char, kind: TermKeyEventKind) -> TermEvent {
    TermEvent::Key { code: TermKeyCode::Char(c), kind }
}

fn mouse(column: u16, row: u16, action: TermMouseEventKind) -> TermEvent {
    TermEvent::Mouse { column, row, action }
}

#[test]
fn new_window_state() {
    let w = open("demo");
    assert_eq!(w.name, "demo");
    assert!(w.os_menu);
    assert!(w.visible);
    assert!(!w.visible_title);
    assert_eq!(w.height, 4);
    assert_eq!(w.width, 10);
    assert_eq!(w.last_size, (0, 0));
    assert!(w.is_open());
    assert_eq!(w.get_mouse_position(), Some((0, 0)));
    assert!(!w.is_mouse_down(MouseButton::Left));
    assert!(w.pressed_keys.is_empty());
}

#[test]
fn key_press_release_repeat() {
    let mut w = open("k");
    w.handle_event(&key('a', TermKeyEventKind::Press));
    assert!(w.is_key_down(KeyCode::KeyA));
    w.handle_event(&key('A', TermKeyEventKind::Press));
    assert_eq!(w.pressed_keys, vec![KeyCode::KeyA]);
    w.handle_event(&key('b', TermKeyEventKind::Press));
    w.handle_event(&key('a', TermKeyEventKind::Repeat));
    assert!(w.is_key_down(KeyCode::KeyA));
    w.handle_event(&key('a', TermKeyEventKind::Release));
    assert!(!w.is_key_down(KeyCode::KeyA));
    assert!(w.is_key_down(KeyCode::KeyB));
    w.handle_event(&key('b', TermKeyEventKind::Release));
    assert!(w.pressed_keys.is_empty());
}

#[test]
fn release_of_key_that_is_up() {
    let mut w = open("k");
    w.handle_event(&key('x', TermKeyEventKind::Release));
    assert!(w.pressed_keys.is_empty());
    assert!(!w.is_key_down(KeyCode::KeyX));
}

#[test]
fn mouse_buttons_and_position() {
    let mut w = open("m");
    w.handle_event(&mouse(3, 7, TermMouseEventKind::Down(TermMouseButton::Right)));
    assert_eq!(w.get_mouse_position(), Some((3, 7)));
    assert!(w.is_mouse_down(MouseButton::Right));
    assert!(!w.is_mouse_down(MouseButton::Left));
    assert!(!w.is_mouse_down(MouseButton::Middle));
    assert!(!w.is_mouse_down(MouseButton::Extra(4)));
    w.handle_event(&mouse(5, 1, TermMouseEventKind::Moved));
    assert_eq!(w.get_mouse_position(), Some((5, 1)));
    assert!(w.is_mouse_down(MouseButton::Right));
    w.handle_event(&mouse(6, 2, TermMouseEventKind::Drag(TermMouseButton::Left)));
    assert!(!w.is_mouse_down(MouseButton::Left));
    w.handle_event(&mouse(6, 2, TermMouseEventKind::Up(TermMouseButton::Right)));
    assert!(!w.is_mouse_down(MouseButton::Right));
    assert_eq!(w.mouse_buttons, [false, false, false]);
}

#[test]
fn other_events_change_nothing() {
    let mut w = open("o");
    w.handle_event(&key('c', TermKeyEventKind::Press));
    w.handle_event(&TermEvent::Resize(80, 24));
    w.handle_event(&TermEvent::FocusLost);
    w.handle_event(&TermEvent::Paste(String::from("zz")));
    assert_eq!(w.pressed_keys, vec![KeyCode::KeyC]);
    assert_eq!(w.get_mouse_position(), Some((0, 0)));
}

#[test]
fn button_mapping() {
    assert_eq!(button_to_index(TermMouseButton::Left), MouseButton::Left);
    assert_eq!(button_to_index(TermMouseButton::Right), MouseButton::Right);
    assert_eq!(button_to_index(TermMouseButton::Middle), MouseButton::Middle);
}

#[test]
fn clear_only_when_size_changes() {
    let mut w = open("s");
    assert!(w.needs_clear());
    assert_eq!(w.last_size, (0, 0));
    w.remember_size();
    assert_eq!(w.last_size, (10, 4));
    assert!(!w.needs_clear());
    w.set_size(12, 4);
    assert!(w.needs_clear());
    w.remember_size();
    assert!(!w.needs_clear());
}

#[test]
fn key_is_down_when_last_pressed() {
    let mut w = open("seq");
    let events = vec![
        key('a', TermKeyEventKind::Press),
        key('b', TermKeyEventKind::Press),
        mouse(1, 1, TermMouseEventKind::Moved),
        key('A', TermKeyEventKind::Release),
        key('b', TermKeyEventKind::Repeat),
        key('c', TermKeyEventKind::Release),
        key('a', TermKeyEventKind::Press),
        key('c', TermKeyEventKind::Press),
        key('C', TermKeyEventKind::Release),
        TermEvent::FocusGained,
    ];
    for e in &events {
        w.handle_event(e);
    }
    assert!(w.is_key_down(KeyCode::KeyA));
    assert!(w.is_key_down(KeyCode::KeyB));
    assert!(!w.is_key_down(KeyCode::KeyC));
    assert_eq!(w.pressed_keys.len(), 2);
}

#[test]
fn frame_layout() {
    let w = open("demo");
    let mut w = w;
    w.set_size(3, 2);
    let text = w.frame_text(&vec![String::from("abc"), String::from("def")]);
    assert_eq!(text, "> demo\n+---+\n|abc|\n|def|\n+---+");
}

#[test]
fn empty_frame() {
    assert_eq!(compose_frame("", 0, &Vec::new()), "> \n++\n++");
}

#[test]
fn size_position_and_title() {
    let mut w = open("t");
    assert_eq!(w.get_position(), (0, 0));
    w.set_position((5, 6));
    assert_eq!(w.get_position(), (0, 0));
    w.set_size(640, 480);
    assert_eq!(w.get_size(), (640, 480));
    w.set_title("renamed");
    assert_eq!(w.name, "renamed");
}

#[test]
fn size_wraps_like_a_cast() {
    let mut w = open("t");
    w.set_size(1usize << 31, 3);
    assert_eq!(w.get_size(), (i32::MIN, 3));
}

#[test]
fn minimize_restore_close() {
    let mut w = open("v");
    assert!(!w.is_minimized());
    w.minimize();
    assert!(w.is_minimized());
    w.restore();
    assert!(!w.is_minimized());
    w.close_and_clean_up();
    assert!(!w.is_open());
}

#[test]
fn maximized_when_width_fills_console() {
    let w = open("x");
    assert!(w.is_maximized_for(12));
    assert!(!w.is_maximized_for(11));
    assert!(!w.is_maximized_for(0));
    assert!(!w.is_maximized_for(1));
}
