//! The console window's state: its settings, its size, and the input state
//! that terminal events update.
use vstd::prelude::*;

use crate::events::{
    button_down, buttons_after, event_keys, keys_after, TermEvent, TermKeyEventKind, TermMouseEventKind,
};
use crate::frame::{compose_frame, frame, lines_view};
use crate::keys::{crossterm_to_keycode, keycode_of, KeyCode};
use crate::mouse::{button_to_index, slot_of, MouseButton};

verus! {

/// The settings a window is opened with.
#[derive(Debug, PartialEq, Eq)]
pub struct WindowSettings {
    /// Whether the usual operating system menu is shown.
    pub os_menu: bool,
    /// Whether the window's contents are shown at all.
    pub visible: bool,
    /// Whether the title is shown.
    pub title_visible: bool,
    /// The requested size, as the pair the window interface passes.
    pub size: (u32, u32),
}

/// Window backend that draws into the console.
#[derive(Debug)]
pub struct Framework {
    /// The title of the window.
    pub name: String,
    /// Whether the usual operating system menu is shown.
    pub os_menu: bool,
    /// Whether the title is visible.
    pub visible_title: bool,
    /// Whether the contents are displayed at all.
    pub visible: bool,
    /// Whether the window is still open.
    pub is_open: bool,
    /// The width of the buffer it holds.
    pub width: usize,
    /// The height of the buffer it holds.
    pub height: usize,
    /// The size of the buffer at the last frame, to clear the screen only
    /// when it changed.
    pub last_size: (usize, usize),
    /// The last recorded mouse position, as console column and row.
    pub mouse_pos: (u16, u16),
    /// Whether the left, right and middle buttons are down.
    pub mouse_buttons: [bool; 3],
    /// The keys that are down, each once.
    pub pressed_keys: Vec<KeyCode>,
}

/// The parts of two window states that input events leave alone are equal.
pub open spec fn same_outline(a: Framework, b: Framework) -> bool {
    &&& a.name@ == b.name@
    &&& a.os_menu == b.os_menu
    &&& a.visible_title == b.visible_title
    &&& a.visible == b.visible
    &&& a.is_open == b.is_open
    &&& a.width == b.width
    &&& a.height == b.height
    &&& a.last_size == b.last_size
}

/// The whole of two window states is equal, strings and lists by their views.
pub open spec fn same_state(a: Framework, b: Framework) -> bool {
    &&& same_outline(a, b)
    &&& a.mouse_pos == b.mouse_pos
    &&& a.mouse_buttons@ == b.mouse_buttons@
    &&& a.pressed_keys@ == b.pressed_keys@
}

/// Whether `key` occurs in `keys`.
fn list_contains(keys: &Vec<KeyCode>, key: KeyCode) -> (found: bool)
    ensures
        found == keys@.contains(key),
{
    let mut i: usize = 0;
    while i < keys.len()
        invariant
            i <= keys.len(),
            forall|j: int| 0 <= j < i ==> keys@[j] != key,
        decreases keys.len() - i,
    {
        if keys[i] == key {
            return true;
        }
        i = i + 1;
    }
    false
}

/// `keys` without any occurrence of `key`.
fn list_without(keys: &Vec<KeyCode>, key: KeyCode) -> (rest: Vec<KeyCode>)
    ensures
        rest@.to_set() == keys@.to_set().remove(key),
        keys@.no_duplicates() ==> rest@.no_duplicates(),
{
    let mut rest: Vec<KeyCode> = Vec::new();
    let mut i: usize = 0;
    while i < keys.len()
        invariant
            i <= keys.len(),
            forall|k: KeyCode|
                rest@.contains(k) <==> (k != key && exists|j: int| 0 <= j < i && keys@[j] == k),
            keys@.no_duplicates() ==> rest@.no_duplicates(),
        decreases keys.len() - i,
    {
        let k = keys[i];
        if k != key {
            proof {
                if keys@.no_duplicates() && rest@.contains(k) {
                    let j = choose|j: int| 0 <= j < i && keys@[j] == k;
                    assert(keys@[j] == keys@[i as int]);
                }
            }
            let ghost before = rest@;
            rest.push(k);
            assert forall|m: KeyCode|
                rest@.contains(m) <==> (m != key && exists|j: int| 0 <= j < i + 1 && keys@[j] == m)
            by {
                if rest@.contains(m) {
                    let p = choose|p: int| 0 <= p < rest@.len() && rest@[p] == m;
                    if p < before.len() {
                        assert(before.contains(m));
                    }
                }
                if m != key && exists|j: int| 0 <= j < i + 1 && keys@[j] == m {
                    let j = choose|j: int| 0 <= j < i + 1 && keys@[j] == m;
                    if j < i {
                        assert(before.contains(m));
                        let p = choose|p: int| 0 <= p < before.len() && before[p] == m;
                        assert(rest@[p] == m);
                    } else {
                        assert(rest@[before.len() as int] == m);
                    }
                }
            }
        } else {
            assert forall|m: KeyCode|
                rest@.contains(m) <==> (m != key && exists|j: int| 0 <= j < i + 1 && keys@[j] == m)
            by {
                if m != key && exists|j: int| 0 <= j < i + 1 && keys@[j] == m {
                    let j = choose|j: int| 0 <= j < i + 1 && keys@[j] == m;
                    assert(j < i);
                }
            }
        }
        i = i + 1;
    }
    assert forall|m: KeyCode| rest@.to_set().contains(m) == keys@.to_set().remove(key).contains(m)
    by {
        if keys@.contains(m) {
            let j = choose|j: int| 0 <= j < keys@.len() && keys@[j] == m;
        }
    }
    assert(rest@.to_set() =~= keys@.to_set().remove(key));
    rest
}

impl Framework {
    /// The set of keys that are down.
    pub open spec fn pressed(&self) -> Set<KeyCode> {
        self.pressed_keys@.to_set()
    }

    /// The window state is well formed: no key is listed twice.
    pub open spec fn wf(&self) -> bool {
        self.pressed_keys@.no_duplicates()
    }

    /// Whether `button` is down.
    pub open spec fn mouse_down(&self, button: MouseButton) -> bool {
        button_down(self.mouse_buttons@, button)
    }

    /// Whether the window is minimized, that is hidden.
    pub open spec fn minimized(&self) -> bool {
        !self.visible
    }

    /// Opens a window titled `title` with `settings`: open, shown as the
    /// settings say, with the first number of the size as its height and the
    /// second as its width, no mouse button or key down, the mouse at the
    /// origin, and no frame drawn yet.
    pub fn new(title: &str, settings: WindowSettings) -> (window: Framework)
        ensures
            window.name@ == title@,
            window.os_menu == settings.os_menu,
            window.visible == settings.visible,
            window.visible_title == settings.title_visible,
            window.height == settings.size.0,
            window.width == settings.size.1,
            window.last_size == (0usize, 0usize),
            window.is_open,
            window.mouse_pos == (0u16, 0u16),
            window.mouse_buttons@ == seq![false, false, false],
            window.pressed_keys@ == Seq::<KeyCode>::empty(),
            window.wf(),
    {
        let window = Framework {
            name: String::from_str(title),
            os_menu: settings.os_menu,
            visible: settings.visible,
            visible_title: settings.title_visible,
            height: settings.size.0 as usize,
            width: settings.size.1 as usize,
            last_size: (0, 0),
            is_open: true,
            mouse_pos: (0, 0),
            mouse_buttons: [false; 3],
            pressed_keys: Vec::new(),
        };
        assert(window.mouse_buttons@ =~= seq![false, false, false]);
        window
    }

    /// Takes a terminal input event into the window's input state: a mouse
    /// event records its position and, for a press or a release, the state
    /// of its button; a key event adds a pressed key to the keys that are
    /// down or removes a released one; every other event changes nothing.
    pub fn handle_event(&mut self, event: &TermEvent)
        ensures
            same_outline(*old(self), *final(self)),
            old(self).wf() ==> final(self).wf(),
            final(self).pressed() == event_keys(old(self).pressed(), *event),
            match *event {
                TermEvent::Mouse { column, row, action } => {
                    &&& final(self).mouse_pos == (column, row)
                    &&& final(self).mouse_buttons@ == buttons_after(old(self).mouse_buttons@, action)
                    &&& final(self).pressed_keys@ == old(self).pressed_keys@
                },
                TermEvent::Key { code, kind } => {
                    &&& final(self).mouse_pos == old(self).mouse_pos
                    &&& final(self).mouse_buttons@ == old(self).mouse_buttons@
                    &&& final(self).pressed() == keys_after(old(self).pressed(), code, kind)
                },
                _ => same_state(*old(self), *final(self)),
            },
    {
        match event {
            TermEvent::Mouse { column, row, action } => {
                self.mouse_pos = (*column, *row);
                match action {
                    TermMouseEventKind::Down(btn) => {
                        let button = button_to_index(*btn);
                        if let Some(slot) = slot_of(button) {
                            self.mouse_buttons[slot] = true;
                        }
                    },
                    TermMouseEventKind::Up(btn) => {
                        let button = button_to_index(*btn);
                        if let Some(slot) = slot_of(button) {
                            self.mouse_buttons[slot] = false;
                        }
                    },
                    _ => {},
                }
            },
            TermEvent::Key { code, kind } => {
                let key = crossterm_to_keycode(*code);
                match kind {
                    TermKeyEventKind::Press => {
                        if !list_contains(&self.pressed_keys, key) {
                            let ghost before = self.pressed_keys@;
                            self.pressed_keys.push(key);
                            proof {
                                assert forall|i: int, j: int|
                                    0 <= i < self.pressed_keys@.len() && 0 <= j
                                        < self.pressed_keys@.len() && i != j && before.no_duplicates()
                                    implies self.pressed_keys@[i] != self.pressed_keys@[j] by {
                                    if i == before.len() {
                                        assert(before[j] == self.pressed_keys@[j]);
                                    } else if j == before.len() {
                                        assert(before[i] == self.pressed_keys@[i]);
                                    }
                                }
                                assert forall|k: KeyCode|
                                    self.pressed().contains(k) == before.to_set().insert(
                                        key,
                                    ).contains(k) by {
                                    if before.contains(k) {
                                        let p = choose|p: int| 0 <= p < before.len() && before[p] == k;
                                        assert(self.pressed_keys@[p] == k);
                                    }
                                    if self.pressed_keys@.contains(k) && k != key {
                                        let p = choose|p: int|
                                            0 <= p < self.pressed_keys@.len()
                                                && self.pressed_keys@[p] == k;
                                        assert(before[p] == k);
                                    }
                                    if k == key {
                                        assert(self.pressed_keys@[before.len() as int] == key);
                                    }
                                }
                                assert(self.pressed() =~= before.to_set().insert(key));
                            }
                        } else {
                            assert(self.pressed() =~= self.pressed().insert(key));
                        }
                    },
                    TermKeyEventKind::Release => {
                        let rest = list_without(&self.pressed_keys, key);
                        self.pressed_keys = rest;
                    },
                    TermKeyEventKind::Repeat => {},
                }
            },
            _ => {},
        }
    }

    /// The last recorded mouse position, as console column and row.
    pub fn get_mouse_position(&self) -> (pos: Option<(u16, u16)>)
        ensures
            pos == Some(self.mouse_pos),
    {
        Some(self.mouse_pos)
    }

    /// Whether `button` is down; a button that is not tracked never is.
    pub fn is_mouse_down(&self, button: MouseButton) -> (down: bool)
        ensures
            down == self.mouse_down(button),
    {
        match slot_of(button) {
            Some(slot) => self.mouse_buttons[slot],
            None => false,
        }
    }

    /// Whether `key` is down.
    pub fn is_key_down(&self, key: KeyCode) -> (down: bool)
        ensures
            down == self.pressed().contains(key),
    {
        list_contains(&self.pressed_keys, key)
    }

    /// Whether the size of the frame about to be drawn differs from the size
    /// of the last frame, in which case the screen has to be cleared first.
    pub fn needs_clear(&self) -> (clear: bool)
        ensures
            clear == (self.last_size != (self.width, self.height)),
    {
        self.last_size.0 != self.width || self.last_size.1 != self.height
    }

    /// Records the current size as the size of the last frame.
    pub fn remember_size(&mut self)
        ensures
            final(self).last_size == (old(self).width, old(self).height),
            final(self).name@ == old(self).name@,
            final(self).os_menu == old(self).os_menu,
            final(self).visible_title == old(self).visible_title,
            final(self).visible == old(self).visible,
            final(self).is_open == old(self).is_open,
            final(self).width == old(self).width,
            final(self).height == old(self).height,
            final(self).mouse_pos == old(self).mouse_pos,
            final(self).mouse_buttons@ == old(self).mouse_buttons@,
            final(self).pressed_keys@ == old(self).pressed_keys@,
    {
        self.last_size = (self.width, self.height);
    }

    /// The text of the frame that shows `lines` in this window: its title,
    /// and the lines between borders as wide as the window.
    pub fn frame_text(&self, lines: &Vec<String>) -> (text: String)
        ensures
            text@ == frame(self.name@, self.width as nat, lines_view(lines@)),
    {
        compose_frame(self.name.as_str(), self.width, lines)
    }

    /// Whether the window is still open.
    pub fn is_open(&self) -> (open: bool)
        ensures
            open == self.is_open,
    {
        self.is_open
    }

    /// Marks the window as closed.
    pub fn close_and_clean_up(&mut self)
        ensures
            !final(self).is_open,
            final(self).name@ == old(self).name@,
            final(self).os_menu == old(self).os_menu,
            final(self).visible_title == old(self).visible_title,
            final(self).visible == old(self).visible,
            final(self).width == old(self).width,
            final(self).height == old(self).height,
            final(self).last_size == old(self).last_size,
            final(self).mouse_pos == old(self).mouse_pos,
            final(self).mouse_buttons@ == old(self).mouse_buttons@,
            final(self).pressed_keys@ == old(self).pressed_keys@,
    {
        self.is_open = false;
    }

    /// The window's position: a console window is always at the origin.
    pub fn get_position(&self) -> (pos: (i32, i32))
        ensures
            pos == (0i32, 0i32),
    {
        (0, 0)
    }

    /// Moving a console window does nothing.
    pub fn set_position(&mut self, _xy: (i32, i32))
        ensures
            same_state(*old(self), *final(self)),
    {
    }

    /// Sets the size of the buffer the window holds.
    pub fn set_size(&mut self, width: usize, height: usize)
        ensures
            final(self).width == width,
            final(self).height == height,
            final(self).name@ == old(self).name@,
            final(self).os_menu == old(self).os_menu,
            final(self).visible_title == old(self).visible_title,
            final(self).visible == old(self).visible,
            final(self).is_open == old(self).is_open,
            final(self).last_size == old(self).last_size,
            final(self).mouse_pos == old(self).mouse_pos,
            final(self).mouse_buttons@ == old(self).mouse_buttons@,
            final(self).pressed_keys@ == old(self).pressed_keys@,
    {
        self.width = width;
        self.height = height;
    }

    /// The size of the buffer the window holds, each number cast to `i32`
    /// (wrapping as `as` does).
    pub fn get_size(&self) -> (size: (i32, i32))
        ensures
            size == (self.width as i32, self.height as i32),
    {
        (self.width as i32, self.height as i32)
    }

    /// Hides the window's contents.
    pub fn minimize(&mut self)
        ensures
            final(self).minimized(),
            final(self).name@ == old(self).name@,
            final(self).os_menu == old(self).os_menu,
            final(self).visible_title == old(self).visible_title,
            final(self).is_open == old(self).is_open,
            final(self).width == old(self).width,
            final(self).height == old(self).height,
            final(self).last_size == old(self).last_size,
            final(self).mouse_pos == old(self).mouse_pos,
            final(self).mouse_buttons@ == old(self).mouse_buttons@,
            final(self).pressed_keys@ == old(self).pressed_keys@,
    {
        self.visible = false;
    }

    /// Shows the window's contents again.
    pub fn restore(&mut self)
        ensures
            !final(self).minimized(),
            final(self).name@ == old(self).name@,
            final(self).os_menu == old(self).os_menu,
            final(self).visible_title == old(self).visible_title,
            final(self).is_open == old(self).is_open,
            final(self).width == old(self).width,
            final(self).height == old(self).height,
            final(self).last_size == old(self).last_size,
            final(self).mouse_pos == old(self).mouse_pos,
            final(self).mouse_buttons@ == old(self).mouse_buttons@,
            final(self).pressed_keys@ == old(self).pressed_keys@,
    {
        self.visible = true;
    }

    /// Whether the window is minimized.
    pub fn is_minimized(&self) -> (minimized: bool)
        ensures
            minimized == self.minimized(),
    {
        !self.visible
    }

    /// Whether the window fills a console `console_width` columns wide: its
    /// width and the two border columns take all of them.
    pub fn is_maximized_for(&self, console_width: u16) -> (maximized: bool)
        ensures
            maximized == (console_width as int == self.width as int + 2),
    {
        let w = console_width as usize;
        w >= 2 && w - 2 == self.width
    }

    /// Renames the window.
    pub fn set_title(&mut self, title: &str)
        ensures
            final(self).name@ == title@,
            final(self).os_menu == old(self).os_menu,
            final(self).visible_title == old(self).visible_title,
            final(self).visible == old(self).visible,
            final(self).is_open == old(self).is_open,
            final(self).width == old(self).width,
            final(self).height == old(self).height,
            final(self).last_size == old(self).last_size,
            final(self).mouse_pos == old(self).mouse_pos,
            final(self).mouse_buttons@ == old(self).mouse_buttons@,
            final(self).pressed_keys@ == old(self).pressed_keys@,
    {
        self.name = String::from_str(title);
    }
}

} // verus!
