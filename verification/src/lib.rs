//! Verified core of a console window backend: the key and mouse mappings
//! from terminal input to window input, the window state that input events
//! update, and the text frame that the window prints.

pub mod events;
pub mod frame;
pub mod frame_laws;
pub mod key_laws;
pub mod keys;
pub mod laws;
pub mod mouse;
pub mod window;

pub use events::{TermEvent, TermKeyEventKind, TermMouseEventKind};
pub use frame::compose_frame;
pub use keys::{crossterm_to_keycode, KeyCode, TermKeyCode, TermMediaKeyCode, TermModifierKeyCode};
pub use mouse::{button_to_index, MouseButton, TermMouseButton};
pub use window::{Framework, WindowSettings};
