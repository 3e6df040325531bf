//! The core of an egui editor backend for audio plug-ins on touch devices.
//!
//! egui paints the editor; a native text field off screen owns the keyboard.
//! This crate decides what native input becomes, how the two sides are kept in
//! step frame by frame, and how the native view is built and taken down. The
//! surroundings perform it.

pub mod editor;
pub mod events;
pub mod fonts;
pub mod frame;
pub mod keyboard;
pub mod lifecycle;
pub mod reports;
pub mod selection;
pub mod session;
pub mod text;
pub mod text_field;
pub mod utf16;
pub mod view;
pub mod widget;
pub mod window;
pub mod windowed;

pub use editor::{EditorSizing, EguiEditor};
pub use events::{native_text_input_events, native_text_replacement_events};
pub use keyboard::{native_keyboard_action, NativeKeyboardAction};
pub use selection::NativeTextSelection;
pub use text_field::apply_native_selection_to_focused_text_edit;
pub use utf16::{char_index_for_utf16_offset, utf16_offset_for_char_index};
pub use window::{actual_window_size, set_actual_window_size};
