# truce_egui

The core of an egui editor backend for audio plug-ins on touch devices, written
and proved in Verus.

- `src/utf16.rs`, `src/selection.rs`: positions in a text, counted in characters
  and in UTF-16 code units.
- `src/text.rs`, `src/events.rs`: text that comes from the native side, and the
  input events that it becomes.
- `src/keyboard.rs`: who owns the soft keyboard.
- `src/reports.rs`, `src/text_field.rs`, `src/window.rs`, `src/fonts.rs`: what is
  read from egui and written to it.
- `src/session.rs`, `src/frame.rs`: the state of an open editor, and its frames.
- `src/editor.rs`, `src/view.rs`, `src/lifecycle.rs`: the editor as it is
  configured, opened, shown and closed.
- `src/windowed.rs`: the window of a standalone host on the desktop.

`app/` performs what the core decides: it talks to UIKit, AppKit, the system
browser and a renderer. `tests/` runs the core, with egui behind it.
