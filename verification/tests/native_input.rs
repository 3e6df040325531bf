//! Text, selections and the keyboard between the native side and egui.

use truce_egui::events::{
    native_text_input_events, native_text_replacement_events, push_touch, Event, Key, Modifiers,
    TouchPhase,
};
use truce_egui::keyboard::{native_keyboard_action, KeyboardState, NativeKeyboardAction};
use truce_egui::selection::{native_proxy_offsets, native_proxy_selection, NativeTextSelection};
use truce_egui::text::{
    native_proxy_text, read_native_string, same_text, swallowed_panic_message, NativeString,
};
use truce_egui::text_field::{
    apply_native_selection_to_focused_text_edit, select, select_focused, surrender_focused,
    with_selection,
};
use truce_egui::utf16::{char_index_for_utf16_offset, len_utf16, utf16_offset_for_char_index};

fn key(key: Key, pressed: bool, modifiers: Modifiers) -> Event {
    Event::Key { key, physical_key: None, pressed, repeat: false, modifiers }
}

#[test]
fn native_return_is_an_enter_key_press_not_literal_text() {
    let events = native_text_input_events("\n");

    assert!(matches!(
        events.as_slice(),
        [
            Event::Key { key: Key::Enter, pressed: true, .. },
            Event::Key { key: Key::Enter, pressed: false, .. }
        ]
    ));
}

#[test]
fn native_committed_text_stays_a_text_event() {
    assert!(matches!(
        native_text_input_events("https://example.com").as_slice(),
        [Event::Text(text)] if text == "https://example.com"
    ));
}

#[test]
fn native_shadow_text_replaces_the_focused_egui_value() {
    let events = native_text_replacement_events("https://example.com/xyz");

    assert!(matches!(
        events.as_slice(),
        [
            Event::Key { key: Key::A, pressed: true, modifiers, .. },
            Event::Key { key: Key::A, pressed: false, .. },
            Event::Text(text)
        ] if modifiers.command && text == "https://example.com/xyz"
    ));
}

#[test]
fn external_responder_loss_surrenders_stale_egui_focus() {
    assert_eq!(
        native_keyboard_action(true, true, false, false),
        NativeKeyboardAction::SurrenderEguiFocus
    );
}

#[test]
fn return_dismissal_overrides_stale_egui_keyboard_focus() {
    assert_eq!(
        native_keyboard_action(true, true, true, true),
        NativeKeyboardAction::DismissAndSurrender
    );
}

#[test]
fn native_utf16_offsets_round_trip_non_bmp_characters() {
    let text = "a💡b";
    assert_eq!(utf16_offset_for_char_index(text, 2), 3);
    assert_eq!(char_index_for_utf16_offset(text, 3), 2);
    assert_eq!(char_index_for_utf16_offset(text, usize::MAX), 3);
}

#[test]
fn native_selection_updates_text_edit_state_without_key_replay() {
    let ctx = egui::Context::default();
    let id = egui::Id::new("native-selection-test");
    let mut text = "https://example.com/".to_owned();
    let _ = ctx.run_ui(egui::RawInput::default(), |ui| {
        egui::TextEdit::singleline(&mut text)
            .id(id)
            .show(ui)
            .response
            .request_focus();
    });

    assert!(apply_native_selection_to_focused_text_edit(
        &ctx,
        NativeTextSelection { start: 8, end: 15 }
    ));
    let state = egui::widgets::text_edit::TextEditState::load(&ctx, id)
        .expect("focused text edit state");
    let range = state.cursor.char_range().expect("cursor range");
    assert_eq!(range.primary.index, 15);
    assert_eq!(range.secondary.index, 8);
}

#[test]
fn selection_is_not_applied_without_a_focused_text_widget() {
    let ctx = egui::Context::default();
    assert!(!apply_native_selection_to_focused_text_edit(
        &ctx,
        NativeTextSelection { start: 0, end: 1 }
    ));
    let button = egui::Id::new("no text here");
    ctx.memory_mut(|memory| memory.request_focus(button));
    assert!(!apply_native_selection_to_focused_text_edit(
        &ctx,
        NativeTextSelection { start: 0, end: 1 }
    ));
}

#[test]
fn only_the_focused_text_widget_is_given_the_selection() {
    let focused = egui::Id::new("focused");
    let other = egui::Id::new("other");
    let mut kept = egui::widgets::text_edit::TextEditState::default();
    select(&mut kept, NativeTextSelection { start: 2, end: 3 });
    let mut memory = egui::Memory::default();
    memory.data.insert_persisted(focused, kept.clone());
    memory.data.insert_persisted(other, kept);

    assert!(!select_focused(&mut memory, NativeTextSelection { start: 7, end: 5 }));
    memory.request_focus(egui::Id::new("no text here"));
    assert!(!select_focused(&mut memory, NativeTextSelection { start: 7, end: 5 }));
    memory.request_focus(focused);
    assert!(select_focused(&mut memory, NativeTextSelection { start: 7, end: 5 }));

    assert_eq!(memory.focused(), Some(focused));
    for (id, moving, staying) in [(focused, 7, 5), (other, 3, 2)] {
        let state: egui::widgets::text_edit::TextEditState =
            memory.data.get_persisted(id).unwrap();
        let range = state.cursor.char_range().unwrap();
        assert_eq!(range.primary.index, moving);
        assert_eq!(range.secondary.index, staying);
    }
}

#[test]
fn an_applied_selection_asks_for_another_frame() {
    let ctx = egui::Context::default();
    // The first frames of a context ask for more by themselves.
    for _ in 0..10 {
        let _ = ctx.run_ui(egui::RawInput::default(), |_| {});
    }
    assert!(!apply_native_selection_to_focused_text_edit(
        &ctx,
        NativeTextSelection::caret(1)
    ));
    assert!(!ctx.has_requested_repaint());

    let id = egui::Id::new("repaint");
    ctx.memory_mut(|memory| {
        memory.data.insert_persisted(id, egui::widgets::text_edit::TextEditState::default());
        memory.request_focus(id);
    });
    assert!(!ctx.has_requested_repaint());
    assert!(apply_native_selection_to_focused_text_edit(
        &ctx,
        NativeTextSelection::caret(1)
    ));
    assert!(ctx.has_requested_repaint());
}

#[test]
fn the_ends_of_a_selection_may_be_swapped() {
    let id = egui::Id::new("swapped");
    let mut ranges = Vec::new();
    for (start, end) in [(4, 9), (9, 4)] {
        let mut memory = egui::Memory::default();
        let state = egui::widgets::text_edit::TextEditState::default();
        memory.data.insert_persisted(id, state);
        memory.request_focus(id);
        assert!(select_focused(&mut memory, NativeTextSelection { start, end }));
        let state: egui::widgets::text_edit::TextEditState =
            memory.data.get_persisted(id).unwrap();
        ranges.push(state.cursor.char_range().unwrap());
    }
    assert_eq!(ranges[0], ranges[1]);
}

#[test]
fn only_the_selection_of_a_state_changes() {
    let mut state = egui::widgets::text_edit::TextEditState::default();
    let mut undoer = state.undoer();
    let range = egui::text::CCursorRange::one(egui::text::CCursor::new(1));
    undoer.add_undo(&(range, "before".to_owned()));
    state.set_undoer(undoer);
    select(&mut state, NativeTextSelection { start: 0, end: 2 });
    assert!(state.undoer().has_undo(&(range, "after".to_owned())));
    let mut memory = egui::Memory::default();
    let id = egui::Id::new("undo");
    memory.data.insert_persisted(id, state);
    memory.request_focus(id);
    assert!(select_focused(&mut memory, NativeTextSelection { start: 1, end: 2 }));
    let kept: egui::widgets::text_edit::TextEditState = memory.data.get_persisted(id).unwrap();
    assert!(kept.undoer().has_undo(&(range, "after".to_owned())));
}

#[test]
fn surrendering_the_focus_keeps_the_selection() {
    let id = egui::Id::new("kept");
    let mut state = egui::widgets::text_edit::TextEditState::default();
    select(&mut state, NativeTextSelection { start: 2, end: 5 });
    let mut memory = egui::Memory::default();
    memory.data.insert_persisted(id, state);
    memory.request_focus(id);
    surrender_focused(&mut memory);
    assert_eq!(memory.focused(), None);
    let state: egui::widgets::text_edit::TextEditState = memory.data.get_persisted(id).unwrap();
    let range = state.cursor.char_range().unwrap();
    assert_eq!((range.primary.index, range.secondary.index), (5, 2));
}

#[test]
fn selection_of_a_state_is_ordered() {
    let mut state = egui::widgets::text_edit::TextEditState::default();
    select(&mut state, NativeTextSelection { start: 9, end: 4 });
    let range = state.cursor.char_range().unwrap();
    assert_eq!(range.primary.index, 9);
    assert_eq!(range.secondary.index, 4);

    assert!(with_selection(None, NativeTextSelection { start: 1, end: 2 }).is_none());
    let state = with_selection(
        Some(egui::widgets::text_edit::TextEditState::default()),
        NativeTextSelection { start: 1, end: 2 },
    )
    .unwrap();
    let range = state.cursor.char_range().unwrap();
    assert_eq!(range.primary.index, 2);
    assert_eq!(range.secondary.index, 1);
}

#[test]
fn focus_is_surrendered_by_whoever_has_it() {
    let ctx = egui::Context::default();
    let id = egui::Id::new("a widget");
    ctx.memory_mut(|memory| memory.request_focus(id));
    assert_eq!(ctx.memory(|memory| memory.focused()), Some(id));
    ctx.memory_mut(|memory| surrender_focused(memory));
    assert_eq!(ctx.memory(|memory| memory.focused()), None);
    ctx.memory_mut(|memory| surrender_focused(memory));
    assert_eq!(ctx.memory(|memory| memory.focused()), None);
}

#[test]
fn line_breaks_of_every_kind_are_enter() {
    for text in ["\n", "\r", "\r\n"] {
        assert_eq!(
            native_text_input_events(text),
            vec![
                key(Key::Enter, true, Modifiers::default()),
                key(Key::Enter, false, Modifiers::default()),
            ]
        );
    }
    for text in ["\n\n", "\n\r", "a\n", " "] {
        assert_eq!(native_text_input_events(text), vec![Event::Text(text.to_owned())]);
    }
    assert!(native_text_input_events("").is_empty());
}

#[test]
fn an_empty_value_deletes_the_selected_text() {
    let command = Modifiers { command: true, mac_cmd: true, ..Modifiers::default() };
    assert_eq!(
        native_text_replacement_events(""),
        vec![
            key(Key::A, true, command),
            key(Key::A, false, command),
            key(Key::Backspace, true, Modifiers::default()),
            key(Key::Backspace, false, Modifiers::default()),
        ]
    );
}

fn to_egui(event: Event) -> egui::Event {
    match event {
        Event::Text(text) => egui::Event::Text(text),
        Event::Key { key, physical_key: _, pressed, repeat, modifiers } => egui::Event::Key {
            key: match key {
                Key::A => egui::Key::A,
                Key::Backspace => egui::Key::Backspace,
                Key::Enter => egui::Key::Enter,
            },
            physical_key: None,
            pressed,
            repeat,
            modifiers: egui::Modifiers {
                alt: modifiers.alt,
                ctrl: modifiers.ctrl,
                shift: modifiers.shift,
                mac_cmd: modifiers.mac_cmd,
                command: modifiers.command,
            },
        },
        Event::PointerMoved(pos) => egui::Event::PointerMoved(pos),
        Event::PrimaryButton { pos, pressed, modifiers: _ } => egui::Event::PointerButton {
            pos,
            button: egui::PointerButton::Primary,
            pressed,
            modifiers: egui::Modifiers::default(),
        },
        Event::PointerGone => egui::Event::PointerGone,
    }
}

#[test]
fn a_real_text_widget_takes_the_replacement() {
    for replacement in ["https://example.com/xyz", "a💡b", ""] {
        let ctx = egui::Context::default();
        let mut text = "an older and longer value".to_owned();
        let mut show = |ctx: &egui::Context, events: Vec<egui::Event>| {
            let input = egui::RawInput { events, ..Default::default() };
            let _ = ctx.run_ui(input, |ui| {
                egui::TextEdit::singleline(&mut text)
                    .id(egui::Id::new("replaced"))
                    .show(ui)
                    .response
                    .request_focus();
            });
        };
        show(&ctx, Vec::new());
        show(&ctx, Vec::new());
        let events = native_text_replacement_events(replacement);
        show(&ctx, events.into_iter().map(to_egui).collect());
        assert_eq!(text, replacement);
    }
}

#[test]
fn touches_become_pointer_events() {
    let pos = egui::pos2(3.0, 4.5);
    let mut events = Vec::new();
    push_touch(&mut events, pos, TouchPhase::Began);
    push_touch(&mut events, pos, TouchPhase::Moved);
    push_touch(&mut events, pos, TouchPhase::Ended);
    let modifiers = Modifiers::default();
    assert_eq!(
        events,
        vec![
            Event::PointerMoved(pos),
            Event::PrimaryButton { pos, pressed: true, modifiers },
            Event::PointerMoved(pos),
            Event::PointerMoved(pos),
            Event::PrimaryButton { pos, pressed: false, modifiers },
            Event::PointerGone,
        ]
    );
}

#[test]
fn keyboard_actions_cover_every_case() {
    let cases = [
        (false, false, false, NativeKeyboardAction::NoAction),
        (false, false, true, NativeKeyboardAction::ResignFirstResponder),
        (false, true, false, NativeKeyboardAction::NoAction),
        (false, true, true, NativeKeyboardAction::ResignFirstResponder),
        (true, false, false, NativeKeyboardAction::BecomeFirstResponder),
        (true, false, true, NativeKeyboardAction::NoAction),
        (true, true, false, NativeKeyboardAction::SurrenderEguiFocus),
        (true, true, true, NativeKeyboardAction::NoAction),
    ];
    for (wants, active, first, action) in cases {
        assert_eq!(native_keyboard_action(wants, active, first, false), action);
        assert_eq!(native_keyboard_action(wants, active, first, true), NativeKeyboardAction::DismissAndSurrender);
    }
}

#[test]
fn keyboard_state_follows_the_actions() {
    let mut state =
        KeyboardState { session_active: false, dismiss_requested: false, selection_dirty: true };
    assert_eq!(state.drive(true, false), NativeKeyboardAction::BecomeFirstResponder);
    state.became_first_responder(true);
    assert!(state.session_active && state.selection_dirty);
    assert_eq!(state.drive(true, true), NativeKeyboardAction::NoAction);
    assert!(state.session_active);

    state.dismiss_requested = true;
    assert_eq!(state.drive(true, true), NativeKeyboardAction::DismissAndSurrender);
    assert_eq!(
        state,
        KeyboardState { session_active: false, dismiss_requested: false, selection_dirty: false }
    );
    assert_eq!(state.drive(false, false), NativeKeyboardAction::NoAction);

    let mut lost =
        KeyboardState { session_active: true, dismiss_requested: false, selection_dirty: true };
    assert_eq!(lost.drive(true, false), NativeKeyboardAction::SurrenderEguiFocus);
    assert!(!lost.session_active && !lost.selection_dirty);

    let mut unwanted =
        KeyboardState { session_active: true, dismiss_requested: false, selection_dirty: true };
    assert_eq!(unwanted.drive(false, true), NativeKeyboardAction::ResignFirstResponder);
    assert!(!unwanted.session_active && unwanted.selection_dirty);
    assert_eq!(unwanted.drive(false, false), NativeKeyboardAction::NoAction);
    assert!(!unwanted.selection_dirty);
}

#[test]
fn utf16_widths_and_offsets() {
    assert_eq!(len_utf16('a'), 1);
    assert_eq!(len_utf16('\u{ffff}'), 1);
    assert_eq!(len_utf16('\u{10000}'), 2);
    assert_eq!(len_utf16('💡'), '💡'.len_utf16());

    let text = "a💡b";
    assert_eq!(utf16_offset_for_char_index(text, 0), 0);
    assert_eq!(utf16_offset_for_char_index(text, 1), 1);
    assert_eq!(utf16_offset_for_char_index(text, 3), 4);
    assert_eq!(utf16_offset_for_char_index(text, usize::MAX), 4);
    assert_eq!(utf16_offset_for_char_index("", 5), 0);
    assert_eq!(char_index_for_utf16_offset(text, 0), 0);
    assert_eq!(char_index_for_utf16_offset(text, 1), 1);
    // Between the two halves of the pair.
    assert_eq!(char_index_for_utf16_offset(text, 2), 2);
    assert_eq!(char_index_for_utf16_offset(text, 4), 3);
    assert_eq!(char_index_for_utf16_offset("", 0), 0);
    assert_eq!(char_index_for_utf16_offset("", 7), 0);
    for index in 0..4 {
        assert_eq!(
            char_index_for_utf16_offset(text, utf16_offset_for_char_index(text, index)),
            index
        );
    }
}

#[test]
fn selections_are_normalized_and_exchanged() {
    let backwards = NativeTextSelection { start: 5, end: 2 };
    assert_eq!(backwards.normalized(), NativeTextSelection { start: 2, end: 5 });
    assert_eq!(backwards.normalized().normalized(), backwards.normalized());
    assert_eq!(NativeTextSelection::default(), NativeTextSelection { start: 0, end: 0 });
    assert_eq!(NativeTextSelection::caret(4), NativeTextSelection { start: 4, end: 4 });
    assert_eq!(backwards.clamped(3), NativeTextSelection { start: 3, end: 2 });

    let text = "a💡b";
    assert_eq!(
        native_proxy_selection(text, Some((4, 1))),
        Some(NativeTextSelection { start: 1, end: 3 })
    );
    assert_eq!(native_proxy_selection(text, Some((-1, 1))), None);
    assert_eq!(native_proxy_selection(text, Some((1, -1))), None);
    assert_eq!(native_proxy_selection(text, None), None);
    assert_eq!(native_proxy_offsets(text, NativeTextSelection { start: 3, end: 1 }), Some((1, 4)));
    assert_eq!(native_proxy_offsets(text, NativeTextSelection { start: 2, end: 9 }), Some((3, 4)));
}

#[test]
fn native_strings_are_read() {
    let bytes = NativeString::Bytes("a💡b".as_bytes().to_vec());
    assert_eq!(read_native_string(&bytes).as_deref(), Some("a💡b"));
    assert_eq!(native_proxy_text(&bytes).as_deref(), Some("a💡b"));
    let broken = NativeString::Bytes(vec![0x61, 0xff]);
    assert_eq!(read_native_string(&broken), None);
    assert_eq!(native_proxy_text(&broken), None);
    assert_eq!(read_native_string(&NativeString::Nil), None);
    assert_eq!(native_proxy_text(&NativeString::Nil).as_deref(), Some(""));
    assert_eq!(read_native_string(&NativeString::NoBytes), None);
    assert_eq!(native_proxy_text(&NativeString::NoBytes), None);

    assert!(same_text("", ""));
    assert!(same_text("a💡b", "a💡b"));
    assert!(!same_text("a", "ab"));
    assert!(!same_text("ab", "a"));
    assert!(!same_text("a", "b"));
}

#[test]
fn panic_messages_are_found() {
    assert_eq!(swallowed_panic_message(Some("literal"), None), "literal");
    assert_eq!(swallowed_panic_message(None, Some("owned".to_owned())), "owned");
    assert_eq!(swallowed_panic_message(None, None), "unknown panic");
}
