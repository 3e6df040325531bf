//! The session of an open editor, frame by frame.

use truce_egui::events::{Event, Key, Modifiers, TouchPhase};
use truce_egui::frame::{FrameAction, FrameEvent, Responder};
use truce_egui::keyboard::NativeKeyboardAction;
use truce_egui::reports::{
    edited_text, keep_addresses, read_reports, urls_to_open, EditedText, WidgetReport,
};
use truce_egui::selection::NativeTextSelection;
use truce_egui::session::{EditorSession, ProxyReading, ProxyUpdate};
use truce_egui::text::NativeString;

fn open_session() -> EditorSession {
    EditorSession::new((400, 300), true, true, egui::pos2(-1.0, -1.0))
}

fn reading(text: &str, offsets: Option<(isize, isize)>) -> ProxyReading {
    ProxyReading { text: NativeString::Bytes(text.as_bytes().to_vec()), offsets }
}

fn text_widget(text: &str, selection: Option<(usize, usize)>) -> egui::WidgetInfo {
    let mut info = egui::WidgetInfo::new(egui::WidgetType::TextEdit);
    info.current_text_value = Some(text.to_owned());
    info.text_selection = selection.map(|(start, end)| start..=end);
    info
}

fn tap(key: Key) -> Vec<Event> {
    vec![true, false]
        .into_iter()
        .map(|pressed| Event::Key {
            key,
            physical_key: None,
            pressed,
            repeat: false,
            modifiers: Modifiers::default(),
        })
        .collect()
}

#[test]
fn open_url_is_emitted_as_a_platform_command() {
    let ctx = egui::Context::default();
    let output = ctx.run_ui(egui::RawInput::default(), |_| {
        ctx.open_url(egui::OpenUrl::new_tab("https://example.com/contact"));
    });

    assert!(matches!(
        output.platform_output.commands.as_slice(),
        [egui::OutputCommand::OpenUrl(open_url)]
            if open_url.url == "https://example.com/contact" && open_url.new_tab
    ));
    assert_eq!(
        urls_to_open(&output.platform_output.commands),
        vec!["https://example.com/contact".to_owned()]
    );
}

#[test]
fn only_addresses_are_opened_and_in_order() {
    let commands = vec![
        egui::OutputCommand::OpenUrl(egui::OpenUrl::same_tab("https://a")),
        egui::OutputCommand::CopyText("https://not-this".to_owned()),
        egui::OutputCommand::OpenUrl(egui::OpenUrl::new_tab("https://b")),
    ];
    assert_eq!(urls_to_open(&commands), vec!["https://a".to_owned(), "https://b".to_owned()]);
    assert!(urls_to_open(&Vec::new()).is_empty());
    assert_eq!(
        keep_addresses(vec![None, Some("x".to_owned()), None, Some("y".to_owned())]),
        vec!["x".to_owned(), "y".to_owned()]
    );
}

#[test]
fn reports_carry_text_selection_and_focus() {
    let events = vec![
        egui::output::OutputEvent::FocusGained(text_widget("one", None)),
        egui::output::OutputEvent::Clicked(egui::WidgetInfo::new(egui::WidgetType::Button)),
        egui::output::OutputEvent::TextSelectionChanged(text_widget("two", Some((3, 1)))),
    ];
    let reports = read_reports(&events);
    assert_eq!(
        reports,
        vec![
            WidgetReport { text: Some("one".to_owned()), selection: None, focus_gained: true },
            WidgetReport { text: None, selection: None, focus_gained: false },
            WidgetReport {
                text: Some("two".to_owned()),
                selection: Some((3, 1)),
                focus_gained: false
            },
        ]
    );
    assert_eq!(
        edited_text(reports),
        Some(EditedText {
            text: "two".to_owned(),
            selection: Some(NativeTextSelection { start: 1, end: 3 }),
            gained_focus: true,
        })
    );
}

#[test]
fn reports_without_text_are_passed_over() {
    assert_eq!(edited_text(Vec::new()), None);
    let no_text = WidgetReport { text: None, selection: Some((1, 2)), focus_gained: true };
    assert_eq!(edited_text(vec![no_text]), None);
    let older = WidgetReport {
        text: Some("older".to_owned()),
        selection: Some((0, 5)),
        focus_gained: false,
    };
    let newer = WidgetReport { text: Some("newer".to_owned()), selection: None, focus_gained: false };
    assert_eq!(
        edited_text(vec![older, newer]),
        Some(EditedText {
            text: "newer".to_owned(),
            selection: Some(NativeTextSelection { start: 0, end: 5 }),
            gained_focus: false,
        })
    );
}

#[test]
fn native_edits_are_queued_once() {
    let mut session = open_session();
    session.queue_native_proxy_change(&reading("héllo", Some((1, 3))));
    assert_eq!(session.native_text, "héllo");
    assert_eq!(session.native_selection, NativeTextSelection { start: 1, end: 3 });
    assert_eq!(session.pending_events.len(), 3);
    assert_eq!(session.pending_events[2], Event::Text("héllo".to_owned()));
    assert!(session.keyboard.selection_dirty);

    session.queue_native_proxy_change(&reading("héllo", Some((1, 3))));
    assert_eq!(session.pending_events.len(), 3);

    // The cursor moved, the text did not.
    session.selection_applied(true);
    session.queue_native_proxy_change(&reading("héllo", Some((2, 2))));
    assert_eq!(session.pending_events.len(), 3);
    assert_eq!(session.selection_to_apply(), Some(NativeTextSelection { start: 2, end: 2 }));

    // Without a selection the cursor is at the end.
    session.queue_native_proxy_change(&reading("héllo", None));
    assert_eq!(session.native_selection, NativeTextSelection { start: 5, end: 5 });

    // What cannot be read changes nothing.
    session.queue_native_proxy_change(&ProxyReading {
        text: NativeString::NoBytes,
        offsets: Some((0, 0)),
    });
    assert_eq!(session.native_text, "héllo");
    assert_eq!(session.native_selection, NativeTextSelection { start: 5, end: 5 });

    let taken = session.take_pending_events();
    assert_eq!(taken.len(), 3);
    assert!(session.pending_events.is_empty());
}

#[test]
fn edits_in_egui_reach_the_native_field() {
    let mut session = open_session();
    let gained = vec![egui::output::OutputEvent::FocusGained(text_widget("a💡b", None))];
    let update = session.sync_native_text_input_from_egui(true, &gained);
    assert_eq!(
        update,
        ProxyUpdate { text: Some("a💡b".to_owned()), selection: Some((4, 4)) }
    );
    assert_eq!(session.native_text, "a💡b");
    assert_eq!(session.native_selection, NativeTextSelection { start: 3, end: 3 });

    // The field reports what it was told, and nothing follows from it.
    session.queue_native_proxy_change(&reading("a💡b", Some((4, 4))));
    assert!(session.pending_events.is_empty());
    assert!(!session.keyboard.selection_dirty);

    // A known text is not written back.
    let again = vec![egui::output::OutputEvent::ValueChanged(text_widget("a💡b", None))];
    let update = session.sync_native_text_input_from_egui(true, &again);
    assert_eq!(update, ProxyUpdate { text: None, selection: None });
    assert_eq!(session.native_selection, NativeTextSelection { start: 3, end: 3 });

    // A shorter text takes the selection with it.
    let shorter = vec![egui::output::OutputEvent::ValueChanged(text_widget("a", None))];
    let update = session.sync_native_text_input_from_egui(true, &shorter);
    assert_eq!(update, ProxyUpdate { text: Some("a".to_owned()), selection: None });
    assert_eq!(session.native_selection, NativeTextSelection { start: 1, end: 1 });

    // Nothing is taken over in a frame without editing.
    let update = session.sync_native_text_input_from_egui(false, &gained);
    assert_eq!(update, ProxyUpdate { text: None, selection: None });
    assert_eq!(session.native_text, "a");
}

#[test]
fn edits_are_not_taken_over_without_a_native_field() {
    let mut session = EditorSession::new((10, 10), false, true, egui::pos2(0.0, 0.0));
    let gained = vec![egui::output::OutputEvent::FocusGained(text_widget("x", None))];
    let update = session.sync_native_text_input_from_egui(true, &gained);
    assert_eq!(update, ProxyUpdate { text: None, selection: None });
    assert_eq!(session.native_text, "");
}

#[test]
fn typed_input_is_queued() {
    let mut session = open_session();
    session.insert_text(&NativeString::Bytes(b"hi".to_vec()));
    session.insert_text(&NativeString::Bytes(Vec::new()));
    session.insert_text(&NativeString::Nil);
    session.insert_text(&NativeString::NoBytes);
    session.insert_text(&NativeString::Bytes(vec![0xc0]));
    assert_eq!(session.pending_events, vec![Event::Text("hi".to_owned())]);

    let mut session = open_session();
    session.delete_backward();
    assert_eq!(session.pending_events, tap(Key::Backspace));

    let mut session = open_session();
    session.text_field_return();
    assert_eq!(session.pending_events, tap(Key::Enter));
    assert!(session.keyboard.dismiss_requested);

    let mut session = open_session();
    let pos = egui::pos2(7.0, 8.0);
    session.dispatch_touch(pos, TouchPhase::Moved);
    assert_eq!(session.pending_events, vec![Event::PointerMoved(pos)]);
    assert_eq!(session.last_pointer, pos);
}

#[test]
fn sizes_are_taken_once_and_never_zero() {
    let mut session = open_session();
    assert!(!session.resize_inner(0, 5));
    assert!(!session.resize_inner(5, 0));
    assert!(!session.resize_inner(400, 300));
    assert!(session.resize_inner(400, 301));
    assert_eq!((session.logical_w, session.logical_h), (400, 301));
    assert!(!session.resize_inner(400, 301));
}

#[test]
fn display_link_is_only_told_when_it_is_there() {
    assert_eq!(open_session().display_link_request(true), Some(true));
    assert_eq!(open_session().display_link_request(false), Some(false));
    let session = EditorSession::new((1, 1), true, false, egui::pos2(0.0, 0.0));
    assert_eq!(session.display_link_request(true), None);
}

#[test]
fn a_frame_runs_in_order() {
    let mut session = open_session();
    session.delete_backward();
    assert_eq!(session.run_frame(FrameEvent::Tick), FrameAction::ReadProxy);
    let action = session.run_frame(FrameEvent::ProxyRead(reading("", Some((0, 0)))));
    assert_eq!(action, FrameAction::RunUi { size: (400, 300), input: tap(Key::Backspace) });
    let output_events = vec![egui::output::OutputEvent::FocusGained(text_widget("abc", None))];
    let action = session.run_frame(FrameEvent::UiRan { text_is_edited: true, output_events });
    assert_eq!(
        action,
        FrameAction::ApplyUi {
            update: ProxyUpdate { text: Some("abc".to_owned()), selection: Some((3, 3)) },
            selection: None,
        }
    );
    assert_eq!(
        session.run_frame(FrameEvent::UiApplied { selection_applied: false }),
        FrameAction::Render
    );
    let action = session.run_frame(FrameEvent::Rendered {
        wants_keyboard: true,
        is_first_responder: Some(false),
    });
    assert_eq!(
        action,
        FrameAction::Keyboard {
            action: NativeKeyboardAction::BecomeFirstResponder,
            responder: Responder::TextInput,
        }
    );
    assert_eq!(
        session.run_frame(FrameEvent::AskedForKeyboard { became: true }),
        FrameAction::Finish
    );
    assert!(session.keyboard.session_active);
}

#[test]
fn a_frame_without_a_native_field_starts_with_the_ui() {
    let mut session = EditorSession::new((20, 10), false, true, egui::pos2(0.0, 0.0));
    session.delete_backward();
    assert_eq!(
        session.run_frame(FrameEvent::Tick),
        FrameAction::RunUi { size: (20, 10), input: tap(Key::Backspace) }
    );
    assert!(session.pending_events.is_empty());
    let action = session.run_frame(FrameEvent::Rendered {
        wants_keyboard: true,
        is_first_responder: Some(false),
    });
    assert_eq!(
        action,
        FrameAction::Keyboard {
            action: NativeKeyboardAction::BecomeFirstResponder,
            responder: Responder::EditorView,
        }
    );
    assert_eq!(
        session.run_frame(FrameEvent::Rendered { wants_keyboard: true, is_first_responder: None }),
        FrameAction::Finish
    );
}

#[test]
fn return_dismisses_the_keyboard_at_the_end_of_the_frame() {
    let mut session = open_session();
    session.keyboard.session_active = true;
    session.text_field_return();
    session.run_frame(FrameEvent::Tick);
    session.run_frame(FrameEvent::ProxyRead(reading("", Some((0, 0)))));
    session.run_frame(FrameEvent::UiRan { text_is_edited: false, output_events: Vec::new() });
    session.run_frame(FrameEvent::UiApplied { selection_applied: true });
    assert!(session.keyboard.dismiss_requested);
    let action = session.run_frame(FrameEvent::Rendered {
        wants_keyboard: true,
        is_first_responder: Some(true),
    });
    assert_eq!(
        action,
        FrameAction::Keyboard {
            action: NativeKeyboardAction::DismissAndSurrender,
            responder: Responder::TextInput,
        }
    );
    assert!(!session.keyboard.dismiss_requested);
}

#[test]
fn a_selection_is_offered_until_it_is_taken() {
    let mut session = open_session();
    session.run_frame(FrameEvent::ProxyRead(reading("abc", Some((1, 2)))));
    for taken in [false, true] {
        let action = session
            .run_frame(FrameEvent::UiRan { text_is_edited: false, output_events: Vec::new() });
        assert_eq!(
            action,
            FrameAction::ApplyUi {
                update: ProxyUpdate { text: None, selection: None },
                selection: Some(NativeTextSelection { start: 1, end: 2 }),
            }
        );
        session.run_frame(FrameEvent::UiApplied { selection_applied: taken });
    }
    assert_eq!(session.selection_to_apply(), None);
}

#[test]
fn a_quiet_frame_changes_nothing() {
    let mut session = open_session();
    session.run_frame(FrameEvent::ProxyRead(reading("abc", Some((1, 1)))));
    session.selection_applied(true);
    session.keyboard.session_active = true;
    let action = session.run_frame(FrameEvent::ProxyRead(reading("abc", Some((1, 1)))));
    assert_eq!(action, FrameAction::RunUi { size: (400, 300), input: Vec::new() });
    let action =
        session.run_frame(FrameEvent::UiRan { text_is_edited: true, output_events: Vec::new() });
    assert_eq!(
        action,
        FrameAction::ApplyUi {
            update: ProxyUpdate { text: None, selection: None },
            selection: None,
        }
    );
    let action = session.run_frame(FrameEvent::Rendered {
        wants_keyboard: true,
        is_first_responder: Some(true),
    });
    assert_eq!(action, FrameAction::Finish);
    assert!(session.keyboard.session_active && !session.keyboard.selection_dirty);
    assert_eq!(session.native_text, "abc");
}
