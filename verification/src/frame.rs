//! One frame of an open editor, as a conversation: the surroundings report what
//! happened, and the session answers with what has to be done next.

use crate::events;
use crate::events::{Event, EventModel};
use crate::keyboard;
use crate::keyboard::{KeyboardState, NativeKeyboardAction};
use crate::reports;
use crate::selection;
use crate::selection::NativeTextSelection;
use crate::session;
use crate::session::{EditorSession, ProxyReading, ProxyUpdate, SessionModel, UpdateModel};
use crate::text;
use crate::widget;
use vstd::prelude::*;

verus! {

/// What happened in the course of a frame.
pub enum FrameEvent {
    /// The display is about to be refreshed.
    Tick,
    /// The native text field was read.
    ProxyRead(ProxyReading),
    /// egui ran the user interface.
    UiRan {
        /// A text is being edited.
        text_is_edited: bool,
        /// What egui reports of its widgets.
        output_events: Vec<egui::output::OutputEvent>,
    },
    /// The native text field and egui's widget were brought up to date.
    UiApplied {
        /// egui's focused widget took the selection.
        selection_applied: bool,
    },
    /// The frame is on the screen.
    Rendered {
        /// egui wants the keyboard.
        wants_keyboard: bool,
        /// Whether the responder owns the keyboard; nothing without a responder.
        is_first_responder: Option<bool>,
    },
    /// The responder was asked to take the keyboard.
    AskedForKeyboard {
        /// It did.
        became: bool,
    },
}

/// The object that answers for the keyboard.
#[derive(Clone, Copy, Debug, PartialEq, Eq, Structural)]
pub enum Responder {
    /// The native text field.
    TextInput,
    /// The editor's view, where there is no native text field.
    EditorView,
}

/// What has to be done next.
#[derive(Debug, PartialEq)]
pub enum FrameAction {
    /// Read the native text field, and report it.
    ReadProxy,
    /// Publish the size, run the user interface on the events, and report it.
    RunUi { size: (u32, u32), input: Vec<Event> },
    /// Update the native text field, give the selection, if there is one, to
    /// egui's focused widget, and report whether that took it.
    ApplyUi { update: ProxyUpdate, selection: Option<NativeTextSelection> },
    /// Carry out egui's commands, paint, and report it.
    Render,
    /// Carry out the keyboard action on the responder. Only an attempt to
    /// become the first responder is reported back.
    Keyboard { action: NativeKeyboardAction, responder: Responder },
    /// The frame is over.
    Finish,
}

/// What a [`FrameAction`] says, with its texts and events as sequences.
pub enum ActionModel {
    ReadProxy,
    RunUi { size: (u32, u32), input: Seq<EventModel> },
    ApplyUi { update: UpdateModel, selection: Option<NativeTextSelection> },
    Render,
    Keyboard { action: NativeKeyboardAction, responder: Responder },
    Finish,
}

impl View for FrameAction {
    type V = ActionModel;

    open spec fn view(&self) -> ActionModel {
        match *self {
            FrameAction::ReadProxy => ActionModel::ReadProxy,
            FrameAction::RunUi { size, input } => ActionModel::RunUi {
                size,
                input: events::models(input@),
            },
            FrameAction::ApplyUi { update, selection } => ActionModel::ApplyUi {
                update: update@,
                selection,
            },
            FrameAction::Render => ActionModel::Render,
            FrameAction::Keyboard { action, responder } => ActionModel::Keyboard {
                action,
                responder,
            },
            FrameAction::Finish => ActionModel::Finish,
        }
    }
}

/// The object that answers for the keyboard.
pub open spec fn responder_of(state: SessionModel) -> Responder {
    if state.has_text_input {
        Responder::TextInput
    } else {
        Responder::EditorView
    }
}

/// The user interface runs on everything that is queued, and nothing stays in
/// the queue.
pub open spec fn run_ui(state: SessionModel) -> (SessionModel, ActionModel) {
    (
        SessionModel { pending: Seq::empty(), ..state },
        ActionModel::RunUi { size: state.size, input: state.pending },
    )
}

/// The selection that egui's focused widget still has to be given.
pub open spec fn selection_to_apply(state: SessionModel) -> Option<NativeTextSelection> {
    if state.keyboard.selection_dirty {
        Some(state.selection)
    } else {
        None
    }
}

/// The state after an event of a frame, and what has to be done next.
pub open spec fn frame_step(state: SessionModel, event: FrameEvent) -> (SessionModel, ActionModel) {
    match event {
        FrameEvent::Tick => if state.has_text_input {
            (state, ActionModel::ReadProxy)
        } else {
            run_ui(state)
        },
        FrameEvent::ProxyRead(reading) => run_ui(
            state.after_proxy_change(text::proxy_text(reading.text), reading.offsets),
        ),
        FrameEvent::UiRan { text_is_edited, output_events } => {
            let (next, update) = session::synced(
                state,
                text_is_edited,
                reports::reports_of(output_events@),
            );
            (next, ActionModel::ApplyUi { update, selection: selection_to_apply(next) })
        },
        FrameEvent::UiApplied { selection_applied } => (
            SessionModel {
                keyboard: KeyboardState {
                    selection_dirty: state.keyboard.selection_dirty && !selection_applied,
                    ..state.keyboard
                },
                ..state
            },
            ActionModel::Render,
        ),
        FrameEvent::Rendered { wants_keyboard, is_first_responder } => match is_first_responder {
            None => (state, ActionModel::Finish),
            Some(is_first) => {
                let action = keyboard::keyboard_action(
                    wants_keyboard,
                    state.keyboard.session_active,
                    is_first,
                    state.keyboard.dismiss_requested,
                );
                (
                    SessionModel {
                        keyboard: keyboard::keyboard_after(
                            state.keyboard,
                            wants_keyboard,
                            is_first,
                        ),
                        ..state
                    },
                    if action == NativeKeyboardAction::NoAction {
                        ActionModel::Finish
                    } else {
                        ActionModel::Keyboard { action, responder: responder_of(state) }
                    },
                )
            },
        },
        FrameEvent::AskedForKeyboard { became } => (
            SessionModel {
                keyboard: KeyboardState { session_active: became, ..state.keyboard },
                ..state
            },
            ActionModel::Finish,
        ),
    }
}

impl EditorSession {
    /// Takes over an event of a frame and says what has to be done next.
    pub fn run_frame(&mut self, event: FrameEvent) -> (action: FrameAction)
        ensures
            (final(self)@, action@) == frame_step(old(self)@, event),
            old(self)@.well_formed() ==> final(self)@.well_formed(),
    {
        match event {
            FrameEvent::Tick => {
                if self.has_text_input {
                    FrameAction::ReadProxy
                } else {
                    self.start_ui()
                }
            },
            FrameEvent::ProxyRead(reading) => {
                self.queue_native_proxy_change(&reading);
                self.start_ui()
            },
            FrameEvent::UiRan { text_is_edited, output_events } => {
                let update = self.sync_native_text_input_from_egui(text_is_edited, &output_events);
                FrameAction::ApplyUi { update, selection: self.selection_to_apply() }
            },
            FrameEvent::UiApplied { selection_applied } => {
                self.selection_applied(selection_applied);
                FrameAction::Render
            },
            FrameEvent::Rendered { wants_keyboard, is_first_responder } => {
                self.drive_keyboard(wants_keyboard, is_first_responder)
            },
            FrameEvent::AskedForKeyboard { became } => {
                self.keyboard.became_first_responder(became);
                assert(self@ =~= frame_step(old(self)@, event).0);
                FrameAction::Finish
            },
        }
    }

    /// The object that answers for the keyboard.
    pub fn responder(&self) -> (responder: Responder)
        ensures
            responder == responder_of(self@),
    {
        if self.has_text_input {
            Responder::TextInput
        } else {
            Responder::EditorView
        }
    }

    /// Starts the user interface on everything that is queued.
    fn start_ui(&mut self) -> (action: FrameAction)
        ensures
            (final(self)@, action@) == run_ui(old(self)@),
            old(self)@.well_formed() ==> final(self)@.well_formed(),
    {
        let size = (self.logical_w, self.logical_h);
        let input = self.take_pending_events();
        FrameAction::RunUi { size, input }
    }

    /// Brings egui's focus and the native responder back into step.
    fn drive_keyboard(&mut self, wants_keyboard: bool, is_first_responder: Option<bool>) -> (action:
        FrameAction)
        ensures
            (final(self)@, action@) == frame_step(
                old(self)@,
                FrameEvent::Rendered { wants_keyboard, is_first_responder },
            ),
            old(self)@.well_formed() ==> final(self)@.well_formed(),
    {
        let is_first = match is_first_responder {
            Some(is_first) => is_first,
            None => {
                return FrameAction::Finish;
            },
        };
        let responder = self.responder();
        let action = self.keyboard.drive(wants_keyboard, is_first);
        assert(self@ =~= frame_step(
            old(self)@,
            FrameEvent::Rendered { wants_keyboard, is_first_responder },
        ).0);
        match action {
            NativeKeyboardAction::NoAction => FrameAction::Finish,
            _ => FrameAction::Keyboard { action, responder },
        }
    }
}

/// How many events a frame has at most from an event on, that one included.
pub open spec fn events_from(event: FrameEvent) -> nat {
    match event {
        FrameEvent::Tick => 6,
        FrameEvent::ProxyRead(_) => 5,
        FrameEvent::UiRan { .. } => 4,
        FrameEvent::UiApplied { .. } => 3,
        FrameEvent::Rendered { .. } => 2,
        FrameEvent::AskedForKeyboard { .. } => 1,
    }
}

/// How many events a frame has at most after an action: an action that is
/// reported back is answered by the event that reports it.
pub open spec fn events_after(action: ActionModel) -> nat {
    match action {
        ActionModel::ReadProxy => 5,
        ActionModel::RunUi { .. } => 4,
        ActionModel::ApplyUi { .. } => 3,
        ActionModel::Render => 2,
        ActionModel::Keyboard { action, .. } => if action
            == NativeKeyboardAction::BecomeFirstResponder {
            1
        } else {
            0
        },
        ActionModel::Finish => 0,
    }
}

/// A frame runs in a fixed order: it reads the native text field where there is
/// one, runs the user interface, brings both sides up to date, paints, and at
/// last settles the keyboard. No event comes twice, so that a frame is over
/// after six events at most.
pub proof fn law_frame_runs_in_order(state: SessionModel, event: FrameEvent)
    ensures
        ({
            let action = frame_step(state, event).1;
            match event {
                FrameEvent::Tick => if state.has_text_input {
                    action is ReadProxy
                } else {
                    action is RunUi
                },
                FrameEvent::ProxyRead(_) => action is RunUi,
                FrameEvent::UiRan { .. } => action is ApplyUi,
                FrameEvent::UiApplied { .. } => action is Render,
                FrameEvent::Rendered { .. } => action is Keyboard || action is Finish,
                FrameEvent::AskedForKeyboard { .. } => action is Finish,
            }
        }),
        events_after(frame_step(state, event).1) < events_from(event) <= 6,
{
}

/// Whatever happens in a frame, the selection stays in order and no key stays
/// down in the queue.
pub proof fn law_frames_keep_the_session_well_formed(state: SessionModel, event: FrameEvent)
    requires
        state.well_formed(),
    ensures
        frame_step(state, event).0.well_formed(),
{
    match event {
        FrameEvent::UiRan { text_is_edited, output_events } => {
            reports::lemma_latest_selection_is_in_order(reports::reports_of(output_events@));
        },
        _ => {},
    }
}

/// All queued input, and behind it a value that the native text field changed
/// to, reaches the user interface in one frame, in order and only once.
pub proof fn law_input_is_handed_over_once(state: SessionModel, reading: ProxyReading)
    ensures
        ({
            let (next, action) = frame_step(state, FrameEvent::ProxyRead(reading));
            let read = text::proxy_text(reading.text);
            &&& next.pending.len() == 0
            &&& action->input == state.pending + if read is Some && read->0 != state.text {
                events::text_replacement_events(read->0)
            } else {
                Seq::empty()
            }
        }),
        !state.has_text_input ==> ({
            let (next, action) = frame_step(state, FrameEvent::Tick);
            next.pending.len() == 0 && action->input == state.pending
        }),
{
    assert(state.pending + Seq::empty() =~= state.pending);
}

/// The wish to dismiss the keyboard stays until the end of the frame, where it
/// is carried out and gone.
pub proof fn law_return_dismisses_the_keyboard(state: SessionModel, event: FrameEvent)
    requires
        state.keyboard.dismiss_requested,
    ensures
        ({
            let (next, action) = frame_step(state, event);
            match event {
                FrameEvent::Rendered { is_first_responder: Some(_), .. } => {
                    &&& action == (ActionModel::Keyboard {
                        action: NativeKeyboardAction::DismissAndSurrender,
                        responder: responder_of(state),
                    })
                    &&& !next.keyboard.dismiss_requested
                    &&& !next.keyboard.session_active
                },
                _ => next.keyboard.dismiss_requested,
            }
        }),
{
}

/// A native selection that egui has not seen is offered to its focused widget
/// in every frame until the widget takes it.
pub proof fn law_selection_is_offered_until_taken(
    state: SessionModel,
    text_is_edited: bool,
    output_events: Vec<egui::output::OutputEvent>,
)
    requires
        state.keyboard.selection_dirty,
    ensures
        ({
            let (next, action) = frame_step(
                state,
                FrameEvent::UiRan { text_is_edited, output_events },
            );
            &&& action->ApplyUi_selection == Some(next.selection)
            &&& next.keyboard.selection_dirty
            &&& frame_step(
                next,
                FrameEvent::UiApplied { selection_applied: false },
            ).0.keyboard.selection_dirty
            &&& !frame_step(
                next,
                FrameEvent::UiApplied { selection_applied: true },
            ).0.keyboard.selection_dirty
        }),
{
}

/// A frame in which nothing happened changes nothing: the native text field has
/// the editor's text and selection, egui reports no text, and the keyboard is
/// up exactly where it is wanted.
pub proof fn law_quiet_frame_changes_nothing(
    state: SessionModel,
    reading: ProxyReading,
    text_is_edited: bool,
    output_events: Vec<egui::output::OutputEvent>,
    selection_applied: bool,
)
    requires
        state.pending.len() == 0,
        !state.keyboard.selection_dirty,
        !state.keyboard.dismiss_requested,
        text::proxy_text(reading.text) == Some(state.text),
        selection::proxy_selection(state.text, reading.offsets) == Some(state.selection),
        reports::latest_text(reports::reports_of(output_events@)) is None,
    ensures
        frame_step(state, FrameEvent::ProxyRead(reading)).0 == state,
        frame_step(state, FrameEvent::ProxyRead(reading)).1->input.len() == 0,
        frame_step(state, FrameEvent::UiRan { text_is_edited, output_events }) == (
            state,
            ActionModel::ApplyUi {
                update: UpdateModel { text: None, selection: None },
                selection: None,
            },
        ),
        frame_step(state, FrameEvent::UiApplied { selection_applied }).0 == state,
        frame_step(
            state,
            FrameEvent::Rendered {
                wants_keyboard: state.keyboard.session_active,
                is_first_responder: Some(state.keyboard.session_active),
            },
        ) == (state, ActionModel::Finish),
{
    assert(state.pending =~= Seq::empty());
}

/// The user interface always runs at the true size of the editor: as wide and as
/// high as the session is at that moment, which is what it was opened with or
/// last resized to. No event of a frame changes the size, nor what the editor
/// has, nor where the last touch was.
pub proof fn law_ui_runs_at_the_true_size(session: EditorSession, event: FrameEvent)
    ensures
        ({
            let (next, action) = frame_step(session@, event);
            &&& action matches ActionModel::RunUi { size, .. } ==> size.0 == session.logical_w
                && size.1 == session.logical_h
            &&& action is RunUi <==> event is ProxyRead || (event is Tick
                && !session.has_text_input)
            &&& next.size == (session.logical_w, session.logical_h)
            &&& next.has_text_input == session.has_text_input
            &&& next.has_display_link == session.has_display_link
            &&& next.last_pointer == session.last_pointer
        }),
{
}

/// A size that the session was opened with, or that it took, is the one that the
/// user interface runs at, however many events come in between.
pub proof fn law_taken_size_reaches_the_ui(
    state: SessionModel,
    width: u32,
    height: u32,
    between: FrameEvent,
    event: FrameEvent,
    last_pointer: egui::Pos2,
    has_text_input: bool,
    has_display_link: bool,
)
    ensures
        ({
            let opened = SessionModel::opened(
                (width, height),
                has_text_input,
                has_display_link,
                last_pointer,
            );
            let action = frame_step(frame_step(opened, between).0, event).1;
            action matches ActionModel::RunUi { size, .. } ==> size == (width, height)
        }),
        width > 0 && height > 0 ==> ({
            let resized = state.resized(width, height);
            let action = frame_step(frame_step(resized, between).0, event).1;
            action matches ActionModel::RunUi { size, .. } ==> size == (width, height)
        }),
        width == 0 || height == 0 ==> ({
            let action = frame_step(state.resized(width, height), event).1;
            action matches ActionModel::RunUi { size, .. } ==> size == state.size
        }),
{
}

/// The native text field is read first where there is one, and nothing changes by
/// that. A widget that received everything that is queued shows the text that
/// was read once the user interface has run on its input.
pub proof fn law_frame_starts_with_the_native_text(
    state: SessionModel,
    reading: ProxyReading,
    receiver: widget::Widget,
)
    requires
        receiver.is_valid(),
        receiver.after_all(state.pending).text == state.text,
        text::proxy_text(reading.text) is Some,
    ensures
        state.has_text_input ==> frame_step(state, FrameEvent::Tick) == (
            state,
            ActionModel::ReadProxy,
        ),
        ({
            let (next, action) = frame_step(state, FrameEvent::ProxyRead(reading));
            &&& action matches ActionModel::RunUi { input, .. } ==> receiver.after_all(input).text
                == text::proxy_text(reading.text)->0
            &&& next.text == text::proxy_text(reading.text)->0
            &&& next.pending.len() == 0
        }),
{
    session::law_widget_follows_the_native_field(
        state,
        receiver,
        text::proxy_text(reading.text)->0,
        reading.offsets,
    );
}

/// After the user interface ran, the native text field is told what the reports
/// call for, and egui's widget is offered the session's selection exactly where
/// it has not seen it. Once it has taken it, it is not offered again; nothing
/// else changes by that.
pub proof fn law_both_sides_are_brought_up_to_date(
    state: SessionModel,
    text_is_edited: bool,
    output_events: Vec<egui::output::OutputEvent>,
    selection_applied: bool,
)
    ensures
        ({
            let (next, action) = frame_step(
                state,
                FrameEvent::UiRan { text_is_edited, output_events },
            );
            let (synced, told) = session::synced(
                state,
                text_is_edited,
                reports::reports_of(output_events@),
            );
            &&& next == synced
            &&& action matches ActionModel::ApplyUi { update, selection } ==> {
                &&& update == told
                &&& selection is Some <==> state.keyboard.selection_dirty
                &&& selection is Some ==> selection->0 == next.selection
            }
            &&& next.keyboard == state.keyboard
        }),
        ({
            let next = frame_step(state, FrameEvent::UiApplied { selection_applied }).0;
            &&& next.keyboard.selection_dirty == (state.keyboard.selection_dirty
                && !selection_applied)
            &&& next.keyboard.session_active == state.keyboard.session_active
            &&& next.keyboard.dismiss_requested == state.keyboard.dismiss_requested
            &&& next == (SessionModel { keyboard: next.keyboard, ..state })
        }),
{
}

/// At the end of a frame the keyboard's action goes to the native text field, or
/// to the editor's view where there is no field, unless there is nothing to do or
/// nobody to ask. What the responder answers is whether a session is active.
pub proof fn law_keyboard_is_settled_last(
    state: SessionModel,
    wants_keyboard: bool,
    is_first: bool,
    became: bool,
)
    ensures
        frame_step(
            state,
            FrameEvent::Rendered { wants_keyboard, is_first_responder: None },
        ) == (state, ActionModel::Finish),
        ({
            let (next, action) = frame_step(
                state,
                FrameEvent::Rendered { wants_keyboard, is_first_responder: Some(is_first) },
            );
            let decided = keyboard::keyboard_action(
                wants_keyboard,
                state.keyboard.session_active,
                is_first,
                state.keyboard.dismiss_requested,
            );
            &&& action is Finish <==> decided is NoAction
            &&& action is Keyboard <==> !(decided is NoAction)
            &&& action matches ActionModel::Keyboard { action, responder } ==> {
                &&& action == decided
                &&& responder is TextInput <==> state.has_text_input
            }
            &&& next == (SessionModel {
                keyboard: keyboard::keyboard_after(state.keyboard, wants_keyboard, is_first),
                ..state
            })
        }),
        ({
            let next = frame_step(state, FrameEvent::AskedForKeyboard { became }).0;
            &&& next.keyboard.session_active == became
            &&& next.keyboard.dismiss_requested == state.keyboard.dismiss_requested
            &&& next.keyboard.selection_dirty == state.keyboard.selection_dirty
            &&& next == (SessionModel { keyboard: next.keyboard, ..state })
        }),
        responder_of(state) is TextInput <==> state.has_text_input,
{
}

/// The model of an action says all that the action says.
pub proof fn law_model_says_what_the_action_says(action: FrameAction)
    ensures
        match action {
            FrameAction::ReadProxy => action@ == ActionModel::ReadProxy,
            FrameAction::RunUi { size, input } => action@ == (ActionModel::RunUi {
                size,
                input: events::models(input@),
            }),
            FrameAction::ApplyUi { update, selection } => action@ == (ActionModel::ApplyUi {
                update: update@,
                selection,
            }),
            FrameAction::Render => action@ == ActionModel::Render,
            FrameAction::Keyboard { action: asked, responder } => action@ == (
            ActionModel::Keyboard { action: asked, responder }),
            FrameAction::Finish => action@ == ActionModel::Finish,
        },
{
}

/// Handing the input over empties the queue and changes nothing else, beside what
/// the reading of the native text field changes.
pub proof fn law_only_the_queue_is_emptied(state: SessionModel, reading: ProxyReading)
    ensures
        !state.has_text_input ==> ({
            let next = frame_step(state, FrameEvent::Tick).0;
            &&& next.pending.len() == 0
            &&& next == (SessionModel { pending: next.pending, ..state })
        }),
        ({
            let read = state.after_proxy_change(text::proxy_text(reading.text), reading.offsets);
            let (next, action) = frame_step(state, FrameEvent::ProxyRead(reading));
            &&& next.pending.len() == 0
            &&& next == (SessionModel { pending: next.pending, ..read })
            &&& action matches ActionModel::RunUi { input, .. } ==> input == read.pending
        }),
{
}

/// Whatever the session is asked in a frame, a user interface that it starts runs
/// at the width and the height that the session has, and these stay as they are.
pub proof fn law_started_ui_has_the_true_size(
    session: &mut EditorSession,
    event: FrameEvent,
    action: FrameAction,
)
    requires
        call_ensures(EditorSession::run_frame, (session, event), action),
    ensures
        action matches FrameAction::RunUi { size, .. } ==> size.0 == old(session).logical_w
            && size.1 == old(session).logical_h,
        action is RunUi <==> event is ProxyRead || (event is Tick && !old(session).has_text_input),
        final(session).logical_w == old(session).logical_w,
        final(session).logical_h == old(session).logical_h,
        final(session).has_text_input == old(session).has_text_input,
        final(session).has_display_link == old(session).has_display_link,
        final(session).last_pointer == old(session).last_pointer,
{
    law_ui_runs_at_the_true_size(*old(session), event);
    law_model_says_what_the_action_says(action);
}

/// The keyboard is answered for by the native text field where there is one, and
/// by the editor's view otherwise.
pub proof fn law_text_field_answers_for_the_keyboard(session: EditorSession, responder: Responder)
    requires
        call_ensures(EditorSession::responder, (&session,), responder),
    ensures
        responder is TextInput <==> session.has_text_input,
        responder is EditorView <==> !session.has_text_input,
{
}

} // verus!
