//! The state of an open editor, and what each piece of input makes of it.

use crate::editor::EguiEditor;
use crate::events;
use crate::events::{
    append_events, native_text_input_events, native_text_replacement_events, push_key, push_touch,
    Event, EventModel, Key, Modifiers, TouchPhase,
};
use crate::keyboard::KeyboardState;
use crate::reports;
use crate::reports::{edited_text, read_reports, EditedText};
use crate::selection;
use crate::selection::{native_proxy_offsets, native_proxy_selection, NativeTextSelection};
use crate::text;
use crate::text::{native_proxy_text, read_native_string, same_text, NativeString};
use crate::utf16;
use crate::widget;
use vstd::prelude::*;

verus! {

/// An open editor. A native text field off screen, where there is one, owns the
/// keyboard; egui paints the visible widget. Both hold the same text.
#[derive(Debug, PartialEq)]
pub struct EditorSession {
    /// The size of the editor in logical points.
    pub logical_w: u32,
    pub logical_h: u32,
    /// There is a native text field.
    pub has_text_input: bool,
    /// There is a display link that drives the frames.
    pub has_display_link: bool,
    /// The input for the next frame.
    pub pending_events: Vec<Event>,
    /// The text in the native text field.
    pub native_text: String,
    /// The selection in the native text field.
    pub native_selection: NativeTextSelection,
    /// Who owns the keyboard, and whether egui still has to learn of the
    /// native selection.
    pub keyboard: KeyboardState,
    /// Where the last touch was.
    pub last_pointer: egui::Pos2,
}

/// The state of an [`EditorSession`], with its texts and its queue as sequences.
#[verifier::ext_equal]
pub struct SessionModel {
    pub size: (u32, u32),
    pub has_text_input: bool,
    pub has_display_link: bool,
    pub pending: Seq<EventModel>,
    pub text: Seq<char>,
    pub selection: NativeTextSelection,
    pub keyboard: KeyboardState,
    pub last_pointer: egui::Pos2,
}

impl View for EditorSession {
    type V = SessionModel;

    open spec fn view(&self) -> SessionModel {
        SessionModel {
            size: (self.logical_w, self.logical_h),
            has_text_input: self.has_text_input,
            has_display_link: self.has_display_link,
            pending: events::models(self.pending_events@),
            text: self.native_text@,
            selection: self.native_selection,
            keyboard: self.keyboard,
            last_pointer: self.last_pointer,
        }
    }
}

impl SessionModel {
    /// The selection is in order, and no key stays down in the queue.
    pub open spec fn well_formed(self) -> bool {
        &&& self.selection.is_normalized()
        &&& events::keys_are_released(self.pending)
    }

    /// The state of an editor that has just been opened.
    pub open spec fn opened(
        size: (u32, u32),
        has_text_input: bool,
        has_display_link: bool,
        last_pointer: egui::Pos2,
    ) -> Self {
        SessionModel {
            size,
            has_text_input,
            has_display_link,
            pending: Seq::empty(),
            text: Seq::empty(),
            selection: NativeTextSelection { start: 0, end: 0 },
            keyboard: KeyboardState {
                session_active: false,
                dismiss_requested: false,
                selection_dirty: false,
            },
            last_pointer,
        }
    }

    /// The same state with more input queued behind what is there.
    pub open spec fn with_events(self, more: Seq<EventModel>) -> Self {
        SessionModel { pending: self.pending + more, ..self }
    }

    /// The state after the native text field was read. A field that could not
    /// be read changes nothing. A text that egui does not know yet is queued as
    /// a replacement; a text or a selection that changed has to reach egui's
    /// widget. A field without a selection has the cursor at its end.
    pub open spec fn after_proxy_change(
        self,
        text: Option<Seq<char>>,
        offsets: Option<(isize, isize)>,
    ) -> Self {
        match text {
            None => self,
            Some(text) => {
                let selection = match selection::proxy_selection(text, offsets) {
                    Some(selection) => selection,
                    None => NativeTextSelection::at(text.len() as int),
                };
                SessionModel {
                    pending: if text != self.text {
                        self.pending + events::text_replacement_events(text)
                    } else {
                        self.pending
                    },
                    text,
                    selection,
                    keyboard: KeyboardState {
                        selection_dirty: self.keyboard.selection_dirty || text != self.text
                            || selection != self.selection,
                        ..self.keyboard
                    },
                    ..self
                }
            },
        }
    }

    /// The selection that the native text field gets for a text that was edited
    /// in egui: the one that egui reports, or else the end of the text where
    /// the widget gained the focus, or else the one there is, as far as the
    /// text reaches.
    pub open spec fn selection_for(
        self,
        text: Seq<char>,
        reported: Option<NativeTextSelection>,
        gained_focus: bool,
    ) -> NativeTextSelection {
        match reported {
            Some(selection) => selection,
            None => if gained_focus {
                NativeTextSelection::at(text.len() as int)
            } else {
                self.selection.within(text.len() as int)
            },
        }
    }

    /// The state after a text was edited in egui.
    pub open spec fn after_edit(
        self,
        text: Seq<char>,
        reported: Option<NativeTextSelection>,
        gained_focus: bool,
    ) -> Self {
        SessionModel { text, selection: self.selection_for(text, reported, gained_focus), ..self }
    }

    /// What the native text field has to be told after a text was edited in
    /// egui: the text where it has another one, and the selection where egui
    /// reports one or the widget gained the focus.
    pub open spec fn update_for(
        self,
        text: Seq<char>,
        reported: Option<NativeTextSelection>,
        gained_focus: bool,
    ) -> UpdateModel {
        UpdateModel {
            text: if text != self.text {
                Some(text)
            } else {
                None
            },
            selection: if reported is Some || gained_focus {
                selection::proxy_offsets(text, self.selection_for(text, reported, gained_focus))
            } else {
                None
            },
        }
    }

    /// The state after a size was given: zero is no size.
    pub open spec fn resized(self, width: u32, height: u32) -> Self {
        if width == 0 || height == 0 {
            self
        } else {
            SessionModel { size: (width, height), ..self }
        }
    }
}

/// What the native text field has to be told.
#[derive(Debug, PartialEq)]
pub struct ProxyUpdate {
    /// A text that it does not have yet.
    pub text: Option<String>,
    /// The UTF-16 offsets of the selection that it is to show.
    pub selection: Option<(isize, isize)>,
}

/// What a [`ProxyUpdate`] says, with its text as a sequence of characters.
#[verifier::ext_equal]
pub struct UpdateModel {
    pub text: Option<Seq<char>>,
    pub selection: Option<(isize, isize)>,
}

impl View for ProxyUpdate {
    type V = UpdateModel;

    open spec fn view(&self) -> UpdateModel {
        UpdateModel {
            text: match self.text {
                Some(text) => Some(text@),
                None => None,
            },
            selection: self.selection,
        }
    }
}

/// What was read from the native text field.
#[derive(Debug, PartialEq)]
pub struct ProxyReading {
    pub text: NativeString,
    /// The UTF-16 offsets of the two ends of the selection.
    pub offsets: Option<(isize, isize)>,
}

impl EditorSession {
    /// An editor that has just been opened: nothing is queued, the text field
    /// is empty, and the keyboard is down.
    pub fn new(
        size: (u32, u32),
        has_text_input: bool,
        has_display_link: bool,
        last_pointer: egui::Pos2,
    ) -> (session: Self)
        ensures
            session@ == SessionModel::opened(size, has_text_input, has_display_link, last_pointer),
            session@.well_formed(),
    {
        let session = EditorSession {
            logical_w: size.0,
            logical_h: size.1,
            has_text_input,
            has_display_link,
            pending_events: Vec::with_capacity(16),
            native_text: String::new(),
            native_selection: NativeTextSelection::default(),
            keyboard: KeyboardState {
                session_active: false,
                dismiss_requested: false,
                selection_dirty: false,
            },
            last_pointer,
        };
        assert(session@ =~= SessionModel::opened(
            size,
            has_text_input,
            has_display_link,
            last_pointer,
        ));
        session
    }

    /// Takes over the text and the selection of the native text field.
    pub fn queue_native_proxy_change(&mut self, reading: &ProxyReading)
        ensures
            final(self)@ == old(self)@.after_proxy_change(
                text::proxy_text(reading.text),
                reading.offsets,
            ),
            old(self)@.well_formed() ==> final(self)@.well_formed(),
    {
        let text = match native_proxy_text(&reading.text) {
            Some(text) => text,
            None => {
                return;
            },
        };
        let selection = match native_proxy_selection(text.as_str(), reading.offsets) {
            Some(selection) => selection,
            None => NativeTextSelection::caret(text.as_str().unicode_len()),
        };
        let ghost before = self@;
        proof {
            events::law_no_key_stays_down(text@, self.last_pointer, TouchPhase::Moved);
            if before.well_formed() {
                events::lemma_released_keys_append(
                    before.pending,
                    events::text_replacement_events(text@),
                );
            }
        }
        if !same_text(text.as_str(), self.native_text.as_str()) {
            append_events(
                &mut self.pending_events,
                native_text_replacement_events(text.as_str()),
            );
            self.native_text = text;
            self.keyboard.selection_dirty = true;
        }
        if selection != self.native_selection {
            self.native_selection = selection;
            self.keyboard.selection_dirty = true;
        }
        assert(self@ =~= before.after_proxy_change(
            text::proxy_text(reading.text),
            reading.offsets,
        ));
    }

    /// Hands over the input of the next frame.
    pub fn take_pending_events(&mut self) -> (taken: Vec<Event>)
        ensures
            events::models(taken@) == old(self)@.pending,
            final(self)@ == (SessionModel { pending: Seq::empty(), ..old(self)@ }),
            old(self)@.well_formed() ==> final(self)@.well_formed(),
    {
        let mut taken: Vec<Event> = Vec::new();
        taken.append(&mut self.pending_events);
        assert(taken@ =~= old(self).pending_events@);
        assert(self@ =~= (SessionModel { pending: Seq::empty(), ..old(self)@ }));
        taken
    }

    /// Takes over the text that was edited in egui, and says what the native
    /// text field has to be told.
    pub fn take_edit(&mut self, edited: Option<EditedText>) -> (update: ProxyUpdate)
        ensures
            edited is None ==> final(self)@ == old(self)@ && update@ == (UpdateModel {
                text: None,
                selection: None,
            }),
            edited is Some ==> ({
                let text = edited->0.text@;
                let reported = edited->0.selection;
                let gained_focus = edited->0.gained_focus;
                &&& final(self)@ == old(self)@.after_edit(text, reported, gained_focus)
                &&& update@ == old(self)@.update_for(text, reported, gained_focus)
            }),
    {
        let edited = match edited {
            Some(edited) => edited,
            None => {
                return ProxyUpdate { text: None, selection: None };
            },
        };
        let len: usize = edited.text.as_str().unicode_len();
        let selection = match edited.selection {
            Some(selection) => selection,
            None => if edited.gained_focus {
                NativeTextSelection::caret(len)
            } else {
                self.native_selection.clamped(len)
            },
        };
        let offsets = if edited.selection.is_some() || edited.gained_focus {
            native_proxy_offsets(edited.text.as_str(), selection)
        } else {
            None
        };
        let ghost before = self@;
        let text = if same_text(edited.text.as_str(), self.native_text.as_str()) {
            None
        } else {
            self.native_text = edited.text.clone();
            Some(edited.text)
        };
        self.native_selection = selection;
        let update = ProxyUpdate { text, selection: offsets };
        assert(self@ =~= before.after_edit(
            edited.text@,
            edited.selection,
            edited.gained_focus,
        ));
        assert(update@ =~= before.update_for(
            edited.text@,
            edited.selection,
            edited.gained_focus,
        ));
        update
    }

    /// Takes over what a frame reports on the edited text, and says what the
    /// native text field has to be told. Nothing is taken over without a native
    /// text field, or in a frame in which no text is being edited.
    pub fn sync_native_text_input_from_egui(
        &mut self,
        text_is_edited: bool,
        output_events: &Vec<egui::output::OutputEvent>,
    ) -> (update: ProxyUpdate)
        ensures
            (final(self)@, update@) == synced(
                old(self)@,
                text_is_edited,
                reports::reports_of(output_events@),
            ),
            old(self)@.well_formed() ==> final(self)@.well_formed(),
    {
        let edited = if self.has_text_input && text_is_edited {
            edited_text(read_reports(output_events))
        } else {
            None
        };
        self.take_edit(edited)
    }

    /// The selection that egui's focused widget still has to be given.
    pub fn selection_to_apply(&self) -> (selection: Option<NativeTextSelection>)
        ensures
            selection == if self@.keyboard.selection_dirty {
                Some(self@.selection)
            } else {
                None
            },
    {
        if self.keyboard.selection_dirty {
            Some(self.native_selection)
        } else {
            None
        }
    }

    /// Records whether egui's focused widget took the selection.
    pub fn selection_applied(&mut self, applied: bool)
        ensures
            final(self)@ == (SessionModel {
                keyboard: KeyboardState {
                    selection_dirty: old(self)@.keyboard.selection_dirty && !applied,
                    ..old(self)@.keyboard
                },
                ..old(self)@
            }),
    {
        if applied {
            self.keyboard.selection_dirty = false;
        }
        assert(self@ =~= (SessionModel {
            keyboard: KeyboardState {
                selection_dirty: old(self)@.keyboard.selection_dirty && !applied,
                ..old(self)@.keyboard
            },
            ..old(self)@
        }));
    }

    /// Queues text that the user typed.
    pub fn insert_text(&mut self, string: &NativeString)
        ensures
            final(self)@ == match text::native_text(*string) {
                Some(text) => old(self)@.with_events(events::text_input_events(text)),
                None => old(self)@,
            },
            old(self)@.well_formed() ==> final(self)@.well_formed(),
    {
        let ghost before = self@;
        match read_native_string(string) {
            Some(text) => {
                proof {
                    events::law_no_key_stays_down(text@, self.last_pointer, TouchPhase::Moved);
                    if before.well_formed() {
                        events::lemma_released_keys_append(
                            before.pending,
                            events::text_input_events(text@),
                        );
                    }
                }
                append_events(&mut self.pending_events, native_text_input_events(text.as_str()));
                assert(self@ =~= before.with_events(events::text_input_events(text@)));
            },
            None => {},
        }
    }

    /// Queues a tap on Backspace.
    pub fn delete_backward(&mut self)
        ensures
            final(self)@ == old(self)@.with_events(
                events::key_tap(Key::Backspace, Modifiers::none()),
            ),
            old(self)@.well_formed() ==> final(self)@.well_formed(),
    {
        let ghost tap = events::key_tap(Key::Backspace, Modifiers::none());
        proof {
            if self@.well_formed() {
                assert(events::keys_are_released(tap));
                events::lemma_released_keys_append(self@.pending, tap);
            }
        }
        push_key(&mut self.pending_events, Key::Backspace, Modifiers::default());
        assert(self@ =~= old(self)@.with_events(tap));
    }

    /// Takes the Return key of the native text field: a tap on Enter for egui,
    /// and the wish to dismiss the keyboard.
    pub fn text_field_return(&mut self)
        ensures
            final(self)@ == (SessionModel {
                keyboard: KeyboardState { dismiss_requested: true, ..old(self)@.keyboard },
                ..old(self)@.with_events(events::key_tap(Key::Enter, Modifiers::none()))
            }),
            old(self)@.well_formed() ==> final(self)@.well_formed(),
    {
        let ghost tap = events::key_tap(Key::Enter, Modifiers::none());
        proof {
            reveal_strlit("\n");
            assert("\n"@ =~= seq!['\n']);
            if self@.well_formed() {
                assert(events::keys_are_released(tap));
                events::lemma_released_keys_append(self@.pending, tap);
            }
        }
        append_events(&mut self.pending_events, native_text_input_events("\n"));
        self.keyboard.dismiss_requested = true;
        assert(self@ =~= (SessionModel {
            keyboard: KeyboardState { dismiss_requested: true, ..old(self)@.keyboard },
            ..old(self)@.with_events(tap)
        }));
    }

    /// Queues what a touch becomes, and remembers where it was.
    pub fn dispatch_touch(&mut self, pos: egui::Pos2, phase: TouchPhase)
        ensures
            final(self)@ == (SessionModel {
                last_pointer: pos,
                ..old(self)@.with_events(events::touch_events(pos, phase))
            }),
            old(self)@.well_formed() ==> final(self)@.well_formed(),
    {
        proof {
            events::law_no_key_stays_down(Seq::empty(), pos, phase);
            if self@.well_formed() {
                events::lemma_released_keys_append(
                    self@.pending,
                    events::touch_events(pos, phase),
                );
            }
        }
        self.last_pointer = pos;
        push_touch(&mut self.pending_events, pos, phase);
        assert(self@ =~= (SessionModel {
            last_pointer: pos,
            ..old(self)@.with_events(events::touch_events(pos, phase))
        }));
    }

    /// Gives the editor another size. The result says whether the view and the
    /// surface have to follow: they do not for a size that is zero, or that the
    /// editor has already.
    pub fn resize_inner(&mut self, logical_w: u32, logical_h: u32) -> (changed: bool)
        ensures
            final(self)@ == old(self)@.resized(logical_w, logical_h),
            changed == (final(self)@.size != old(self)@.size),
            changed == (logical_w != 0 && logical_h != 0 && (logical_w, logical_h) != old(
                self,
            )@.size),
    {
        if logical_w == 0 || logical_h == 0 {
            return false;
        }
        if self.logical_w == logical_w && self.logical_h == logical_h {
            return false;
        }
        self.logical_w = logical_w;
        self.logical_h = logical_h;
        assert(self@ =~= old(self)@.resized(logical_w, logical_h));
        true
    }

    /// What the display link is told when the editor is hidden or shown again:
    /// nothing where there is none.
    pub fn display_link_request(&self, paused: bool) -> (request: Option<bool>)
        ensures
            request == if self@.has_display_link {
                Some(paused)
            } else {
                None
            },
    {
        if self.has_display_link {
            Some(paused)
        } else {
            None
        }
    }
}

/// The state after a frame has reported on the edited text, and what the native
/// text field has to be told.
pub open spec fn synced(
    state: SessionModel,
    text_is_edited: bool,
    reports: Seq<reports::ReportModel>,
) -> (SessionModel, UpdateModel) {
    let nothing = UpdateModel { text: None, selection: None };
    if !state.has_text_input || !text_is_edited {
        (state, nothing)
    } else {
        match reports::latest_text(reports) {
            None => (state, nothing),
            Some(text) => {
                let reported = reports::latest_selection(reports);
                let gained_focus = reports::gained_focus(reports);
                (
                    state.after_edit(text, reported, gained_focus),
                    state.update_for(text, reported, gained_focus),
                )
            },
        }
    }
}

/// Reading the native text field gives the editor its text and a selection in
/// order within that text. What egui does not know yet is queued once, as a
/// replacement, behind everything that is queued already.
pub proof fn law_native_value_arrives(
    state: SessionModel,
    text: Seq<char>,
    offsets: Option<(isize, isize)>,
)
    requires
        text.len() <= usize::MAX,
    ensures
        ({
            let after = state.after_proxy_change(Some(text), offsets);
            &&& after.text == text
            &&& after.selection.is_normalized()
            &&& after.selection.end <= text.len()
            &&& after.pending == state.pending + if text == state.text {
                Seq::empty()
            } else {
                events::text_replacement_events(text)
            }
            &&& text != state.text ==> after.keyboard.selection_dirty
            &&& after.selection != state.selection ==> after.keyboard.selection_dirty
        }),
{
    assert(state.pending + Seq::empty() =~= state.pending);
    if let Some((start, end)) = offsets {
        if start >= 0 && end >= 0 {
            utf16::law_utf16_offset_round_trips(text, start as int);
            utf16::law_utf16_offset_round_trips(text, end as int);
        }
    }
}

/// Reading the same value of the native text field again changes nothing: no
/// input is replayed.
pub proof fn law_same_value_is_not_replayed(
    state: SessionModel,
    text: Option<Seq<char>>,
    offsets: Option<(isize, isize)>,
)
    ensures
        state.after_proxy_change(text, offsets).after_proxy_change(text, offsets)
            == state.after_proxy_change(text, offsets),
{
}

/// An edit in egui that the native text field was told of comes back from it
/// without any effect: neither input nor another selection follows from it.
pub proof fn law_edit_is_not_echoed(
    state: SessionModel,
    text: Seq<char>,
    reported: Option<NativeTextSelection>,
    gained_focus: bool,
)
    requires
        text.len() <= usize::MAX,
        reported is Some ==> reported->0.is_normalized() && reported->0.end <= text.len(),
        state.update_for(text, reported, gained_focus).selection is Some,
    ensures
        ({
            let after = state.after_edit(text, reported, gained_focus);
            after.after_proxy_change(
                Some(text),
                state.update_for(text, reported, gained_focus).selection,
            ) == after
        }),
{
    let after = state.after_edit(text, reported, gained_focus);
    selection::law_selection_round_trips(text, after.selection);
    assert(after.after_proxy_change(
        Some(text),
        state.update_for(text, reported, gained_focus).selection,
    ) =~= after);
}

/// An edit that repeats the text of the native text field, with neither a
/// selection nor a gained focus, tells the field nothing, and changes nothing
/// where the selection lies within the text.
pub proof fn law_known_text_is_not_written_back(state: SessionModel)
    ensures
        state.update_for(state.text, None, false) == (UpdateModel { text: None, selection: None }),
        state.selection.start <= state.text.len() && state.selection.end <= state.text.len()
            ==> state.after_edit(state.text, None, false) == state,
{
}

/// After an edit in egui the editor and the native text field, once told, hold
/// the same text: the field is told every text that it does not have.
pub proof fn law_both_sides_hold_the_same_text(
    state: SessionModel,
    text: Seq<char>,
    reported: Option<NativeTextSelection>,
    gained_focus: bool,
)
    ensures
        state.after_edit(text, reported, gained_focus).text == match state.update_for(
            text,
            reported,
            gained_focus,
        ).text {
            Some(told) => told,
            None => state.text,
        },
{
}

/// A size that is not zero is taken, a second time without effect; zero is no
/// size.
pub proof fn law_resizing_twice_is_resizing_once(state: SessionModel, width: u32, height: u32)
    ensures
        width != 0 && height != 0 ==> state.resized(width, height).size == (width, height),
        width == 0 || height == 0 ==> state.resized(width, height) == state,
        state.resized(width, height).resized(width, height) == state.resized(width, height),
{
}

/// An open session follows its editor: it starts at the editor's size, and a size
/// that both are given is taken by both or by neither, so that their sizes stay
/// the same. It is taken where it is not zero, and both have it then.
pub proof fn law_session_follows_the_editor<P: ?Sized, U>(
    editor: EguiEditor<P, U>,
    state: SessionModel,
    width: u32,
    height: u32,
)
    ensures
        forall|has_text_input: bool, has_display_link: bool, last_pointer: egui::Pos2|
            (#[trigger] SessionModel::opened(
                editor.size,
                has_text_input,
                has_display_link,
                last_pointer,
            )).size == editor.size,
        state.size == editor.size ==> state.resized(width, height).size == editor.resized(
            width,
            height,
        ).size,
        width != 0 && height != 0 ==> editor.resized(width, height).size == (width, height)
            && state.resized(width, height).size == (width, height),
        width == 0 || height == 0 ==> editor.resized(width, height) == editor && state.resized(
            width,
            height,
        ) == state,
{
}

/// The model of a session shows each of its fields: the width as the first part
/// of the size and the height as the second, the queue event by event, and the
/// text character by character. So does the model of an update.
pub proof fn law_models_show_the_fields(session: EditorSession, update: ProxyUpdate)
    ensures
        session@.size == (session.logical_w, session.logical_h),
        session@.has_text_input == session.has_text_input,
        session@.has_display_link == session.has_display_link,
        session@.pending == events::models(session.pending_events@),
        session@.text == session.native_text@,
        session@.selection == session.native_selection,
        session@.keyboard == session.keyboard,
        session@.last_pointer == session.last_pointer,
        update@.text is Some <==> update.text is Some,
        update.text is Some ==> update@.text->0 == update.text->0@,
        update@.selection == update.selection,
{
}

/// An editor opens at the size that it is given, with nothing queued, an empty
/// text with the cursor in it, and the keyboard down.
pub proof fn law_session_opens_empty(
    width: u32,
    height: u32,
    has_text_input: bool,
    has_display_link: bool,
    last_pointer: egui::Pos2,
)
    ensures
        ({
            let state = SessionModel::opened(
                (width, height),
                has_text_input,
                has_display_link,
                last_pointer,
            );
            &&& state.size == (width, height)
            &&& state.has_text_input == has_text_input
            &&& state.has_display_link == has_display_link
            &&& state.last_pointer == last_pointer
            &&& state.pending.len() == 0
            &&& state.text.len() == 0
            &&& state.selection.start == 0 && state.selection.end == 0
            &&& !state.keyboard.session_active
            &&& !state.keyboard.dismiss_requested
            &&& !state.keyboard.selection_dirty
        }),
{
}

/// Input is queued behind what is queued already, and changes nothing else. A
/// size that is taken changes nothing but the size.
pub proof fn law_input_is_queued_behind(
    state: SessionModel,
    more: Seq<EventModel>,
    width: u32,
    height: u32,
)
    ensures
        state.with_events(more) == (SessionModel { pending: state.pending + more, ..state }),
        width > 0 && height > 0 ==> state.resized(width, height) == (SessionModel {
            size: (width, height),
            ..state
        }),
{
}

/// What the user types reaches a widget behind all that was queued before: text
/// in place of what is selected there, or at the cursor, and Return as the wish
/// to submit.
pub proof fn law_typing_reaches_the_widget(
    state: SessionModel,
    receiver: widget::Widget,
    text: Seq<char>,
)
    requires
        receiver.is_valid(),
    ensures
        ({
            let before = receiver.after_all(state.pending);
            let after = receiver.after_all(
                state.with_events(events::text_input_events(text)).pending,
            );
            &&& before.is_valid()
            &&& text.len() == 0 ==> after == before
            &&& widget::is_return(text) ==> after == (widget::Widget {
                submitted: before.submitted + 1,
                ..before
            })
            &&& text.len() > 0 && !widget::is_return(text) ==> after.text == before.text.take(
                before.first(),
            ) + text + before.text.skip(before.last()) && after.submitted == before.submitted
        }),
{
    widget::lemma_widget_stays_valid(receiver, state.pending);
    widget::lemma_widget_after_both(receiver, state.pending, events::text_input_events(text));
    widget::law_typed_text_is_entered(receiver.after_all(state.pending), text);
}

/// A widget that shows the editor's text once it has received everything that is
/// queued also shows the text of the native text field once that was read.
pub proof fn law_widget_follows_the_native_field(
    state: SessionModel,
    receiver: widget::Widget,
    text: Seq<char>,
    offsets: Option<(isize, isize)>,
)
    requires
        receiver.is_valid(),
        receiver.after_all(state.pending).text == state.text,
    ensures
        ({
            let after = state.after_proxy_change(Some(text), offsets);
            &&& receiver.after_all(after.pending).text == text
            &&& after.text == text
            &&& receiver.after_all(after.pending).submitted == receiver.after_all(
                state.pending,
            ).submitted
        }),
{
    let replacement = events::text_replacement_events(text);
    widget::lemma_widget_stays_valid(receiver, state.pending);
    widget::lemma_widget_after_both(receiver, state.pending, replacement);
    widget::law_replacement_gives_the_widget_the_text(receiver.after_all(state.pending), text);
}

/// Reading the native text field takes over its text and the selection that it
/// reports, or the cursor behind the text where it reports none. The selection
/// has to reach egui exactly where it or the text is another one, or where it had
/// to already. Nothing else changes, and nothing at all where the field could not
/// be read.
pub proof fn law_reading_is_taken_over(
    state: SessionModel,
    text: Seq<char>,
    offsets: Option<(isize, isize)>,
)
    requires
        text.len() <= usize::MAX,
    ensures
        ({
            let after = state.after_proxy_change(Some(text), offsets);
            let reported = selection::proxy_selection(text, offsets);
            &&& after.text == text
            &&& reported is Some ==> after.selection == reported->0
            &&& reported is None ==> after.selection.start == text.len() && after.selection.end
                == text.len()
            &&& after.keyboard.selection_dirty == (state.keyboard.selection_dirty || after.text
                != state.text || after.selection != state.selection)
            &&& after.keyboard.session_active == state.keyboard.session_active
            &&& after.keyboard.dismiss_requested == state.keyboard.dismiss_requested
            &&& text == state.text ==> after.pending == state.pending
            &&& state.pending.is_prefix_of(after.pending)
            &&& after.size == state.size
            &&& after.has_text_input == state.has_text_input
            &&& after.has_display_link == state.has_display_link
            &&& after.last_pointer == state.last_pointer
        }),
        state.after_proxy_change(None, offsets) == state,
{
}

/// A selection that egui reports with a text becomes the editor's, with exactly
/// the two ends that were reported, the lesser one first. The native text field
/// is told it by the numbers of UTF-16 code units in front of those ends, and the
/// text where it has another one. Only text and selection change.
pub proof fn law_reported_selection_reaches_the_field(
    state: SessionModel,
    reports: Seq<reports::ReportModel>,
    text_at: int,
    selection_at: int,
    text: Seq<char>,
    start: usize,
    end: usize,
)
    requires
        state.has_text_input,
        0 <= text_at < reports.len(),
        reports[text_at].text == Some(text),
        forall|i: int| text_at < i < reports.len() ==> (#[trigger] reports[i]).text is None,
        0 <= selection_at < reports.len(),
        reports[selection_at].text is Some,
        reports[selection_at].selection == Some((start, end)) || reports[selection_at].selection
            == Some((end, start)),
        forall|i: int|
            selection_at < i < reports.len() ==> (#[trigger] reports[i]).text is None
                || reports[i].selection is None,
        start <= end,
    ensures
        ({
            let (after, update) = synced(state, true, reports);
            let first = utf16::encode_utf16(
                if start <= text.len() {
                    text.take(start as int)
                } else {
                    text
                },
            ).len();
            let last = utf16::encode_utf16(
                if end <= text.len() {
                    text.take(end as int)
                } else {
                    text
                },
            ).len();
            &&& after.text == text
            &&& after.selection.start == start
            &&& after.selection.end == end
            &&& after == (SessionModel { text, selection: after.selection, ..state })
            &&& update.selection is Some <==> last <= isize::MAX
            &&& update.selection is Some ==> update.selection == Some(
                (first as isize, last as isize),
            )
            &&& text != state.text ==> update.text == Some(text)
            &&& text == state.text ==> update.text is None
        }),
{
    reports::law_latest_text_wins(reports, text_at);
    reports::law_latest_selection_wins(reports, selection_at, (start, end));
    reports::law_latest_selection_wins(reports, selection_at, (end, start));
    selection::law_control_is_told_code_units(text, start, end);
}

/// A text that egui reports without a selection becomes the editor's. Where the
/// widget gained the focus the cursor goes behind the text, and the native text
/// field is told so; otherwise the selection stays, as far as the text reaches,
/// and the field is told none. It is told the text where it has another one.
pub proof fn law_text_without_selection_reaches_the_field(
    state: SessionModel,
    reports: Seq<reports::ReportModel>,
    text_at: int,
    text: Seq<char>,
)
    requires
        state.has_text_input,
        text.len() <= usize::MAX,
        0 <= text_at < reports.len(),
        reports[text_at].text == Some(text),
        forall|i: int| text_at < i < reports.len() ==> (#[trigger] reports[i]).text is None,
        forall|i: int|
            0 <= i < reports.len() ==> (#[trigger] reports[i]).text is None
                || reports[i].selection is None,
    ensures
        ({
            let (after, update) = synced(state, true, reports);
            let all = utf16::encode_utf16(text).len();
            let gained = exists|i: int|
                0 <= i < reports.len() && (#[trigger] reports[i]).text is Some
                    && reports[i].focus_gained;
            &&& after == (SessionModel { text, selection: after.selection, ..state })
            &&& gained ==> after.selection.start == text.len() && after.selection.end == text.len()
            &&& gained && all <= isize::MAX ==> update.selection == Some(
                (all as isize, all as isize),
            )
            &&& gained && all > isize::MAX ==> update.selection is None
            &&& !gained ==> update.selection is None
            &&& !gained && state.selection.start <= text.len() ==> after.selection.start
                == state.selection.start
            &&& !gained && state.selection.start > text.len() ==> after.selection.start
                == text.len()
            &&& !gained && state.selection.end <= text.len() ==> after.selection.end
                == state.selection.end
            &&& !gained && state.selection.end > text.len() ==> after.selection.end == text.len()
            &&& text != state.text ==> update.text == Some(text)
            &&& text == state.text ==> update.text is None
        }),
{
    reports::law_latest_text_wins(reports, text_at);
    reports::law_latest_selection_wins(reports, 0, (0, 0));
    selection::law_control_is_told_code_units(text, text.len() as usize, text.len() as usize);
    assert(text.take(text.len() as int) =~= text);
}

/// Nothing is taken over from a frame without a native text field, in which no
/// text is being edited, or in which no report has a text.
pub proof fn law_other_frames_are_passed_over(
    state: SessionModel,
    text_is_edited: bool,
    reports: Seq<reports::ReportModel>,
)
    requires
        !state.has_text_input || !text_is_edited || forall|i: int|
            0 <= i < reports.len() ==> (#[trigger] reports[i]).text is None,
    ensures
        synced(state, text_is_edited, reports).0 == state,
        synced(state, text_is_edited, reports).1.text is None,
        synced(state, text_is_edited, reports).1.selection is None,
{
    reports::law_latest_text_wins(reports, 0);
}

/// In a session that is well formed the selection is in order, and no key is down
/// once everything that is queued was received.
pub proof fn law_well_formed_sessions_hold_no_key(state: SessionModel)
    requires
        state.well_formed(),
    ensures
        state.selection.start <= state.selection.end,
        widget::keys_down(state.pending) == Set::<Key>::empty(),
{
    widget::law_released_keys_are_up(state.pending);
}

/// Taking over an edit leaves the session with the text that was edited and, where
/// egui reported a selection within that text, with exactly that one. The native
/// text field is told the numbers of UTF-16 code units in front of its ends, and
/// the text where it had another one. Nothing else changes.
pub proof fn law_taken_edit_reaches_both_sides(
    session: &mut EditorSession,
    edited: EditedText,
    chosen: NativeTextSelection,
    update: ProxyUpdate,
)
    requires
        call_ensures(EditorSession::take_edit, (session, Some(edited)), update),
        edited.selection == Some(chosen),
        chosen.start <= chosen.end <= edited.text@.len(),
        utf16::encode_utf16(edited.text@.take(chosen.end as int)).len() <= isize::MAX,
    ensures
        final(session).native_text@ == edited.text@,
        final(session).native_selection.start == chosen.start,
        final(session).native_selection.end == chosen.end,
        update.selection == Some(
            (
                utf16::encode_utf16(edited.text@.take(chosen.start as int)).len() as isize,
                utf16::encode_utf16(edited.text@.take(chosen.end as int)).len() as isize,
            ),
        ),
        update.text is Some <==> old(session).native_text@ != edited.text@,
        update.text matches Some(told) ==> told@ == edited.text@,
        final(session)@ == (SessionModel {
            text: edited.text@,
            selection: chosen,
            ..old(session)@
        }),
{
    selection::law_control_is_told_code_units(edited.text@, chosen.start, chosen.end);
    law_models_show_the_fields(*old(session), update);
    law_models_show_the_fields(*final(session), update);
}

/// Without an edit nothing changes, and the native text field is told nothing.
pub proof fn law_no_edit_reaches_nothing(session: &mut EditorSession, update: ProxyUpdate)
    requires
        call_ensures(EditorSession::take_edit, (session, None), update),
    ensures
        final(session)@ == old(session)@,
        update.text is None,
        update.selection is None,
{
    law_models_show_the_fields(*old(session), update);
}

/// A session opens as wide and as high as it is told to, with nothing queued and
/// no text.
pub proof fn law_session_opens_at_its_size(
    width: u32,
    height: u32,
    has_text_input: bool,
    has_display_link: bool,
    last_pointer: egui::Pos2,
    session: EditorSession,
)
    requires
        call_ensures(
            EditorSession::new,
            ((width, height), has_text_input, has_display_link, last_pointer),
            session,
        ),
    ensures
        session.logical_w == width,
        session.logical_h == height,
        session.has_text_input == has_text_input,
        session.has_display_link == has_display_link,
        session.pending_events@.len() == 0,
        session.native_text@.len() == 0,
{
    assert(events::models(session.pending_events@).len() == session.pending_events@.len());
}

/// A session is as wide and as high as the last size that it was given and that
/// is not zero. It says that its size changed exactly where it did, and nothing
/// else changes.
pub proof fn law_session_has_the_last_size(
    session: &mut EditorSession,
    width: u32,
    height: u32,
    changed: bool,
)
    requires
        call_ensures(EditorSession::resize_inner, (session, width, height), changed),
    ensures
        width > 0 && height > 0 ==> final(session).logical_w == width,
        width > 0 && height > 0 ==> final(session).logical_h == height,
        width == 0 || height == 0 ==> final(session)@ == old(session)@,
        changed == (old(session).logical_w != final(session).logical_w
            || old(session).logical_h != final(session).logical_h),
        final(session)@ == (SessionModel { size: final(session)@.size, ..old(session)@ }),
{
}

/// Text that the user types reaches a widget behind all that is queued, in place
/// of what is selected there, or at the cursor; Return submits. Only the queue
/// changes.
pub proof fn law_inserted_text_reaches_the_widget(
    session: &mut EditorSession,
    string: NativeString,
    typed: Seq<char>,
    receiver: widget::Widget,
    result: (),
)
    requires
        call_ensures(EditorSession::insert_text, (session, &string), result),
        string matches NativeString::Bytes(bytes) && bytes@ == vstd::utf8::encode_utf8(typed),
        receiver.is_valid(),
    ensures
        ({
            let before = receiver.after_all(old(session)@.pending);
            let after = receiver.after_all(final(session)@.pending);
            &&& typed.len() > 0 && !widget::is_return(typed) ==> after.text == before.text.take(
                before.first(),
            ) + typed + before.text.skip(before.last())
            &&& typed.len() > 0 && !widget::is_return(typed) ==> after.submitted
                == before.submitted
            &&& widget::is_return(typed) ==> after.text == before.text
            &&& widget::is_return(typed) ==> after.submitted == before.submitted + 1
            &&& typed.len() == 0 ==> after == before
        }),
        final(session)@ == (SessionModel { pending: final(session)@.pending, ..old(session)@ }),
{
    text::law_bytes_are_read_as_their_text(typed, string->Bytes_0);
    law_typing_reaches_the_widget(old(session)@, receiver, typed);
}

/// Backspace deletes what is selected in a widget that has received all that is
/// queued, or else the character in front of its cursor. Only the queue changes.
pub proof fn law_backspace_reaches_the_widget(
    session: &mut EditorSession,
    receiver: widget::Widget,
    result: (),
)
    requires
        call_ensures(EditorSession::delete_backward, (session,), result),
        receiver.is_valid(),
    ensures
        ({
            let before = receiver.after_all(old(session)@.pending);
            let after = receiver.after_all(final(session)@.pending);
            &&& before.cursor != before.anchor ==> after.text == before.text.take(before.first())
                + before.text.skip(before.last())
            &&& before.cursor == before.anchor && before.cursor > 0 ==> after.text
                == before.text.remove(before.cursor - 1)
            &&& before.cursor == before.anchor && before.cursor == 0 ==> after == before
            &&& after.submitted == before.submitted
        }),
        final(session)@ == (SessionModel { pending: final(session)@.pending, ..old(session)@ }),
{
    let queued = old(session)@.pending;
    widget::lemma_widget_stays_valid(receiver, queued);
    widget::lemma_widget_after_both(
        receiver,
        queued,
        events::key_tap(Key::Backspace, Modifiers::none()),
    );
    widget::law_taps_delete_and_submit(receiver.after_all(queued));
}

/// Return on the native text field submits once, enters nothing, and asks for the
/// end of the input.
pub proof fn law_return_reaches_the_widget(
    session: &mut EditorSession,
    receiver: widget::Widget,
    result: (),
)
    requires
        call_ensures(EditorSession::text_field_return, (session,), result),
        receiver.is_valid(),
    ensures
        ({
            let before = receiver.after_all(old(session)@.pending);
            let after = receiver.after_all(final(session)@.pending);
            after == (widget::Widget { submitted: before.submitted + 1, ..before })
        }),
        final(session).keyboard.dismiss_requested,
        final(session).keyboard.session_active == old(session).keyboard.session_active,
        final(session).keyboard.selection_dirty == old(session).keyboard.selection_dirty,
        final(session)@ == (SessionModel {
            pending: final(session)@.pending,
            keyboard: final(session)@.keyboard,
            ..old(session)@
        }),
{
    let queued = old(session)@.pending;
    widget::lemma_widget_stays_valid(receiver, queued);
    widget::lemma_widget_after_both(
        receiver,
        queued,
        events::key_tap(Key::Enter, Modifiers::none()),
    );
    widget::law_taps_delete_and_submit(receiver.after_all(queued));
}

/// A touch is queued behind all that is queued, and drags the pointer to where it
/// is, which the session remembers. Nothing else changes.
pub proof fn law_dispatched_touch_drags_the_pointer(
    session: &mut EditorSession,
    pos: egui::Pos2,
    phase: TouchPhase,
    pointer: widget::Pointer,
    result: (),
)
    requires
        call_ensures(EditorSession::dispatch_touch, (session, pos, phase), result),
    ensures
        ({
            let queued = old(session)@.pending;
            let after = final(session)@.pending;
            &&& queued.is_prefix_of(after)
            &&& widget::is_dragged(
                pointer,
                pointer.after_all(after.skip(queued.len() as int)),
                pos,
                phase,
            )
        }),
        final(session).last_pointer == pos,
        final(session)@ == (SessionModel {
            pending: final(session)@.pending,
            last_pointer: pos,
            ..old(session)@
        }),
{
    let receiver = widget::Widget { text: Seq::empty(), cursor: 0, anchor: 0, submitted: 0 };
    widget::law_touch_drags_the_pointer(pointer, pos, receiver);
    assert(final(session)@.pending.skip(old(session)@.pending.len() as int)
        =~= events::touch_events(pos, phase));
}

/// Reading the native text field gives the session its text, and a widget that
/// was in step before is in step again once it has received what is queued. A
/// text that the session has already is not queued.
pub proof fn law_native_text_reaches_the_widget(
    session: &mut EditorSession,
    reading: ProxyReading,
    typed: Seq<char>,
    receiver: widget::Widget,
    result: (),
)
    requires
        call_ensures(EditorSession::queue_native_proxy_change, (session, &reading), result),
        reading.text matches NativeString::Bytes(bytes) && bytes@ == vstd::utf8::encode_utf8(typed),
        receiver.is_valid(),
        receiver.after_all(old(session)@.pending).text == old(session).native_text@,
    ensures
        final(session).native_text@ == typed,
        receiver.after_all(final(session)@.pending).text == typed,
        typed == old(session).native_text@ ==> final(session)@.pending == old(session)@.pending,
{
    text::law_field_has_the_text_of_its_bytes(typed, reading.text->Bytes_0);
    law_widget_follows_the_native_field(old(session)@, receiver, typed, reading.offsets);
}

/// What is queued is handed over whole and once, and whether egui still has to be
/// given the selection is only decided by whether it took it.
pub proof fn law_queue_and_selection_are_handed_over(
    session: &mut EditorSession,
    taken: Vec<Event>,
)
    requires
        call_ensures(EditorSession::take_pending_events, (session,), taken),
    ensures
        events::models(taken@) == old(session)@.pending,
        final(session).pending_events@.len() == 0,
        final(session)@ == (SessionModel { pending: final(session)@.pending, ..old(session)@ }),
{
    assert(final(session)@.pending.len() == final(session).pending_events@.len());
}

/// egui's widget is offered the session's selection exactly while it has not
/// taken it, and a display link that is there is told exactly what it is to do.
pub proof fn law_selection_is_offered_while_unseen(
    session: EditorSession,
    offered: Option<NativeTextSelection>,
    paused: bool,
    request: Option<bool>,
)
    requires
        call_ensures(EditorSession::selection_to_apply, (&session,), offered),
        call_ensures(EditorSession::display_link_request, (&session, paused), request),
    ensures
        offered is Some <==> session.keyboard.selection_dirty,
        offered matches Some(selection) ==> selection == session.native_selection,
        request is Some <==> session.has_display_link,
        request matches Some(told) ==> told == paused,
{
}

/// A selection that was taken is offered no longer, and one that was not taken
/// still is; nothing else changes.
pub proof fn law_taken_selection_is_offered_no_longer(
    session: &mut EditorSession,
    applied: bool,
    result: (),
)
    requires
        call_ensures(EditorSession::selection_applied, (session, applied), result),
    ensures
        applied ==> !final(session).keyboard.selection_dirty,
        !applied ==> final(session)@ == old(session)@,
        final(session).keyboard.session_active == old(session).keyboard.session_active,
        final(session).keyboard.dismiss_requested == old(session).keyboard.dismiss_requested,
        final(session)@ == (SessionModel {
            keyboard: final(session)@.keyboard,
            ..old(session)@
        }),
{
}

} // verus!
