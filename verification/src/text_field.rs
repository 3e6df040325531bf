//! The selection of egui's focused text widget, and its focus.

use crate::selection::NativeTextSelection;
use vstd::prelude::*;

verus! {

/// egui's handle to its shared state.
#[verifier::external_type_specification]
#[verifier::external_body]
pub struct ExContext(egui::Context);

/// The identity of a widget of egui.
#[verifier::external_type_specification]
#[verifier::external_body]
pub struct ExId(egui::Id);

/// What egui remembers from frame to frame.
#[verifier::external_type_specification]
#[verifier::external_body]
pub struct ExMemory(egui::Memory);

/// What egui remembers of a text widget.
#[verifier::external_type_specification]
#[verifier::external_body]
pub struct ExTextEditState(egui::widgets::text_edit::TextEditState);

/// The character positions of a text widget's selection: of the end that moves,
/// and of the end that stays.
pub uninterp spec fn cursor_range(state: egui::widgets::text_edit::TextEditState) -> Option<
    (usize, usize),
>;

/// What a text widget's state holds beside its selection: the state that is left
/// when the selection is taken out.
pub uninterp spec fn without_cursor(
    state: egui::widgets::text_edit::TextEditState,
) -> egui::widgets::text_edit::TextEditState;

/// A text widget's state with another selection, given by the end that stays and
/// the end that moves.
pub uninterp spec fn with_char_range(
    state: egui::widgets::text_edit::TextEditState,
    anchor: usize,
    moving: usize,
) -> egui::widgets::text_edit::TextEditState;

/// The widget that has the keyboard focus.
pub uninterp spec fn focused_widget(memory: egui::Memory) -> Option<egui::Id>;

/// The text widgets that egui remembers, each with its state.
pub uninterp spec fn text_states(memory: egui::Memory) -> Map<
    egui::Id,
    egui::widgets::text_edit::TextEditState,
>;

/// The text widget that has the keyboard focus; nothing where no widget has it,
/// or one that holds no text.
pub open spec fn focused_text_widget(memory: egui::Memory) -> Option<egui::Id> {
    match focused_widget(memory) {
        Some(id) => if text_states(memory).contains_key(id) {
            Some(id)
        } else {
            None
        },
        None => None,
    }
}

/// A text widget's state was given a selection: it has the selection in order,
/// with the cursor at its end, and everything else in it is as it was.
pub open spec fn state_selected(
    before: egui::widgets::text_edit::TextEditState,
    after: egui::widgets::text_edit::TextEditState,
    selection: NativeTextSelection,
) -> bool {
    let ordered = selection.in_order();
    &&& after == with_char_range(before, ordered.start, ordered.end)
    &&& cursor_range(after) == Some((ordered.end, ordered.start))
    &&& without_cursor(after) == without_cursor(before)
}

/// What becomes of egui's memory, and what is answered, when the text widget
/// that has the focus is given a selection: only the selection of that widget
/// changes. No other text widget changes, nor does the focus. Without such a
/// widget nothing changes at all.
pub open spec fn selection_given(
    before: egui::Memory,
    after: egui::Memory,
    selection: NativeTextSelection,
    given: bool,
) -> bool {
    &&& given == (focused_text_widget(before) is Some)
    &&& focused_widget(after) == focused_widget(before)
    &&& match focused_text_widget(before) {
        Some(id) => {
            let state = text_states(after)[id];
            &&& state_selected(text_states(before)[id], state, selection)
            &&& text_states(after) == text_states(before).insert(id, state)
        },
        None => text_states(after) == text_states(before),
    }
}

/// `egui::Memory::focused`: the widget that has the keyboard focus.
#[verifier::external_body]
fn focused(memory: &egui::Memory) -> (id: Option<egui::Id>)
    ensures
        id == focused_widget(*memory),
{
    memory.focused()
}

/// `egui::Memory::surrender_focus`: takes the keyboard focus from a widget that
/// has it, and leaves the focus of any other widget alone. What is remembered of
/// the text widgets stays.
#[verifier::external_body]
fn surrender_focus(memory: &mut egui::Memory, id: egui::Id)
    ensures
        focused_widget(*final(memory)) == if focused_widget(*old(memory)) == Some(id) {
            None
        } else {
            focused_widget(*old(memory))
        },
        text_states(*final(memory)) == text_states(*old(memory)),
{
    memory.surrender_focus(id);
}

/// `egui::text_selection::TextCursorState::set_char_range` on the cursor of a
/// text widget, with a range that `CCursorRange::two` builds from two cursors:
/// the first one stays, the second one moves. Nothing but the selection changes.
#[verifier::external_body]
fn set_char_range(
    state: &mut egui::widgets::text_edit::TextEditState,
    anchor: usize,
    moving: usize,
)
    ensures
        *final(state) == with_char_range(*old(state), anchor, moving),
        cursor_range(*final(state)) == Some((moving, anchor)),
        without_cursor(*final(state)) == without_cursor(*old(state)),
{
    state.cursor.set_char_range(
        Some(
            egui::text::CCursorRange::two(
                egui::text::CCursor::new(anchor),
                egui::text::CCursor::new(moving),
            ),
        ),
    );
}

/// `egui::util::IdTypeMap::get_persisted` on the state of widgets that a memory
/// keeps, which is what `TextEditState::load` reads: a copy of what is
/// remembered of a text widget, if anything is. The memory is borrowed to be
/// changed, but neither what it remembers of text widgets nor the focus changes.
#[verifier::external_body]
fn load_state(memory: &mut egui::Memory, id: egui::Id) -> (state: Option<
    egui::widgets::text_edit::TextEditState,
>)
    ensures
        state == text_states(*old(memory)).get(id),
        text_states(*final(memory)) == text_states(*old(memory)),
        focused_widget(*final(memory)) == focused_widget(*old(memory)),
{
    memory.data.get_persisted(id)
}

/// `egui::util::IdTypeMap::insert_persisted` on the state of widgets that a
/// memory keeps, which is what `TextEditState::store` writes: remembers a text
/// widget's state in place of an earlier one, and leaves every other text
/// widget and the focus alone.
#[verifier::external_body]
fn store_state(
    memory: &mut egui::Memory,
    id: egui::Id,
    state: egui::widgets::text_edit::TextEditState,
)
    ensures
        text_states(*final(memory)) == text_states(*old(memory)).insert(id, state),
        focused_widget(*final(memory)) == focused_widget(*old(memory)),
{
    memory.data.insert_persisted(id, state);
}

/// `egui::Context::request_repaint`: asks for another frame. It takes the lock
/// of the context, which the caller must not hold.
#[verifier::external_body]
fn request_repaint(ctx: &egui::Context) {
    ctx.request_repaint();
}

/// Gives a text widget a selection: the cursor goes to its end, and its start
/// is the end that stays. The rest of its state is kept.
pub fn select(
    state: &mut egui::widgets::text_edit::TextEditState,
    selection: NativeTextSelection,
)
    ensures
        state_selected(*old(state), *final(state), selection),
{
    let selection = selection.normalized();
    set_char_range(state, selection.start, selection.end);
}

/// A text widget's state with a selection; nothing where there is no such
/// widget.
pub fn with_selection(
    state: Option<egui::widgets::text_edit::TextEditState>,
    selection: NativeTextSelection,
) -> (selected: Option<egui::widgets::text_edit::TextEditState>)
    ensures
        selected is Some <==> state is Some,
        state is Some ==> state_selected(state->0, selected->0, selection),
{
    match state {
        Some(state) => {
            let mut selected = state;
            select(&mut selected, selection);
            Some(selected)
        },
        None => None,
    }
}

/// Gives the text widget that has the focus a selection. The result says whether
/// there is such a widget.
pub fn select_focused(memory: &mut egui::Memory, selection: NativeTextSelection) -> (given: bool)
    ensures
        selection_given(*old(memory), *final(memory), selection, given),
{
    let id = match focused(memory) {
        Some(id) => id,
        None => {
            return false;
        },
    };
    let state = load_state(memory, id);
    match with_selection(state, selection) {
        Some(state) => {
            store_state(memory, id, state);
            true
        },
        None => false,
    }
}

/// `egui::Context::memory_mut`, which lends out the memory of the context once,
/// to [`select_focused`], and hands on its answer: that answer was given for some
/// memory, and that memory became what `select_focused` makes of it. The context
/// is shared, and any holder of it may change its memory at any time, so it is
/// left unsaid which memory that was, and that the context still holds what it
/// became. The call takes the lock of the context, which the caller must not
/// hold.
#[verifier::external_body]
fn select_focused_in(ctx: &egui::Context, selection: NativeTextSelection) -> (given: bool)
    ensures
        exists|before: egui::Memory, after: egui::Memory| #[trigger]
            selection_given(before, after, selection, given),
{
    ctx.memory_mut(|memory| select_focused(memory, selection))
}

/// Gives the native selection to the text widget that has the focus, without
/// replaying any keys, and asks for another frame if there is such a widget. The
/// result says whether there is one, in the memory that the context lent out for
/// this; which memory that was rests with the shared context. Not to be called
/// from within a closure that the context has lent its state to: that one holds
/// its lock.
pub fn apply_native_selection_to_focused_text_edit(
    ctx: &egui::Context,
    selection: NativeTextSelection,
) -> (applied: bool)
    ensures
        exists|before: egui::Memory, after: egui::Memory| #[trigger]
            selection_given(before, after, selection, applied),
{
    let applied = select_focused_in(ctx, selection);
    if applied {
        request_repaint(ctx);
    }
    applied
}

/// Takes the keyboard focus from whichever widget has it. The text widgets keep
/// their state.
pub fn surrender_focused(memory: &mut egui::Memory)
    ensures
        focused_widget(*final(memory)) is None,
        text_states(*final(memory)) == text_states(*old(memory)),
        focused_widget(*old(memory)) is None ==> *final(memory) == *old(memory),
{
    if let Some(id) = focused(memory) {
        surrender_focus(memory, id);
    }
}

/// It does not matter from which end a selection is given: both leave the same
/// text widgets in the same states, and the same focus.
pub proof fn law_ends_of_a_selection_may_be_swapped(
    before: egui::Memory,
    after: egui::Memory,
    swapped: egui::Memory,
    start: usize,
    end: usize,
    given: bool,
    given_swapped: bool,
)
    requires
        selection_given(before, after, NativeTextSelection { start, end }, given),
        selection_given(
            before,
            swapped,
            NativeTextSelection { start: end, end: start },
            given_swapped,
        ),
    ensures
        given_swapped == given,
        text_states(swapped) == text_states(after),
        focused_widget(swapped) == focused_widget(after),
{
}

/// Whether the selection was given is whether the widget that has the focus is a
/// text widget that is remembered. That widget then has the cursor at the greater
/// end and the lesser one as the end that stays, keeps the rest of its state, and
/// still has the focus. No other text widget changes, appears or goes.
pub proof fn law_focused_widget_is_given_the_ends(
    before: egui::Memory,
    after: egui::Memory,
    selection: NativeTextSelection,
    given: bool,
    id: egui::Id,
)
    requires
        selection_given(before, after, selection, given),
    ensures
        focused_widget(after) == focused_widget(before),
        focused_widget(before) == Some(id) ==> given == text_states(before).contains_key(id),
        focused_widget(before) is None ==> !given,
        text_states(after).contains_key(id) <==> text_states(before).contains_key(id),
        text_states(before).contains_key(id) && focused_widget(before) != Some(id) ==> text_states(
            after,
        )[id] == text_states(before)[id],
        text_states(before).contains_key(id) && focused_widget(before) == Some(id) ==> ({
            let state = text_states(after)[id];
            &&& without_cursor(state) == without_cursor(text_states(before)[id])
            &&& selection.start <= selection.end ==> cursor_range(state) == Some(
                (selection.end, selection.start),
            )
            &&& selection.start >= selection.end ==> cursor_range(state) == Some(
                (selection.start, selection.end),
            )
        }),
{
}

/// The same of the state of one text widget.
pub proof fn law_state_is_given_the_ends(
    before: egui::widgets::text_edit::TextEditState,
    after: egui::widgets::text_edit::TextEditState,
    selection: NativeTextSelection,
)
    requires
        state_selected(before, after, selection),
    ensures
        without_cursor(after) == without_cursor(before),
        selection.start <= selection.end ==> cursor_range(after) == Some(
            (selection.end, selection.start),
        ),
        selection.start >= selection.end ==> cursor_range(after) == Some(
            (selection.start, selection.end),
        ),
{
}

/// A text widget's state that is given a selection has the cursor at the greater
/// end and the lesser one as the end that stays, and keeps the rest; there is one
/// exactly where there was one.
pub proof fn law_selected_state_has_the_ends(
    state: Option<egui::widgets::text_edit::TextEditState>,
    selection: NativeTextSelection,
    selected: Option<egui::widgets::text_edit::TextEditState>,
)
    requires
        call_ensures(with_selection, (state, selection), selected),
    ensures
        selected is Some <==> state is Some,
        state is Some ==> without_cursor(selected->0) == without_cursor(state->0),
        state is Some && selection.start <= selection.end ==> cursor_range(selected->0) == Some(
            (selection.end, selection.start),
        ),
        state is Some && selection.start >= selection.end ==> cursor_range(selected->0) == Some(
            (selection.start, selection.end),
        ),
{
    if state is Some {
        law_state_is_given_the_ends(state->0, selected->0, selection);
    }
}

/// Giving the selection to the focused widget does what it says of egui's memory.
pub proof fn law_selecting_gives_the_ends(
    memory: &mut egui::Memory,
    selection: NativeTextSelection,
    given: bool,
    id: egui::Id,
)
    requires
        call_ensures(select_focused, (memory, selection), given),
        focused_widget(*old(memory)) == Some(id),
    ensures
        given == text_states(*old(memory)).contains_key(id),
        focused_widget(*final(memory)) == Some(id),
        given ==> without_cursor(text_states(*final(memory))[id]) == without_cursor(
            text_states(*old(memory))[id],
        ),
        given && selection.start <= selection.end ==> cursor_range(text_states(*final(memory))[id])
            == Some((selection.end, selection.start)),
        given && selection.start >= selection.end ==> cursor_range(text_states(*final(memory))[id])
            == Some((selection.start, selection.end)),
{
    law_focused_widget_is_given_the_ends(*old(memory), *final(memory), selection, given, id);
}

/// Surrendering the focus leaves no widget with it, and every text widget as it
/// was.
pub proof fn law_surrendered_focus_is_gone(memory: &mut egui::Memory, result: ())
    requires
        call_ensures(surrender_focused, (memory,), result),
    ensures
        focused_widget(*final(memory)) is None,
        text_states(*final(memory)) == text_states(*old(memory)),
{
}

} // verus!
