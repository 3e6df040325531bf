//! What the receiver of the queued events makes of them: a text widget, a
//! pointer, and the keys that are down. The events of the editor are described
//! by the effect that they have there.

use crate::events;
use crate::events::{EventModel, Key, Modifiers, TouchPhase};
use vstd::prelude::*;

verus! {

/// A text widget that has the focus. What lies between its cursor and the end of
/// the selection that stays is selected.
#[verifier::ext_equal]
pub struct Widget {
    pub text: Seq<char>,
    pub cursor: int,
    pub anchor: int,
    /// How often Enter was pressed.
    pub submitted: nat,
}

impl Widget {
    /// Both ends of the selection lie within the text.
    pub open spec fn is_valid(self) -> bool {
        &&& 0 <= self.cursor <= self.text.len()
        &&& 0 <= self.anchor <= self.text.len()
    }

    /// The lesser end of the selection.
    pub open spec fn first(self) -> int {
        if self.cursor <= self.anchor {
            self.cursor
        } else {
            self.anchor
        }
    }

    /// The greater end of the selection.
    pub open spec fn last(self) -> int {
        if self.cursor <= self.anchor {
            self.anchor
        } else {
            self.cursor
        }
    }

    /// The widget with a text in place of what lies between two positions, and
    /// the cursor behind it.
    pub open spec fn with_text_between(self, first: int, last: int, text: Seq<char>) -> Self {
        Widget {
            text: self.text.take(first) + text + self.text.skip(last),
            cursor: first + text.len(),
            anchor: first + text.len(),
            ..self
        }
    }

    /// The widget after a plain tap on Backspace: without what is selected, or
    /// else without the character in front of the cursor.
    pub open spec fn after_backspace(self) -> Self {
        if self.first() < self.last() {
            self.with_text_between(self.first(), self.last(), Seq::empty())
        } else if self.cursor > 0 {
            self.with_text_between(self.cursor - 1, self.cursor, Seq::empty())
        } else {
            self
        }
    }

    /// The widget after an event. Text takes the place of what is selected, or
    /// is inserted at the cursor. A key acts when it goes down: with the command
    /// key A selects everything, Backspace by itself deletes, and Enter by itself
    /// submits.
    pub open spec fn after(self, event: EventModel) -> Self {
        match event {
            EventModel::Text(text) => self.with_text_between(self.first(), self.last(), text),
            EventModel::Key { key, pressed, modifiers, .. } => if !pressed {
                self
            } else {
                match key {
                    Key::A => if modifiers.command {
                        Widget { anchor: 0, cursor: self.text.len() as int, ..self }
                    } else {
                        self
                    },
                    Key::Backspace => if is_plain(modifiers) {
                        self.after_backspace()
                    } else {
                        self
                    },
                    Key::Enter => if is_plain(modifiers) {
                        Widget { submitted: self.submitted + 1, ..self }
                    } else {
                        self
                    },
                }
            },
            _ => self,
        }
    }

    /// The widget after some events.
    pub open spec fn after_all(self, events: Seq<EventModel>) -> Self
        decreases events.len(),
    {
        if events.len() == 0 {
            self
        } else {
            self.after_all(events.drop_last()).after(events.last())
        }
    }
}

/// No modifier key is down.
pub open spec fn is_plain(modifiers: Modifiers) -> bool {
    !modifiers.alt && !modifiers.ctrl && !modifiers.shift && !modifiers.mac_cmd
        && !modifiers.command
}

/// A text is what the Return key of a keyboard enters.
pub open spec fn is_return(text: Seq<char>) -> bool {
    ||| text.len() == 1 && (text[0] == '\n' || text[0] == '\r')
    ||| text.len() == 2 && text[0] == '\r' && text[1] == '\n'
}

/// Some events after some others.
pub proof fn lemma_widget_after_both(widget: Widget, a: Seq<EventModel>, b: Seq<EventModel>)
    ensures
        widget.after_all(a + b) == widget.after_all(a).after_all(b),
    decreases b.len(),
{
    if b.len() == 0 {
        assert(a + b =~= a);
    } else {
        lemma_widget_after_both(widget, a, b.drop_last());
        assert((a + b).drop_last() =~= a + b.drop_last());
    }
}

/// Two events, one after the other.
proof fn lemma_widget_after_two(widget: Widget, events: Seq<EventModel>)
    requires
        events.len() == 2,
    ensures
        widget.after_all(events) == widget.after(events[0]).after(events[1]),
{
    reveal_with_fuel(Widget::after_all, 3);
}

/// One event.
proof fn lemma_widget_after_one(widget: Widget, event: EventModel)
    ensures
        widget.after_all(seq![event]) == widget.after(event),
{
    reveal_with_fuel(Widget::after_all, 2);
    assert(seq![event].drop_last() =~= Seq::empty());
}

/// Whatever a text widget holds and wherever its cursor is, the replacement of
/// its value gives it exactly the new text, with the cursor behind it. Nothing is
/// submitted.
pub proof fn law_replacement_gives_the_widget_the_text(widget: Widget, text: Seq<char>)
    requires
        widget.is_valid(),
    ensures
        ({
            let after = widget.after_all(events::text_replacement_events(text));
            &&& after.text == text
            &&& after.cursor == text.len()
            &&& after.anchor == text.len()
            &&& after.submitted == widget.submitted
        }),
{
    let all = events::text_replacement_events(text);
    let select = all.take(2);
    let rest = all.skip(2);
    assert(all =~= select + rest);
    lemma_widget_after_both(widget, select, rest);
    lemma_widget_after_two(widget, select);
    let selected = widget.after_all(select);
    assert(selected.text.take(0) =~= Seq::empty());
    assert(selected.text.skip(selected.text.len() as int) =~= Seq::empty());
    if text.len() == 0 {
        lemma_widget_after_two(selected, rest);
        assert(widget.after_all(all).text =~= text);
    } else {
        assert(rest =~= seq![EventModel::Text(text)]);
        lemma_widget_after_one(selected, EventModel::Text(text));
        assert(widget.after_all(all).text =~= text);
    }
}

/// Typed text takes the place of what is selected, or is inserted at the cursor,
/// with exactly its characters. Return submits once and enters nothing. No text
/// does nothing.
pub proof fn law_typed_text_is_entered(widget: Widget, text: Seq<char>)
    requires
        widget.is_valid(),
    ensures
        ({
            let after = widget.after_all(events::text_input_events(text));
            &&& text.len() == 0 ==> after == widget
            &&& is_return(text) ==> after == (Widget { submitted: widget.submitted + 1, ..widget })
            &&& text.len() > 0 && !is_return(text) ==> {
                &&& after.text == widget.text.take(widget.first()) + text + widget.text.skip(
                    widget.last(),
                )
                &&& after.cursor == widget.first() + text.len()
                &&& after.anchor == after.cursor
                &&& after.submitted == widget.submitted
            }
        }),
{
    let all = events::text_input_events(text);
    lemma_return_is_a_line_break(text);
    if is_return(text) {
        lemma_widget_after_two(widget, all);
    } else if text.len() > 0 {
        lemma_widget_after_one(widget, EventModel::Text(text));
    }
}

/// The texts that Return enters are the line breaks.
proof fn lemma_return_is_a_line_break(text: Seq<char>)
    ensures
        is_return(text) <==> events::is_line_break(text),
{
    if text.len() == 1 && text[0] == '\n' {
        assert(text =~= seq!['\n']);
    }
    if text.len() == 1 && text[0] == '\r' {
        assert(text =~= seq!['\r']);
    }
    if text.len() == 2 && text[0] == '\r' && text[1] == '\n' {
        assert(text =~= seq!['\r', '\n']);
    }
}

/// A text with any character that does not break a line becomes one text event
/// with exactly that text. Keys are only ever tapped for the three texts of the
/// Return key, and then it is Enter.
pub proof fn law_only_return_becomes_a_key(text: Seq<char>)
    ensures
        (exists|i: int| 0 <= i < text.len() && #[trigger] text[i] != '\n' && text[i] != '\r')
            ==> events::text_input_events(text) == seq![EventModel::Text(text)],
        (exists|i: int|
            0 <= i < events::text_input_events(text).len() && (
            #[trigger] events::text_input_events(text)[i]) is Key) <==> is_return(text),
        forall|i: int|
            0 <= i < events::text_input_events(text).len() ==> match (
            #[trigger] events::text_input_events(text)[i]) {
                EventModel::Text(entered) => entered == text,
                EventModel::Key { key, .. } => key == Key::Enter,
                _ => false,
            },
{
    lemma_return_is_a_line_break(text);
    if is_return(text) {
        assert(events::text_input_events(text)[0] is Key);
    }
}

/// A tap on Backspace deletes what is selected, or else the character in front of
/// the cursor; a tap on Enter submits once. No other key is tapped by itself.
pub proof fn law_taps_delete_and_submit(widget: Widget)
    requires
        widget.is_valid(),
    ensures
        ({
            let after = widget.after_all(events::key_tap(Key::Backspace, Modifiers::none()));
            &&& widget.cursor != widget.anchor ==> after.text == widget.text.take(widget.first())
                + widget.text.skip(widget.last()) && after.cursor == widget.first()
            &&& widget.cursor == widget.anchor && widget.cursor > 0 ==> after.text
                == widget.text.remove(widget.cursor - 1) && after.cursor == widget.cursor - 1
            &&& widget.cursor == widget.anchor && widget.cursor == 0 ==> after == widget
            &&& after.submitted == widget.submitted
        }),
        widget.after_all(events::key_tap(Key::Enter, Modifiers::none())) == (Widget {
            submitted: widget.submitted + 1,
            ..widget
        }),
{
    let backspace = events::key_tap(Key::Backspace, Modifiers::none());
    lemma_widget_after_two(widget, backspace);
    lemma_widget_after_two(widget, events::key_tap(Key::Enter, Modifiers::none()));
    let after = widget.after_all(backspace);
    if widget.cursor != widget.anchor {
        assert(after.text =~= widget.text.take(widget.first()) + widget.text.skip(widget.last()));
    } else if widget.cursor > 0 {
        assert(after.text =~= widget.text.remove(widget.cursor - 1));
    }
}

/// An event is what a key does that the editor taps: nothing stands for a
/// physical key or for a repetition, A comes with the command key and no other,
/// and every other key by itself.
pub open spec fn is_synthetic(event: EventModel) -> bool {
    match event {
        EventModel::Key { key, physical_key, repeat, modifiers, .. } => {
            &&& physical_key is None
            &&& !repeat
            &&& !modifiers.alt && !modifiers.ctrl && !modifiers.shift
            &&& key == Key::A ==> modifiers.command && modifiers.mac_cmd
            &&& key != Key::A ==> !modifiers.command && !modifiers.mac_cmd
        },
        EventModel::PrimaryButton { modifiers, .. } => is_plain(modifiers),
        _ => true,
    }
}

/// Every key and button that the editor presses is a synthetic one, and no text
/// is entered but the one that was typed or that is to replace the value.
pub proof fn law_input_is_synthetic(text: Seq<char>, pos: egui::Pos2, phase: TouchPhase, i: int)
    ensures
        0 <= i < events::text_input_events(text).len() ==> is_synthetic(
            events::text_input_events(text)[i],
        ),
        0 <= i < events::text_replacement_events(text).len() ==> is_synthetic(
            events::text_replacement_events(text)[i],
        ) && match events::text_replacement_events(text)[i] {
            EventModel::Text(entered) => entered == text,
            EventModel::Key { .. } => true,
            _ => false,
        },
        0 <= i < events::touch_events(pos, phase).len() ==> is_synthetic(
            events::touch_events(pos, phase)[i],
        ),
        0 <= i < 2 ==> is_synthetic(events::key_tap(Key::Backspace, Modifiers::none())[i])
            && is_synthetic(events::key_tap(Key::Enter, Modifiers::none())[i]),
        text.len() > 0 ==> events::text_replacement_events(text).len() == 3,
        text.len() == 0 ==> events::text_replacement_events(text).len() == 4,
{
}

/// The keys that are down after some events, where none was before.
pub open spec fn keys_down(events: Seq<EventModel>) -> Set<Key>
    decreases events.len(),
{
    if events.len() == 0 {
        Set::empty()
    } else {
        match events.last() {
            EventModel::Key { key, pressed, .. } => if pressed {
                keys_down(events.drop_last()).insert(key)
            } else {
                keys_down(events.drop_last()).remove(key)
            },
            _ => keys_down(events.drop_last()),
        }
    }
}

/// A queue in which every key is released leaves no key down: at most the key
/// that was pressed last is down at any moment.
pub proof fn law_released_keys_are_up(events: Seq<EventModel>)
    requires
        events::keys_are_released(events),
    ensures
        keys_down(events) == Set::<Key>::empty(),
{
    lemma_keys_down(events, events.len() as int);
    assert(events.take(events.len() as int) =~= events);
    if events.len() > 0 && events::is_press(events.last()) {
        assert(events::is_press(events[events.len() - 1]));
    }
}

/// The keys that are down after a prefix of such a queue.
proof fn lemma_keys_down(events: Seq<EventModel>, n: int)
    requires
        events::keys_are_released(events),
        0 <= n <= events.len(),
    ensures
        n == 0 || !events::is_press(events[n - 1]) ==> keys_down(events.take(n)) == Set::<
            Key,
        >::empty(),
        n > 0 && events::is_press(events[n - 1]) ==> keys_down(events.take(n)) == Set::<
            Key,
        >::empty().insert(events[n - 1]->key),
    decreases n,
{
    if n > 0 {
        lemma_keys_down(events, n - 1);
        assert(events.take(n).drop_last() =~= events.take(n - 1));
        if events::is_press(events[n - 1]) {
            if n > 1 && events::is_press(events[n - 2]) {
                assert(events[n - 2 + 1] == events::released(events[n - 2]));
            }
        } else if events::is_release(events[n - 1]) {
            assert(events::is_press(events[n - 2]));
            assert(events[n - 2 + 1] == events::released(events[n - 2]));
            assert(keys_down(events.take(n)) =~= Set::<Key>::empty());
        } else if n > 1 && events::is_press(events[n - 2]) {
            assert(events[n - 2 + 1] == events::released(events[n - 2]));
        }
    }
}

/// A pointer with one button.
#[verifier::ext_equal]
pub struct Pointer {
    /// Where the pointer is, while it is over the surface.
    pub at: Option<egui::Pos2>,
    pub is_down: bool,
    /// Where the button went down, and where it went up.
    pub presses: Seq<egui::Pos2>,
    pub releases: Seq<egui::Pos2>,
}

impl Pointer {
    /// The pointer after an event. The button only acts where the pointer is.
    pub open spec fn after(self, event: EventModel) -> Self {
        match event {
            EventModel::PointerMoved(pos) => Pointer { at: Some(pos), ..self },
            EventModel::PointerGone => Pointer { at: None, ..self },
            EventModel::PrimaryButton { pos, pressed, .. } => if self.at != Some(pos) {
                self
            } else if pressed {
                Pointer { is_down: true, presses: self.presses.push(pos), ..self }
            } else {
                Pointer { is_down: false, releases: self.releases.push(pos), ..self }
            },
            _ => self,
        }
    }

    /// The pointer after some events.
    pub open spec fn after_all(self, events: Seq<EventModel>) -> Self
        decreases events.len(),
    {
        if events.len() == 0 {
            self
        } else {
            self.after_all(events.drop_last()).after(events.last())
        }
    }
}

/// A touch moves the pointer to where it is. It presses the button there when it
/// begins and releases it there when it ends, and then the pointer is gone; in
/// between the button stays as it is. A touch enters nothing.
pub proof fn law_touch_drags_the_pointer(pointer: Pointer, pos: egui::Pos2, widget: Widget)
    ensures
        pointer.after_all(events::touch_events(pos, TouchPhase::Began)) == (Pointer {
            at: Some(pos),
            is_down: true,
            presses: pointer.presses.push(pos),
            releases: pointer.releases,
        }),
        pointer.after_all(events::touch_events(pos, TouchPhase::Moved)) == (Pointer {
            at: Some(pos),
            is_down: pointer.is_down,
            presses: pointer.presses,
            releases: pointer.releases,
        }),
        pointer.after_all(events::touch_events(pos, TouchPhase::Ended)) == (Pointer {
            at: None,
            is_down: false,
            presses: pointer.presses,
            releases: pointer.releases.push(pos),
        }),
        widget.after_all(events::touch_events(pos, TouchPhase::Began)) == widget,
        widget.after_all(events::touch_events(pos, TouchPhase::Moved)) == widget,
        widget.after_all(events::touch_events(pos, TouchPhase::Ended)) == widget,
        events::touch_events(pos, TouchPhase::Began).len() == 2,
        events::touch_events(pos, TouchPhase::Moved).len() == 1,
        events::touch_events(pos, TouchPhase::Ended).len() == 3,
{
    reveal_with_fuel(Pointer::after_all, 4);
    reveal_with_fuel(Widget::after_all, 4);
}

/// Text and keys leave the pointer alone.
pub proof fn law_text_leaves_the_pointer_alone(pointer: Pointer, text: Seq<char>)
    ensures
        pointer.after_all(events::text_input_events(text)) == pointer,
        pointer.after_all(events::text_replacement_events(text)) == pointer,
        pointer.after_all(events::key_tap(Key::Backspace, Modifiers::none())) == pointer,
        pointer.after_all(events::key_tap(Key::Enter, Modifiers::none())) == pointer,
{
    reveal_with_fuel(Pointer::after_all, 5);
}

/// A widget stays valid, whatever it receives.
pub proof fn lemma_widget_stays_valid(widget: Widget, events: Seq<EventModel>)
    requires
        widget.is_valid(),
    ensures
        widget.after_all(events).is_valid(),
    decreases events.len(),
{
    if events.len() > 0 {
        lemma_widget_stays_valid(widget, events.drop_last());
    }
}

/// The events that are made for a new value give it to any widget.
pub proof fn law_made_replacement_gives_the_text(
    text: &str,
    made: Vec<events::Event>,
    receiver: Widget,
)
    requires
        receiver.is_valid(),
        call_ensures(events::native_text_replacement_events, (text,), made),
    ensures
        receiver.after_all(events::models(made@)).text == text@,
        receiver.after_all(events::models(made@)).submitted == receiver.submitted,
{
    law_replacement_gives_the_widget_the_text(receiver, text@);
}

/// The events that are made for typed text enter it into any widget, and those
/// that are made for Return submit once.
pub proof fn law_made_input_enters_the_text(text: &str, made: Vec<events::Event>, receiver: Widget)
    requires
        receiver.is_valid(),
        call_ensures(events::native_text_input_events, (text,), made),
    ensures
        ({
            let after = receiver.after_all(events::models(made@));
            &&& text@.len() == 0 ==> made@.len() == 0
            &&& is_return(text@) ==> after.text == receiver.text && after.submitted
                == receiver.submitted + 1
            &&& text@.len() > 0 && !is_return(text@) ==> {
                &&& after.text == receiver.text.take(receiver.first()) + text@
                    + receiver.text.skip(receiver.last())
                &&& after.submitted == receiver.submitted
                &&& made@.len() == 1
                &&& made@[0] matches events::Event::Text(entered) && entered@ == text@
            }
        }),
{
    law_typed_text_is_entered(receiver, text@);
    lemma_return_is_a_line_break(text@);
    if made@.len() > 0 {
        events::law_models_say_what_events_say(made@, 0);
    }
    assert(events::models(made@).len() == made@.len());
    if text@.len() > 0 && !is_return(text@) {
        assert(events::models(made@)[0] == EventModel::Text(text@));
    }
}

/// A key that is queued goes down and up behind all that is queued.
pub proof fn law_queued_key_is_tapped(
    queue: &mut Vec<events::Event>,
    key: Key,
    modifiers: Modifiers,
    result: (),
)
    requires
        call_ensures(events::push_key, (queue, key, modifiers), result),
    ensures
        ({
            let before = events::models(old(queue)@);
            let after = events::models(final(queue)@);
            let down = after[before.len() as int];
            let up = after[before.len() as int + 1];
            &&& after.len() == before.len() + 2
            &&& before.is_prefix_of(after)
            &&& down == (EventModel::Key {
                key,
                physical_key: None,
                pressed: true,
                repeat: false,
                modifiers,
            })
            &&& up == (EventModel::Key {
                key,
                physical_key: None,
                pressed: false,
                repeat: false,
                modifiers,
            })
        }),
{
}

/// What a touch becomes is queued behind all that is queued, and drags the pointer
/// to where the touch is, with the button down from its beginning to its end.
pub proof fn law_queued_touch_drags_the_pointer(
    queue: &mut Vec<events::Event>,
    pos: egui::Pos2,
    phase: TouchPhase,
    result: (),
    pointer: Pointer,
)
    requires
        call_ensures(events::push_touch, (queue, pos, phase), result),
    ensures
        ({
            let before = events::models(old(queue)@);
            let after = events::models(final(queue)@);
            &&& before.is_prefix_of(after)
            &&& is_dragged(pointer, pointer.after_all(after.skip(before.len() as int)), pos, phase)
        }),
{
    let receiver = Widget { text: Seq::empty(), cursor: 0, anchor: 0, submitted: 0 };
    law_touch_drags_the_pointer(pointer, pos, receiver);
    let before = events::models(old(queue)@);
    let after = events::models(final(queue)@);
    assert(after.skip(before.len() as int) =~= events::touch_events(pos, phase));
}

/// What a touch makes of a pointer: it is at the touch, until that ends. The
/// button goes down where the touch begins and up where it ends, and stays as it
/// is in between.
pub open spec fn is_dragged(
    before: Pointer,
    after: Pointer,
    pos: egui::Pos2,
    phase: TouchPhase,
) -> bool {
    &&& phase is Ended ==> after.at is None
    &&& !(phase is Ended) ==> after.at == Some(pos)
    &&& after.is_down == (phase is Began || (phase is Moved && before.is_down))
    &&& phase is Began ==> after.presses == before.presses.push(pos)
    &&& !(phase is Began) ==> after.presses == before.presses
    &&& phase is Ended ==> after.releases == before.releases.push(pos)
    &&& !(phase is Ended) ==> after.releases == before.releases
}

} // verus!
