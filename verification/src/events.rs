//! The input events that the editor queues for the next egui frame.

use crate::text::same_text;
use vstd::prelude::*;

verus! {

/// A screen position of egui. The editor hands positions on and never looks
/// inside one.
#[verifier::external_type_specification]
#[verifier::external_body]
pub struct ExPos2(egui::Pos2);

/// The keys that the editor synthesizes.
#[derive(Clone, Copy, Debug, PartialEq, Eq, Structural)]
pub enum Key {
    A,
    Backspace,
    Enter,
}

/// The modifier keys that are down during an event.
#[derive(Clone, Copy, Debug, PartialEq, Eq, Structural)]
pub struct Modifiers {
    pub alt: bool,
    pub ctrl: bool,
    pub shift: bool,
    pub mac_cmd: bool,
    pub command: bool,
}

impl Default for Modifiers {
    /// No modifier key is down.
    fn default() -> (modifiers: Self)
        ensures
            modifiers == Self::none(),
    {
        Modifiers { alt: false, ctrl: false, shift: false, mac_cmd: false, command: false }
    }
}

impl Modifiers {
    /// No modifier key is down.
    pub open spec fn none() -> Self {
        Modifiers { alt: false, ctrl: false, shift: false, mac_cmd: false, command: false }
    }

    /// The command key alone is down.
    pub open spec fn only_command() -> Self {
        Modifiers { mac_cmd: true, command: true, ..Self::none() }
    }
}

/// An input event for egui.
#[derive(Debug, PartialEq)]
pub enum Event {
    /// Text that was entered.
    Text(String),
    /// A key went down or up.
    Key {
        key: Key,
        physical_key: Option<Key>,
        pressed: bool,
        repeat: bool,
        modifiers: Modifiers,
    },
    /// The pointer is somewhere else.
    PointerMoved(egui::Pos2),
    /// The primary button went down or up.
    PrimaryButton { pos: egui::Pos2, pressed: bool, modifiers: Modifiers },
    /// The pointer left the surface.
    PointerGone,
}

/// What an [`Event`] says, with its text as a sequence of characters.
pub enum EventModel {
    Text(Seq<char>),
    Key {
        key: Key,
        physical_key: Option<Key>,
        pressed: bool,
        repeat: bool,
        modifiers: Modifiers,
    },
    PointerMoved(egui::Pos2),
    PrimaryButton { pos: egui::Pos2, pressed: bool, modifiers: Modifiers },
    PointerGone,
}

impl View for Event {
    type V = EventModel;

    open spec fn view(&self) -> EventModel {
        match *self {
            Event::Text(text) => EventModel::Text(text@),
            Event::Key { key, physical_key, pressed, repeat, modifiers } => EventModel::Key {
                key,
                physical_key,
                pressed,
                repeat,
                modifiers,
            },
            Event::PointerMoved(pos) => EventModel::PointerMoved(pos),
            Event::PrimaryButton { pos, pressed, modifiers } => EventModel::PrimaryButton {
                pos,
                pressed,
                modifiers,
            },
            Event::PointerGone => EventModel::PointerGone,
        }
    }
}

/// What a sequence of events says.
pub open spec fn models(events: Seq<Event>) -> Seq<EventModel> {
    events.map_values(|event: Event| event@)
}

/// The stages of a touch.
#[derive(Clone, Copy, Debug, PartialEq, Eq, Structural)]
pub enum TouchPhase {
    Began,
    Moved,
    /// The touch was lifted or was cancelled.
    Ended,
}

/// A key going down or up by itself: no repetition, no physical key behind it.
pub open spec fn key_event(key: Key, pressed: bool, modifiers: Modifiers) -> EventModel {
    EventModel::Key { key, physical_key: None, pressed, repeat: false, modifiers }
}

/// A key going down and up again.
pub open spec fn key_tap(key: Key, modifiers: Modifiers) -> Seq<EventModel> {
    seq![key_event(key, true, modifiers), key_event(key, false, modifiers)]
}

/// The texts that stand for the Return key.
pub open spec fn is_line_break(text: Seq<char>) -> bool {
    text == seq!['\n'] || text == seq!['\r'] || text == seq!['\r', '\n']
}

/// The events that committed text becomes: none for no text, a tap on Enter for
/// a bare line break, and otherwise the text as it is.
pub open spec fn text_input_events(text: Seq<char>) -> Seq<EventModel> {
    if text.len() == 0 {
        Seq::empty()
    } else if is_line_break(text) {
        key_tap(Key::Enter, Modifiers::none())
    } else {
        seq![EventModel::Text(text)]
    }
}

/// The events that replace the whole value of the focused text widget: select
/// everything, then enter the new text over it, or delete it where the new
/// text is empty.
pub open spec fn text_replacement_events(text: Seq<char>) -> Seq<EventModel> {
    key_tap(Key::A, Modifiers::only_command()) + if text.len() == 0 {
        key_tap(Key::Backspace, Modifiers::none())
    } else {
        seq![EventModel::Text(text)]
    }
}

/// The events that a touch becomes. Every stage moves the pointer; the first
/// one presses the primary button, and the last one releases it and takes the
/// pointer away.
pub open spec fn touch_events(pos: egui::Pos2, phase: TouchPhase) -> Seq<EventModel> {
    let moved = EventModel::PointerMoved(pos);
    match phase {
        TouchPhase::Began => seq![
            moved,
            EventModel::PrimaryButton { pos, pressed: true, modifiers: Modifiers::none() },
        ],
        TouchPhase::Moved => seq![moved],
        TouchPhase::Ended => seq![
            moved,
            EventModel::PrimaryButton { pos, pressed: false, modifiers: Modifiers::none() },
            EventModel::PointerGone,
        ],
    }
}

/// Whether a text stands for the Return key.
fn line_break(text: &str) -> (result: bool)
    ensures
        result == is_line_break(text@),
{
    proof {
        reveal_strlit("\n");
        reveal_strlit("\r");
        reveal_strlit("\r\n");
        assert("\n"@ =~= seq!['\n']);
        assert("\r"@ =~= seq!['\r']);
        assert("\r\n"@ =~= seq!['\r', '\n']);
    }
    same_text(text, "\n") || same_text(text, "\r") || same_text(text, "\r\n")
}

/// Queues a key going down and up again.
pub fn push_key(events: &mut Vec<Event>, key: Key, modifiers: Modifiers)
    ensures
        models(final(events)@) == models(old(events)@) + key_tap(key, modifiers),
{
    events.push(
        Event::Key { key, physical_key: None, pressed: true, repeat: false, modifiers },
    );
    events.push(
        Event::Key { key, physical_key: None, pressed: false, repeat: false, modifiers },
    );
    assert(models(events@) =~= models(old(events)@) + key_tap(key, modifiers));
}

/// Translates committed native text into the events that text widgets consume
/// on the next frame.
pub fn native_text_input_events(text: &str) -> (events: Vec<Event>)
    ensures
        models(events@) == text_input_events(text@),
{
    let mut events: Vec<Event> = Vec::new();
    if text.is_empty() {
        assert(models(events@) =~= Seq::empty());
    } else if line_break(text) {
        push_key(&mut events, Key::Enter, Modifiers::default());
        assert(models(events@) =~= text_input_events(text@));
    } else {
        events.push(Event::Text(text.to_owned()));
        assert(models(events@) =~= seq![EventModel::Text(text@)]);
    }
    events
}

/// Translates the whole value of the native text field into the events that
/// give the focused text widget the same value.
pub fn native_text_replacement_events(text: &str) -> (events: Vec<Event>)
    ensures
        models(events@) == text_replacement_events(text@),
{
    let command = Modifiers { alt: false, ctrl: false, shift: false, mac_cmd: true, command: true };
    let mut events: Vec<Event> = Vec::with_capacity(3);
    push_key(&mut events, Key::A, command);
    if text.is_empty() {
        push_key(&mut events, Key::Backspace, Modifiers::default());
    } else {
        events.push(Event::Text(text.to_owned()));
    }
    assert(models(events@) =~= text_replacement_events(text@));
    events
}

/// Queues the events that a touch becomes.
pub fn push_touch(events: &mut Vec<Event>, pos: egui::Pos2, phase: TouchPhase)
    ensures
        models(final(events)@) == models(old(events)@) + touch_events(pos, phase),
{
    events.push(Event::PointerMoved(pos));
    match phase {
        TouchPhase::Began => {
            events.push(
                Event::PrimaryButton { pos, pressed: true, modifiers: Modifiers::default() },
            );
        },
        TouchPhase::Moved => {},
        TouchPhase::Ended => {
            events.push(
                Event::PrimaryButton { pos, pressed: false, modifiers: Modifiers::default() },
            );
            events.push(Event::PointerGone);
        },
    }
    assert(models(events@) =~= models(old(events)@) + touch_events(pos, phase));
}

/// Moves events to the end of a queue, in their order.
pub fn append_events(queue: &mut Vec<Event>, events: Vec<Event>)
    ensures
        final(queue)@ == old(queue)@ + events@,
        models(final(queue)@) == models(old(queue)@) + models(events@),
{
    let mut rest = events;
    queue.append(&mut rest);
    assert(models(queue@) =~= models(old(queue)@) + models(events@));
}

/// Whether an event is a key going down.
pub open spec fn is_press(event: EventModel) -> bool {
    event matches EventModel::Key { pressed, .. } && pressed
}

/// Whether an event is a key going up.
pub open spec fn is_release(event: EventModel) -> bool {
    event matches EventModel::Key { pressed, .. } && !pressed
}

/// The same key event with the key going up.
pub open spec fn released(event: EventModel) -> EventModel {
    match event {
        EventModel::Key { key, physical_key, pressed, repeat, modifiers } => EventModel::Key {
            key,
            physical_key,
            pressed: false,
            repeat,
            modifiers,
        },
        other => other,
    }
}

/// No key stays down: every press is followed at once by the release of the
/// same key, and every release follows its press.
pub open spec fn keys_are_released(events: Seq<EventModel>) -> bool {
    &&& forall|i: int|
        0 <= i < events.len() && is_press(#[trigger] events[i]) ==> i + 1 < events.len()
            && events[i + 1] == released(events[i])
    &&& forall|i: int|
        0 <= i < events.len() && is_release(#[trigger] events[i]) ==> i > 0 && is_press(
            events[i - 1],
        )
}

/// Two queues in which no key stays down make one in which no key does.
pub proof fn lemma_released_keys_append(a: Seq<EventModel>, b: Seq<EventModel>)
    requires
        keys_are_released(a),
        keys_are_released(b),
    ensures
        keys_are_released(a + b),
{
    let all = a + b;
    assert forall|i: int| 0 <= i < all.len() && is_press(#[trigger] all[i]) implies i + 1
        < all.len() && all[i + 1] == released(all[i]) by {
        if i < a.len() {
            assert(is_press(a[i]));
            assert(all[i + 1] == a[i + 1]);
        } else {
            assert(is_press(b[i - a.len()]));
            assert(all[i + 1] == b[i + 1 - a.len()]);
        }
    }
    assert forall|i: int| 0 <= i < all.len() && is_release(#[trigger] all[i]) implies i > 0
        && is_press(all[i - 1]) by {
        if i < a.len() {
            assert(is_release(a[i]));
        } else {
            assert(is_release(b[i - a.len()]));
            assert(all[i - 1] == b[i - 1 - a.len()]);
        }
    }
}

/// Whatever is entered, replaced, deleted or touched, the events of it leave no
/// key down.
pub proof fn law_no_key_stays_down(text: Seq<char>, pos: egui::Pos2, phase: TouchPhase)
    ensures
        keys_are_released(text_input_events(text)),
        keys_are_released(text_replacement_events(text)),
        keys_are_released(key_tap(Key::Backspace, Modifiers::none())),
        keys_are_released(touch_events(pos, phase)),
{
}

/// A committed text reaches egui either as one text event with exactly its
/// characters or, being a line break, as a tap on Enter and never as text.
pub proof fn law_text_stays_text(text: Seq<char>)
    ensures
        text.len() > 0 && !is_line_break(text) ==> text_input_events(text)
            == seq![EventModel::Text(text)],
        is_line_break(text) ==> forall|i: int|
            0 <= i < text_input_events(text).len() ==> !((#[trigger] text_input_events(
                text,
            )[i]) is Text),
        text.len() == 0 <==> text_input_events(text).len() == 0,
{
}

/// A model of an event says all that the event says, and a model of a queue holds
/// one for each event, in their order.
pub proof fn law_models_say_what_events_say(queue: Seq<Event>, i: int)
    requires
        0 <= i < queue.len(),
    ensures
        models(queue).len() == queue.len(),
        match queue[i] {
            Event::Text(text) => models(queue)[i] == EventModel::Text(text@),
            Event::Key { key, physical_key, pressed, repeat, modifiers } => models(queue)[i] == (
            EventModel::Key { key, physical_key, pressed, repeat, modifiers }),
            Event::PointerMoved(pos) => models(queue)[i] == EventModel::PointerMoved(pos),
            Event::PrimaryButton { pos, pressed, modifiers } => models(queue)[i] == (
            EventModel::PrimaryButton { pos, pressed, modifiers }),
            Event::PointerGone => models(queue)[i] == EventModel::PointerGone,
        },
{
}

/// A tap is the key going down and then up again, with the same modifiers both
/// times.
pub proof fn law_tap_goes_down_and_up(key: Key, modifiers: Modifiers)
    ensures
        key_tap(key, modifiers).len() == 2,
        key_tap(key, modifiers)[0] == (EventModel::Key {
            key,
            physical_key: None,
            pressed: true,
            repeat: false,
            modifiers,
        }),
        key_tap(key, modifiers)[1] == (EventModel::Key {
            key,
            physical_key: None,
            pressed: false,
            repeat: false,
            modifiers,
        }),
{
}

} // verus!
