//! The native view of an editor: how it is built, when opening it fails, and
//! how it is taken down again without anything left behind.

use crate::editor::EguiEditor;
use crate::lifecycle::IOS_DISPLAY_LINK_FPS;
use vstd::prelude::*;
use vstd::string::StringExecFns;

verus! {

/// The control event of a native text field whose text was edited.
pub const EDITING_CHANGED: usize = 0x20000;

/// The control event of a native text field on which Return was pressed.
pub const EDITING_DID_END_ON_EXIT: usize = 0x80000;

/// The handle that a host hands over for the editor to be opened in.
#[derive(Clone, Copy, Debug, PartialEq, Eq, Structural)]
pub enum ParentHandle {
    /// A view of the right kind, if it is there at all.
    UiKit { is_null: bool },
    /// A handle of another platform.
    Other,
}

/// What happened while an editor was being opened.
#[derive(Clone, Copy, Debug, PartialEq, Eq, Structural)]
pub enum OpenEvent {
    /// The host asked for the editor.
    Requested { parent: ParentHandle },
    /// The view was built, as far as that went.
    Installed { has_view: bool, has_layer: bool },
    /// The renderer was made, or was not.
    RendererMade { made: bool },
}

/// What has to be done next.
#[derive(Clone, Copy, Debug, PartialEq, Eq)]
pub enum OpenAction {
    /// The handle is of another platform: say so, and stop.
    RefuseParent,
    /// There is no view to open the editor in: stop.
    Ignore,
    /// Build the view in this size, in logical points.
    InstallView { size: (u32, u32) },
    /// Make a renderer for the view's layer.
    MakeRenderer,
    /// Opening failed: take down what was built, and stop.
    TearDown,
    /// Start the session.
    Start,
}

/// What has to be done next while an editor of a certain size is being opened.
pub open spec fn open_step(size: (u32, u32), event: OpenEvent) -> OpenAction {
    match event {
        OpenEvent::Requested { parent } => match parent {
            ParentHandle::Other => OpenAction::RefuseParent,
            ParentHandle::UiKit { is_null } => if is_null {
                OpenAction::Ignore
            } else {
                OpenAction::InstallView { size }
            },
        },
        OpenEvent::Installed { has_view, has_layer } => if has_view && has_layer {
            OpenAction::MakeRenderer
        } else {
            OpenAction::TearDown
        },
        OpenEvent::RendererMade { made } => if made {
            OpenAction::Start
        } else {
            OpenAction::TearDown
        },
    }
}

impl<P: ?Sized, U> EguiEditor<P, U> {
    /// Takes an event of the opening and says what has to be done next.
    pub fn open(&self, event: OpenEvent) -> (action: OpenAction)
        ensures
            action == open_step(self.size, event),
    {
        match event {
            OpenEvent::Requested { parent } => match parent {
                ParentHandle::Other => OpenAction::RefuseParent,
                ParentHandle::UiKit { is_null } => if is_null {
                    OpenAction::Ignore
                } else {
                    OpenAction::InstallView { size: self.size }
                },
            },
            OpenEvent::Installed { has_view, has_layer } => if has_view && has_layer {
                OpenAction::MakeRenderer
            } else {
                OpenAction::TearDown
            },
            OpenEvent::RendererMade { made } => if made {
                OpenAction::Start
            } else {
                OpenAction::TearDown
            },
        }
    }
}

/// A step in building the view or in taking it down.
#[derive(Clone, Copy, Debug, PartialEq, Eq, Structural)]
pub enum ViewStep {
    /// Allocate the view.
    AllocateView,
    /// Let the view take touches.
    EnableTouches,
    /// Give the view the scale of its content.
    SetContentScale,
    /// Give the layer its scale and the size of its drawables.
    ConfigureLayer,
    /// Keep a reference to the session in the view's slot.
    PinSession,
    /// Put the view into the host's view.
    Attach,
    /// Create the display link, with the view as its target.
    CreateLink,
    /// Keep the display link.
    RetainLink,
    /// Ask the display link for so many frames per second.
    SetPreferredFps { fps: isize },
    /// Register the view for the notifications that pause the display link.
    RegisterObservers,
    /// Add the display link to the run loop.
    ScheduleLink,
    /// Take back the registration of the view.
    UnregisterObservers,
    /// Take the display link from the run loop, and the target from it.
    InvalidateLink,
    /// Let go of the display link.
    ReleaseLink,
    /// Empty the view's slot, without letting go of what it referred to.
    ClearSlot,
    /// Let go of the reference that was in the slot.
    ReclaimSession,
    /// Take the view from the host's view.
    Detach,
    /// Let go of the view.
    ReleaseView,
}

/// The steps that set up a view that was allocated.
pub open spec fn view_setup() -> Seq<ViewStep> {
    seq![
        ViewStep::EnableTouches,
        ViewStep::SetContentScale,
        ViewStep::ConfigureLayer,
        ViewStep::PinSession,
        ViewStep::Attach,
    ]
}

/// The steps that set up a display link that was created.
pub open spec fn link_setup() -> Seq<ViewStep> {
    seq![
        ViewStep::RetainLink,
        ViewStep::SetPreferredFps { fps: IOS_DISPLAY_LINK_FPS },
        ViewStep::RegisterObservers,
        ViewStep::ScheduleLink,
    ]
}

/// Everything that is done to build the view, as far as it goes: nothing lasts
/// where no view could be allocated, and there are no steps for a display link
/// that could not be created.
pub open spec fn installed(has_view: bool, has_link: bool) -> Seq<ViewStep> {
    if has_view {
        seq![ViewStep::AllocateView] + view_setup() + if has_link {
            seq![ViewStep::CreateLink] + link_setup()
        } else {
            Seq::empty()
        }
    } else {
        Seq::empty()
    }
}

/// The steps that take down a display link.
pub open spec fn link_teardown(has_view: bool) -> Seq<ViewStep> {
    (if has_view {
        seq![ViewStep::UnregisterObservers]
    } else {
        Seq::empty()
    }) + seq![ViewStep::InvalidateLink, ViewStep::ReleaseLink]
}

/// The steps that take down a view, whose slot may be empty already. The slot
/// is emptied before its reference is let go: a message that arrives late finds
/// an empty slot and not a reference to what is gone.
pub open spec fn view_teardown(is_pinned: bool) -> Seq<ViewStep> {
    seq![ViewStep::ClearSlot] + (if is_pinned {
        seq![ViewStep::ReclaimSession]
    } else {
        Seq::empty()
    }) + seq![ViewStep::Detach, ViewStep::ReleaseView]
}

/// The steps that take down what was built.
pub open spec fn teardown(has_view: bool, has_link: bool, is_pinned: bool) -> Seq<ViewStep> {
    (if has_link {
        link_teardown(has_view)
    } else {
        Seq::empty()
    }) + if has_view {
        view_teardown(is_pinned)
    } else {
        Seq::empty()
    }
}

/// The steps that set up a view after its allocation: none where that failed.
pub fn view_setup_steps(has_view: bool) -> (steps: Vec<ViewStep>)
    ensures
        steps@ == if has_view {
            view_setup()
        } else {
            Seq::empty()
        },
{
    if has_view {
        let steps = vec![
            ViewStep::EnableTouches,
            ViewStep::SetContentScale,
            ViewStep::ConfigureLayer,
            ViewStep::PinSession,
            ViewStep::Attach,
        ];
        assert(steps@ =~= view_setup());
        steps
    } else {
        Vec::new()
    }
}

/// The steps that set up a display link after its creation: none where that
/// failed.
pub fn link_setup_steps(has_link: bool) -> (steps: Vec<ViewStep>)
    ensures
        steps@ == if has_link {
            link_setup()
        } else {
            Seq::empty()
        },
{
    if has_link {
        let steps = vec![
            ViewStep::RetainLink,
            ViewStep::SetPreferredFps { fps: IOS_DISPLAY_LINK_FPS },
            ViewStep::RegisterObservers,
            ViewStep::ScheduleLink,
        ];
        assert(steps@ =~= link_setup());
        steps
    } else {
        Vec::new()
    }
}

/// The steps that take down what was built, when the editor is closed or could
/// not be opened.
pub fn teardown_steps(has_view: bool, has_link: bool, is_pinned: bool) -> (steps: Vec<ViewStep>)
    ensures
        steps@ == teardown(has_view, has_link, is_pinned),
{
    let mut steps: Vec<ViewStep> = Vec::new();
    if has_link {
        if has_view {
            steps.push(ViewStep::UnregisterObservers);
        }
        steps.push(ViewStep::InvalidateLink);
        steps.push(ViewStep::ReleaseLink);
        assert(steps@ =~= link_teardown(has_view));
    }
    if has_view {
        steps.push(ViewStep::ClearSlot);
        if is_pinned {
            steps.push(ViewStep::ReclaimSession);
        }
        steps.push(ViewStep::Detach);
        steps.push(ViewStep::ReleaseView);
    }
    assert(steps@ =~= teardown(has_view, has_link, is_pinned));
    steps
}

/// What is held on behalf of an editor's view.
pub struct Holdings {
    /// The references to the view: of its creator, of the host's view that
    /// contains it, and of the display link whose target it is.
    pub view_refs: int,
    /// The references to the display link: of its creator and of the run loop.
    pub link_refs: int,
    /// The references to the session that the view keeps.
    pub session_refs: int,
    /// The view's slot refers to the session.
    pub slot_is_set: bool,
    /// The view is registered for notifications.
    pub is_observing: bool,
}

impl Holdings {
    /// Nothing is held.
    pub open spec fn nothing() -> Self {
        Holdings {
            view_refs: 0,
            link_refs: 0,
            session_refs: 0,
            slot_is_set: false,
            is_observing: false,
        }
    }

    /// What is held after one more step.
    pub open spec fn after(self, step: ViewStep) -> Self {
        match step {
            ViewStep::AllocateView => Holdings { view_refs: self.view_refs + 1, ..self },
            ViewStep::PinSession => Holdings {
                session_refs: self.session_refs + 1,
                slot_is_set: true,
                ..self
            },
            ViewStep::Attach => Holdings { view_refs: self.view_refs + 1, ..self },
            ViewStep::CreateLink => Holdings { view_refs: self.view_refs + 1, ..self },
            ViewStep::RetainLink => Holdings { link_refs: self.link_refs + 1, ..self },
            ViewStep::RegisterObservers => Holdings { is_observing: true, ..self },
            ViewStep::ScheduleLink => Holdings { link_refs: self.link_refs + 1, ..self },
            ViewStep::UnregisterObservers => Holdings { is_observing: false, ..self },
            ViewStep::InvalidateLink => Holdings {
                link_refs: self.link_refs - 1,
                view_refs: self.view_refs - 1,
                ..self
            },
            ViewStep::ReleaseLink => Holdings { link_refs: self.link_refs - 1, ..self },
            ViewStep::ClearSlot => Holdings { slot_is_set: false, ..self },
            ViewStep::ReclaimSession => Holdings { session_refs: self.session_refs - 1, ..self },
            ViewStep::Detach => Holdings { view_refs: self.view_refs - 1, ..self },
            ViewStep::ReleaseView => Holdings { view_refs: self.view_refs - 1, ..self },
            ViewStep::EnableTouches => self,
            ViewStep::SetContentScale => self,
            ViewStep::ConfigureLayer => self,
            ViewStep::SetPreferredFps { .. } => self,
        }
    }

    /// What is held after some steps.
    pub open spec fn after_all(self, steps: Seq<ViewStep>) -> Self
        decreases steps.len(),
    {
        if steps.len() == 0 {
            self
        } else {
            self.after_all(steps.drop_last()).after(steps.last())
        }
    }

    /// Nothing was let go of that was not held, the slot never refers to a
    /// session that was let go of, and neither the notifications nor the
    /// display link can reach a view that is gone.
    pub open spec fn is_sound(self) -> bool {
        &&& self.view_refs >= 0
        &&& self.link_refs >= 0
        &&& self.session_refs >= 0
        &&& self.slot_is_set ==> self.session_refs > 0 && self.view_refs > 0
        &&& self.is_observing ==> self.view_refs > 0
    }
}

/// Some steps after some others.
proof fn lemma_holdings_after_both(holdings: Holdings, a: Seq<ViewStep>, b: Seq<ViewStep>)
    ensures
        holdings.after_all(a + b) == holdings.after_all(a).after_all(b),
    decreases b.len(),
{
    if b.len() == 0 {
        assert(a + b =~= a);
    } else {
        lemma_holdings_after_both(holdings, a, b.drop_last());
        assert((a + b).drop_last() =~= a + b.drop_last());
    }
}

/// One more step.
proof fn lemma_holdings_one_more(holdings: Holdings, steps: Seq<ViewStep>, i: int)
    requires
        0 <= i < steps.len(),
    ensures
        holdings.after_all(steps.take(i + 1)) == holdings.after_all(steps.take(i)).after(steps[i]),
{
    assert(steps.take(i + 1).drop_last() =~= steps.take(i));
}

/// What a view holds between its building and its taking down.
pub open spec fn holdings_while_open(has_view: bool, has_link: bool) -> Holdings {
    Holdings {
        view_refs: if has_view {
            if has_link {
                3
            } else {
                2
            }
        } else {
            0
        },
        link_refs: if has_view && has_link {
            2
        } else {
            0
        },
        session_refs: if has_view {
            1
        } else {
            0
        },
        slot_is_set: has_view,
        is_observing: has_view && has_link,
    }
}

/// What every prefix of the steps that build a view holds is sound, and the
/// whole of them holds what an open editor holds.
proof fn lemma_installing(has_view: bool, has_link: bool, n: int)
    requires
        0 <= n <= installed(has_view, has_link).len(),
    ensures
        Holdings::nothing().after_all(installed(has_view, has_link).take(n)).is_sound(),
        Holdings::nothing().after_all(installed(has_view, has_link)) == holdings_while_open(
            has_view,
            has_link,
        ),
{
    let steps = installed(has_view, has_link);
    assert(steps.take(steps.len() as int) =~= steps);
    assert(steps.take(0) =~= Seq::empty());
    let start = Holdings::nothing();
    if has_view {
        lemma_holdings_one_more(start, steps, 0);
        lemma_holdings_one_more(start, steps, 1);
        lemma_holdings_one_more(start, steps, 2);
        lemma_holdings_one_more(start, steps, 3);
        lemma_holdings_one_more(start, steps, 4);
        lemma_holdings_one_more(start, steps, 5);
        if has_link {
            lemma_holdings_one_more(start, steps, 6);
            lemma_holdings_one_more(start, steps, 7);
            lemma_holdings_one_more(start, steps, 8);
            lemma_holdings_one_more(start, steps, 9);
            lemma_holdings_one_more(start, steps, 10);
        }
    }
}

/// What every prefix of the steps that take down a view holds is sound, and
/// nothing is held after all of them.
proof fn lemma_tearing_down(has_view: bool, has_link: bool, n: int)
    requires
        has_link ==> has_view,
        0 <= n <= teardown(has_view, has_link, has_view).len(),
    ensures
        holdings_while_open(has_view, has_link).after_all(
            teardown(has_view, has_link, has_view).take(n),
        ).is_sound(),
        holdings_while_open(has_view, has_link).after_all(teardown(has_view, has_link, has_view))
            == Holdings::nothing(),
{
    let steps = teardown(has_view, has_link, has_view);
    assert(steps.take(steps.len() as int) =~= steps);
    assert(steps.take(0) =~= Seq::empty());
    let start = holdings_while_open(has_view, has_link);
    if has_view {
        lemma_holdings_one_more(start, steps, 0);
        lemma_holdings_one_more(start, steps, 1);
        lemma_holdings_one_more(start, steps, 2);
        lemma_holdings_one_more(start, steps, 3);
        if has_link {
            lemma_holdings_one_more(start, steps, 4);
            lemma_holdings_one_more(start, steps, 5);
            lemma_holdings_one_more(start, steps, 6);
        }
    }
}

/// However far the building of a view went, taking it down lets go of
/// everything: a failed opening leaves nothing behind, and neither does closing
/// an editor.
pub proof fn law_nothing_is_left_behind(has_view: bool, has_link: bool)
    requires
        has_link ==> has_view,
    ensures
        Holdings::nothing().after_all(
            installed(has_view, has_link) + teardown(has_view, has_link, has_view),
        ) == Holdings::nothing(),
{
    lemma_installing(has_view, has_link, 0);
    lemma_tearing_down(has_view, has_link, 0);
    lemma_holdings_after_both(
        Holdings::nothing(),
        installed(has_view, has_link),
        teardown(has_view, has_link, has_view),
    );
}

/// At no moment between the first step of building a view and the last one of
/// taking it down does anything refer to what is gone, or is anything let go of
/// that is not held.
pub proof fn law_nothing_dangles(has_view: bool, has_link: bool, n: int)
    requires
        has_link ==> has_view,
        0 <= n <= (installed(has_view, has_link) + teardown(has_view, has_link, has_view)).len(),
    ensures
        Holdings::nothing().after_all(
            (installed(has_view, has_link) + teardown(has_view, has_link, has_view)).take(n),
        ).is_sound(),
{
    let up = installed(has_view, has_link);
    let down = teardown(has_view, has_link, has_view);
    if n <= up.len() {
        lemma_installing(has_view, has_link, n);
        assert((up + down).take(n) =~= up.take(n));
    } else {
        let m = n - up.len();
        lemma_installing(has_view, has_link, 0);
        lemma_tearing_down(has_view, has_link, m);
        assert((up + down).take(n) =~= up + down.take(m));
        lemma_holdings_after_both(Holdings::nothing(), up, down.take(m));
    }
}

/// An event tells the outcome of what had to be done. Nothing follows where
/// opening has stopped, or where the session was started.
pub open spec fn is_outcome_of(event: OpenEvent, action: OpenAction) -> bool {
    match action {
        OpenAction::InstallView { .. } => event is Installed,
        OpenAction::MakeRenderer => event is RendererMade,
        _ => false,
    }
}

/// The events of one opening, as far as it went: the host asked for the editor,
/// and each later event tells the outcome of what had to be done before it.
pub open spec fn is_opening(size: (u32, u32), events: Seq<OpenEvent>) -> bool {
    &&& events.len() > 0
    &&& events[0] is Requested
    &&& forall|i: int|
        0 <= i < events.len() - 1 ==> is_outcome_of(
            events[i + 1],
            open_step(size, #[trigger] events[i]),
        )
}

/// The events of an opening in which nothing failed.
pub open spec fn complete_opening() -> Seq<OpenEvent> {
    seq![
        OpenEvent::Requested { parent: ParentHandle::UiKit { is_null: false } },
        OpenEvent::Installed { has_view: true, has_layer: true },
        OpenEvent::RendererMade { made: true },
    ]
}

/// An editor starts exactly where the host's view is there, the editor's view
/// and its layer were built, and a renderer was made, one after the other. As
/// long as nothing has failed the opening goes on. Where something fails after
/// the building began, what was built is taken down. Every opening comes to an
/// end.
pub proof fn law_editor_starts_only_when_complete(size: (u32, u32), events: Seq<OpenEvent>)
    requires
        is_opening(size, events),
    ensures
        events.len() <= complete_opening().len(),
        open_step(size, events.last()) is Start <==> events == complete_opening(),
        open_step(size, events.last()) is MakeRenderer <==> events == complete_opening().take(2),
        open_step(size, events.last()) is InstallView <==> events == complete_opening().take(1),
        open_step(size, events.last()) is TearDown <==> events.len() > 1
            && !events.is_prefix_of(complete_opening()),
{
    if events.len() > 1 {
        assert(is_outcome_of(events[1], open_step(size, events[0])));
    }
    if events.len() > 2 {
        assert(is_outcome_of(events[2], open_step(size, events[1])));
    }
    if events.len() > 3 {
        assert(is_outcome_of(events[3], open_step(size, events[2])));
    }
    let complete = complete_opening();
    if open_step(size, events.last()) is InstallView {
        assert(events =~= complete.take(1));
    }
    if open_step(size, events.last()) is MakeRenderer {
        assert(events =~= complete.take(2));
    }
    if open_step(size, events.last()) is Start {
        assert(events =~= complete);
    }
    assert(complete.take(1).last() == complete[0]);
    assert(complete.take(2).last() == complete[1]);
}

/// A step in setting up the native text field that was allocated.
#[derive(Clone, Copy, Debug, PartialEq, Eq, Structural)]
pub enum TextInputStep {
    /// Hide the field from assistive techniques: egui shows the real widget.
    HideFromAccessibility,
    /// Have the view told when the text was edited.
    ObserveChanges { control_event: usize },
    /// Have the view told when Return was pressed.
    ObserveReturn { control_event: usize },
    /// Put the field into the editor's view.
    AddToView,
    /// Let go of the reference from its allocation.
    ReleaseAllocation,
}

/// The steps that set up the native text field.
pub open spec fn text_input_setup() -> Seq<TextInputStep> {
    seq![
        TextInputStep::HideFromAccessibility,
        TextInputStep::ObserveChanges { control_event: EDITING_CHANGED },
        TextInputStep::ObserveReturn { control_event: EDITING_DID_END_ON_EXIT },
        TextInputStep::AddToView,
        TextInputStep::ReleaseAllocation,
    ]
}

/// The steps that set up the native text field in an editor's view: none where
/// the view is missing or the field could not be allocated.
pub fn text_input_setup_steps(has_view: bool, has_input: bool) -> (steps: Vec<TextInputStep>)
    ensures
        steps@ == if has_view && has_input {
            text_input_setup()
        } else {
            Seq::empty()
        },
{
    if has_view && has_input {
        let steps = vec![
            TextInputStep::HideFromAccessibility,
            TextInputStep::ObserveChanges { control_event: EDITING_CHANGED },
            TextInputStep::ObserveReturn { control_event: EDITING_DID_END_ON_EXIT },
            TextInputStep::AddToView,
            TextInputStep::ReleaseAllocation,
        ];
        assert(steps@ =~= text_input_setup());
        steps
    } else {
        Vec::new()
    }
}

/// How many references to the native text field there are after some steps,
/// starting from the one of its allocation.
pub open spec fn text_input_refs(steps: Seq<TextInputStep>) -> int
    decreases steps.len(),
{
    if steps.len() == 0 {
        1
    } else {
        text_input_refs(steps.drop_last()) + match steps.last() {
            TextInputStep::AddToView => 1int,
            TextInputStep::ReleaseAllocation => -1int,
            _ => 0int,
        }
    }
}

/// One more step.
proof fn lemma_text_input_one_more(steps: Seq<TextInputStep>, i: int)
    requires
        0 <= i < steps.len(),
    ensures
        text_input_refs(steps.take(i + 1)) == text_input_refs(steps.take(i)) + match steps[i] {
            TextInputStep::AddToView => 1int,
            TextInputStep::ReleaseAllocation => -1int,
            _ => 0int,
        },
{
    assert(steps.take(i + 1).drop_last() =~= steps.take(i));
}

/// The native text field is there throughout its setting up, and afterwards
/// lives exactly as long as the editor's view, which holds the only reference.
pub proof fn law_text_input_belongs_to_the_view(n: int)
    requires
        0 <= n <= text_input_setup().len(),
    ensures
        text_input_refs(text_input_setup().take(n)) >= 1,
        text_input_refs(text_input_setup()) == 1,
{
    let steps = text_input_setup();
    assert(steps.take(steps.len() as int) =~= steps);
    assert(steps.take(0) =~= Seq::empty());
    lemma_text_input_one_more(steps, 0);
    lemma_text_input_one_more(steps, 1);
    lemma_text_input_one_more(steps, 2);
    lemma_text_input_one_more(steps, 3);
    lemma_text_input_one_more(steps, 4);
}

/// A hexadecimal digit.
pub open spec fn hex_digit(digit: int) -> char {
    if digit < 10 {
        (('0' as int) + digit) as char
    } else {
        (('a' as int) + digit - 10) as char
    }
}

/// A number in hexadecimal digits, without leading zeros.
pub open spec fn hex(number: nat) -> Seq<char>
    decreases number,
{
    if number < 16 {
        seq![hex_digit(number as int)]
    } else {
        hex(number / 16).push(hex_digit((number % 16) as int))
    }
}

/// The name of the runtime class of the view whose type has a certain hash.
pub open spec fn class_name(type_hash: u64) -> Seq<char> {
    "TruceEguiiOSEditorView_"@ + hex(type_hash as nat)
}

/// One hexadecimal digit as a text.
fn hex_digit_text(digit: u64) -> (text: &'static str)
    requires
        digit < 16,
    ensures
        text@ == seq![hex_digit(digit as int)],
{
    proof {
        reveal_strlit("0");
        reveal_strlit("1");
        reveal_strlit("2");
        reveal_strlit("3");
        reveal_strlit("4");
        reveal_strlit("5");
        reveal_strlit("6");
        reveal_strlit("7");
        reveal_strlit("8");
        reveal_strlit("9");
        reveal_strlit("a");
        reveal_strlit("b");
        reveal_strlit("c");
        reveal_strlit("d");
        reveal_strlit("e");
        reveal_strlit("f");
    }
    let text: &'static str = match digit {
        0 => "0",
        1 => "1",
        2 => "2",
        3 => "3",
        4 => "4",
        5 => "5",
        6 => "6",
        7 => "7",
        8 => "8",
        9 => "9",
        10 => "a",
        11 => "b",
        12 => "c",
        13 => "d",
        14 => "e",
        _ => "f",
    };
    assert(text@ =~= seq![hex_digit(digit as int)]);
    text
}

/// Writes a number in hexadecimal digits behind a text.
fn push_hex(text: &mut String, number: u64)
    ensures
        final(text)@ == old(text)@ + hex(number as nat),
    decreases number,
{
    if number >= 16 {
        push_hex(text, number / 16);
    }
    text.append(hex_digit_text(number % 16));
    assert(text@ =~= old(text)@ + hex(number as nat));
}

/// The name of the runtime class of the view whose type has a certain hash.
pub fn editor_view_class_name(type_hash: u64) -> (name: String)
    ensures
        name@ == class_name(type_hash),
{
    let mut name = "TruceEguiiOSEditorView_".to_owned();
    push_hex(&mut name, type_hash);
    name
}

/// Distinct digits have distinct signs.
proof fn lemma_hex_digit_is_injective(a: int, b: int)
    requires
        0 <= a < 16,
        0 <= b < 16,
        hex_digit(a) == hex_digit(b),
    ensures
        a == b,
{
}

/// Distinct numbers have distinct digits.
proof fn lemma_hex_is_injective(a: nat, b: nat)
    requires
        hex(a) == hex(b),
    ensures
        a == b,
    decreases a,
{
    assert(hex(a).len() >= 1 && hex(b).len() >= 1);
    assert(hex(a).last() == hex_digit((a % 16) as int));
    assert(hex(b).last() == hex_digit((b % 16) as int));
    lemma_hex_digit_is_injective((a % 16) as int, (b % 16) as int);
    if a >= 16 && b >= 16 {
        assert(hex(a).drop_last() =~= hex(a / 16));
        assert(hex(b).drop_last() =~= hex(b / 16));
        lemma_hex_is_injective(a / 16, b / 16);
    } else if a >= 16 {
        assert(hex(a / 16).len() >= 1);
    } else if b >= 16 {
        assert(hex(b / 16).len() >= 1);
    }
}

/// Views of types with distinct hashes have classes of distinct names.
pub proof fn law_class_names_are_unique(a: u64, b: u64)
    requires
        class_name(a) == class_name(b),
    ensures
        a == b,
{
    let prefix = "TruceEguiiOSEditorView_"@;
    let n = prefix.len() as int;
    assert(hex(a as nat) =~= class_name(a).skip(n));
    assert(hex(b as nat) =~= class_name(b).skip(n));
    lemma_hex_is_injective(a as nat, b as nat);
}

/// The editor's view is built in the editor's own size, width first. A handle of
/// another platform is refused, and a missing view is ignored; nothing is built
/// for either.
pub proof fn law_view_has_the_size_of_the_editor(size: (u32, u32), event: OpenEvent)
    ensures
        open_step(size, event) matches OpenAction::InstallView { size: built } ==> built == size,
        open_step(size, event) is InstallView <==> event == (OpenEvent::Requested {
            parent: ParentHandle::UiKit { is_null: false },
        }),
        open_step(size, event) is Ignore <==> event == (OpenEvent::Requested {
            parent: ParentHandle::UiKit { is_null: true },
        }),
        open_step(size, event) is RefuseParent <==> event == (OpenEvent::Requested {
            parent: ParentHandle::Other,
        }),
{
}

/// What is held before something is taken down: by a view, by a display link, and
/// by a slot that still refers to the session.
pub open spec fn holdings_before_teardown(
    has_view: bool,
    has_link: bool,
    is_pinned: bool,
) -> Holdings {
    Holdings {
        view_refs: (if has_view {
            2int
        } else {
            0int
        }) + (if has_link {
            1int
        } else {
            0int
        }),
        link_refs: if has_link {
            2
        } else {
            0
        },
        session_refs: if has_view && is_pinned {
            1
        } else {
            0
        },
        slot_is_set: has_view && is_pinned,
        is_observing: has_view && has_link,
    }
}

/// Whatever there is to be taken down, nothing of it is held afterwards, and no
/// step is taken twice or without need. The display link is stopped before the
/// slot is emptied, the slot is emptied before its reference is let go, and the
/// view goes last.
pub proof fn law_teardown_lets_go_of_everything(has_view: bool, has_link: bool, is_pinned: bool)
    ensures
        holdings_before_teardown(has_view, has_link, is_pinned).after_all(
            teardown(has_view, has_link, is_pinned),
        ) == Holdings::nothing(),
        teardown(has_view, has_link, is_pinned).contains(ViewStep::InvalidateLink) <==> has_link,
        teardown(has_view, has_link, is_pinned).contains(ViewStep::ReleaseLink) <==> has_link,
        teardown(has_view, has_link, is_pinned).contains(ViewStep::ClearSlot) <==> has_view,
        teardown(has_view, has_link, is_pinned).contains(ViewStep::Detach) <==> has_view,
        teardown(has_view, has_link, is_pinned).contains(ViewStep::UnregisterObservers)
            <==> has_link && has_view,
        teardown(has_view, has_link, is_pinned).contains(ViewStep::ReclaimSession) <==> has_view
            && is_pinned,
        has_view ==> teardown(has_view, has_link, is_pinned).last() == ViewStep::ReleaseView,
        forall|i: int, j: int|
            #![trigger teardown(has_view, has_link, is_pinned)[i],
                teardown(has_view, has_link, is_pinned)[j]]
            0 <= i < j < teardown(has_view, has_link, is_pinned).len() ==> teardown_rank(
                teardown(has_view, has_link, is_pinned)[i],
            ) < teardown_rank(teardown(has_view, has_link, is_pinned)[j]),
        forall|i: int|
            0 <= i < teardown(has_view, has_link, is_pinned).len() ==> teardown_rank(
                #[trigger] teardown(has_view, has_link, is_pinned)[i],
            ) > 0,
{
    let steps = teardown(has_view, has_link, is_pinned);
    let start = holdings_before_teardown(has_view, has_link, is_pinned);
    reveal_with_fuel(Holdings::after_all, 8);
    if has_link {
        let at = if has_view {
            1int
        } else {
            0int
        };
        assert(steps[at] == ViewStep::InvalidateLink);
        assert(steps[at + 1] == ViewStep::ReleaseLink);
        if has_view {
            assert(steps[0] == ViewStep::UnregisterObservers);
        }
    }
    if has_view {
        let at = if has_link {
            3int
        } else {
            0int
        };
        assert(steps[at] == ViewStep::ClearSlot);
        if is_pinned {
            assert(steps[at + 1] == ViewStep::ReclaimSession);
            assert(steps[at + 2] == ViewStep::Detach);
        } else {
            assert(steps[at + 1] == ViewStep::Detach);
        }
    }
}

/// Where a step has its place in taking things down; none for a step of building.
pub open spec fn teardown_rank(step: ViewStep) -> int {
    match step {
        ViewStep::UnregisterObservers => 1,
        ViewStep::InvalidateLink => 2,
        ViewStep::ReleaseLink => 3,
        ViewStep::ClearSlot => 4,
        ViewStep::ReclaimSession => 5,
        ViewStep::Detach => 6,
        ViewStep::ReleaseView => 7,
        _ => 0,
    }
}

/// The value of a character as a hexadecimal digit, in lower case; none for any
/// other character.
pub open spec fn digit_value(c: char) -> int {
    if '0' <= c <= '9' {
        c as int - '0' as int
    } else if 'a' <= c <= 'f' {
        c as int - 'a' as int + 10
    } else {
        -1
    }
}

/// The number that hexadecimal digits stand for.
pub open spec fn hex_value(digits: Seq<char>) -> int
    decreases digits.len(),
{
    if digits.len() == 0 {
        0
    } else {
        hex_value(digits.drop_last()) * 16 + digit_value(digits.last())
    }
}

/// The digits of a number stand for that number; each is one of `0` to `9` and
/// `a` to `f`, and none is a leading zero.
pub proof fn law_hex_is_read_back(number: nat)
    ensures
        hex_value(hex(number)) == number,
        hex(number).len() > 0,
        forall|i: int| 0 <= i < hex(number).len() ==> 0 <= digit_value(#[trigger] hex(number)[i]) < 16,
        hex(number).len() > 1 ==> hex(number)[0] != '0',
        number > 0 ==> hex(number)[0] != '0',
    decreases number,
{
    reveal_with_fuel(hex_value, 2);
    let last = hex_digit((number % 16) as int);
    assert(digit_value(last) == number % 16);
    if number < 16 {
        assert(hex(number).drop_last() =~= Seq::empty());
        assert(digit_value('0') == 0);
    } else {
        law_hex_is_read_back(number / 16);
        assert(hex(number).drop_last() =~= hex(number / 16));
        assert forall|i: int| 0 <= i < hex(number).len() implies 0 <= digit_value(
            #[trigger] hex(number)[i],
        ) < 16 by {
            if i < hex(number / 16).len() {
                assert(hex(number)[i] == hex(number / 16)[i]);
            }
        }
    }
}

/// The name of a class starts with the name of the editor's view, and what
/// follows is the hash of its type in hexadecimal digits.
pub proof fn law_class_name_holds_the_hash(type_hash: u64)
    ensures
        "TruceEguiiOSEditorView_"@.is_prefix_of(class_name(type_hash)),
        hex_value(class_name(type_hash).skip("TruceEguiiOSEditorView_"@.len() as int)) == type_hash,
{
    let prefix = "TruceEguiiOSEditorView_"@;
    assert(class_name(type_hash).skip(prefix.len() as int) =~= hex(type_hash as nat));
    law_hex_is_read_back(type_hash as nat);
}

/// What is done for a view, a display link and a native text field is done
/// exactly where they are there: the text field only in a view.
pub proof fn law_steps_need_what_they_set_up(
    has_view: bool,
    has_link: bool,
    has_input: bool,
    for_view: Vec<ViewStep>,
    for_link: Vec<ViewStep>,
    for_input: Vec<TextInputStep>,
)
    requires
        call_ensures(view_setup_steps, (has_view,), for_view),
        call_ensures(link_setup_steps, (has_link,), for_link),
        call_ensures(text_input_setup_steps, (has_view, has_input), for_input),
    ensures
        for_view@.contains(ViewStep::PinSession) <==> has_view,
        for_view@.contains(ViewStep::Attach) <==> has_view,
        for_view@.len() > 0 <==> has_view,
        for_link@.contains(ViewStep::ScheduleLink) <==> has_link,
        for_link@.contains(ViewStep::RegisterObservers) <==> has_link,
        for_link@.contains(ViewStep::SetPreferredFps { fps: 30 }) <==> has_link,
        for_link@.len() > 0 <==> has_link,
        for_input@.contains(TextInputStep::AddToView) <==> has_view && has_input,
        for_input@.contains(TextInputStep::ObserveChanges { control_event: 0x20000 }) <==> has_view
            && has_input,
        for_input@.contains(TextInputStep::ObserveReturn { control_event: 0x80000 }) <==> has_view
            && has_input,
        for_input@.len() > 0 <==> has_view && has_input,
{
    if has_view {
        assert(for_view@[3] == ViewStep::PinSession);
        assert(for_view@[4] == ViewStep::Attach);
    }
    if has_link {
        assert(for_link@[1] == (ViewStep::SetPreferredFps { fps: 30 }));
        assert(for_link@[2] == ViewStep::RegisterObservers);
        assert(for_link@[3] == ViewStep::ScheduleLink);
    }
    if has_view && has_input {
        assert(for_input@[1] == (TextInputStep::ObserveChanges { control_event: 0x20000 }));
        assert(for_input@[2] == (TextInputStep::ObserveReturn { control_event: 0x80000 }));
        assert(for_input@[3] == TextInputStep::AddToView);
    }
}

/// An editor's view is built in the size that the editor has, width first, and an
/// editor starts only once its renderer was made.
pub proof fn law_opened_view_has_the_size_of_the_editor<P: ?Sized, U>(
    editor: EguiEditor<P, U>,
    event: OpenEvent,
    action: OpenAction,
)
    requires
        call_ensures(EguiEditor::<P, U>::open, (&editor, event), action),
    ensures
        action matches OpenAction::InstallView { size } ==> size.0 == editor.size.0 && size.1
            == editor.size.1,
        action is Start <==> event == (OpenEvent::RendererMade { made: true }),
        action is MakeRenderer <==> event == (OpenEvent::Installed {
            has_view: true,
            has_layer: true,
        }),
        action is InstallView <==> event == (OpenEvent::Requested {
            parent: ParentHandle::UiKit { is_null: false },
        }),
        action is RefuseParent <==> event == (OpenEvent::Requested { parent: ParentHandle::Other }),
{
}

/// What is taken down is let go of, and a class is named after the hash of its
/// type.
pub proof fn law_made_steps_let_go_of_everything(
    has_view: bool,
    has_link: bool,
    is_pinned: bool,
    steps: Vec<ViewStep>,
    type_hash: u64,
    name: String,
)
    requires
        call_ensures(teardown_steps, (has_view, has_link, is_pinned), steps),
        call_ensures(editor_view_class_name, (type_hash,), name),
    ensures
        holdings_before_teardown(has_view, has_link, is_pinned).after_all(steps@)
            == Holdings::nothing(),
        forall|i: int, j: int|
            0 <= i < j < steps@.len() ==> teardown_rank(#[trigger] steps@[i]) < teardown_rank(
                #[trigger] steps@[j],
            ),
        "TruceEguiiOSEditorView_"@.is_prefix_of(name@),
        hex_value(name@.skip("TruceEguiiOSEditorView_"@.len() as int)) == type_hash,
{
    law_teardown_lets_go_of_everything(has_view, has_link, is_pinned);
    law_class_name_holds_the_hash(type_hash);
    assert(steps@ == teardown(has_view, has_link, is_pinned));
}

} // verus!
