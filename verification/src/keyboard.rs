//! Who owns the soft keyboard: egui's focus and the native first responder are
//! brought back into step once per frame.

use vstd::prelude::*;

verus! {

/// What has to be done to bring the two sides back into step.
#[derive(Clone, Copy, Debug, PartialEq, Eq, Structural)]
pub enum NativeKeyboardAction {
    /// Nothing: they agree.
    NoAction,
    /// Show the keyboard.
    BecomeFirstResponder,
    /// Hide the keyboard.
    ResignFirstResponder,
    /// The keyboard went away by itself: take the focus from egui's widget.
    SurrenderEguiFocus,
    /// The user asked for the end of the input: hide the keyboard and take the
    /// focus from egui's widget.
    DismissAndSurrender,
}

/// The action for one frame. A requested dismissal comes before everything
/// else. Otherwise the keyboard is shown where egui wants it and no session has
/// started, egui's focus is given up where a session has lost its responder,
/// and the keyboard is hidden where egui no longer wants it.
pub open spec fn keyboard_action(
    wants_keyboard: bool,
    session_active: bool,
    is_first_responder: bool,
    dismiss_requested: bool,
) -> NativeKeyboardAction {
    if dismiss_requested {
        NativeKeyboardAction::DismissAndSurrender
    } else if wants_keyboard && !is_first_responder {
        if session_active {
            NativeKeyboardAction::SurrenderEguiFocus
        } else {
            NativeKeyboardAction::BecomeFirstResponder
        }
    } else if !wants_keyboard && is_first_responder {
        NativeKeyboardAction::ResignFirstResponder
    } else {
        NativeKeyboardAction::NoAction
    }
}

/// Decides what brings egui's focus and the native responder back into step.
pub fn native_keyboard_action(
    wants_keyboard: bool,
    session_active: bool,
    is_first_responder: bool,
    dismiss_requested: bool,
) -> (action: NativeKeyboardAction)
    ensures
        action == keyboard_action(
            wants_keyboard,
            session_active,
            is_first_responder,
            dismiss_requested,
        ),
{
    if dismiss_requested {
        return NativeKeyboardAction::DismissAndSurrender;
    }
    match (wants_keyboard, session_active, is_first_responder) {
        (true, false, false) => NativeKeyboardAction::BecomeFirstResponder,
        (true, true, false) => NativeKeyboardAction::SurrenderEguiFocus,
        (false, _, true) => NativeKeyboardAction::ResignFirstResponder,
        _ => NativeKeyboardAction::NoAction,
    }
}

/// The keyboard's part of an editor's state.
#[derive(Clone, Copy, Debug, PartialEq, Eq, Structural)]
pub struct KeyboardState {
    /// The native responder has been seen to own the keyboard.
    pub session_active: bool,
    /// The user pressed Return and the keyboard has not been dismissed yet.
    pub dismiss_requested: bool,
    /// The native selection still has to reach egui's text widget.
    pub selection_dirty: bool,
}

/// The state after the action of a frame has been taken. Where the keyboard is
/// to be shown nothing changes yet: the session starts when the responder says
/// whether it took over.
pub open spec fn keyboard_after(
    state: KeyboardState,
    wants_keyboard: bool,
    is_first_responder: bool,
) -> KeyboardState {
    match keyboard_action(
        wants_keyboard,
        state.session_active,
        is_first_responder,
        state.dismiss_requested,
    ) {
        NativeKeyboardAction::BecomeFirstResponder => state,
        NativeKeyboardAction::ResignFirstResponder => KeyboardState {
            session_active: false,
            ..state
        },
        NativeKeyboardAction::SurrenderEguiFocus => KeyboardState {
            session_active: false,
            selection_dirty: false,
            ..state
        },
        NativeKeyboardAction::DismissAndSurrender => KeyboardState {
            session_active: false,
            dismiss_requested: false,
            selection_dirty: false,
        },
        NativeKeyboardAction::NoAction => if is_first_responder {
            KeyboardState { session_active: true, ..state }
        } else if !wants_keyboard {
            KeyboardState { session_active: false, selection_dirty: false, ..state }
        } else {
            state
        },
    }
}

impl KeyboardState {
    /// Takes one frame's decision and records what follows from it.
    pub fn drive(&mut self, wants_keyboard: bool, is_first_responder: bool) -> (action:
        NativeKeyboardAction)
        ensures
            action == keyboard_action(
                wants_keyboard,
                old(self).session_active,
                is_first_responder,
                old(self).dismiss_requested,
            ),
            *final(self) == keyboard_after(*old(self), wants_keyboard, is_first_responder),
    {
        let action = native_keyboard_action(
            wants_keyboard,
            self.session_active,
            is_first_responder,
            self.dismiss_requested,
        );
        match action {
            NativeKeyboardAction::BecomeFirstResponder => {},
            NativeKeyboardAction::ResignFirstResponder => {
                self.session_active = false;
            },
            NativeKeyboardAction::SurrenderEguiFocus => {
                self.selection_dirty = false;
                self.session_active = false;
            },
            NativeKeyboardAction::DismissAndSurrender => {
                self.selection_dirty = false;
                self.session_active = false;
                self.dismiss_requested = false;
            },
            NativeKeyboardAction::NoAction => {
                if is_first_responder {
                    self.session_active = true;
                } else if !wants_keyboard {
                    self.session_active = false;
                    self.selection_dirty = false;
                }
            },
        }
        action
    }

    /// Records whether the responder took over the keyboard.
    pub fn became_first_responder(&mut self, became: bool)
        ensures
            *final(self) == (KeyboardState { session_active: became, ..*old(self) }),
    {
        self.session_active = became;
    }
}

/// A dismissal that was asked for is carried out on the next frame, whatever
/// the two sides say, and only once.
pub proof fn law_dismissal_comes_first_and_once(
    state: KeyboardState,
    wants_keyboard: bool,
    is_first_responder: bool,
    wants_next: bool,
    is_first_next: bool,
)
    requires
        state.dismiss_requested,
    ensures
        keyboard_action(wants_keyboard, state.session_active, is_first_responder, true)
            == NativeKeyboardAction::DismissAndSurrender,
        ({
            let next = keyboard_after(state, wants_keyboard, is_first_responder);
            keyboard_action(wants_next, next.session_active, is_first_next, next.dismiss_requested)
                != NativeKeyboardAction::DismissAndSurrender
        }),
{
}

/// Where egui and the native side agree, nothing is done, and the session runs
/// exactly while the keyboard is up.
pub proof fn law_agreement_is_kept(state: KeyboardState, wants_keyboard: bool)
    requires
        !state.dismiss_requested,
    ensures
        keyboard_action(wants_keyboard, state.session_active, wants_keyboard, false)
            == NativeKeyboardAction::NoAction,
        keyboard_after(state, wants_keyboard, wants_keyboard).session_active == wants_keyboard,
        keyboard_after(
            keyboard_after(state, wants_keyboard, wants_keyboard),
            wants_keyboard,
            wants_keyboard,
        ) == keyboard_after(state, wants_keyboard, wants_keyboard),
{
}

/// Every action, once it has had its effect, leaves nothing to do: showing the
/// keyboard where egui still wants it, and hiding it or giving up egui's focus
/// where neither side holds on any longer.
pub proof fn law_one_action_settles(
    state: KeyboardState,
    wants_keyboard: bool,
    is_first_responder: bool,
)
    ensures
        ({
            let action = keyboard_action(
                wants_keyboard,
                state.session_active,
                is_first_responder,
                state.dismiss_requested,
            );
            let next = keyboard_after(state, wants_keyboard, is_first_responder);
            let shown = KeyboardState { session_active: true, ..next };
            match action {
                NativeKeyboardAction::BecomeFirstResponder => keyboard_action(
                    wants_keyboard,
                    shown.session_active,
                    true,
                    shown.dismiss_requested,
                ) == NativeKeyboardAction::NoAction,
                NativeKeyboardAction::NoAction => keyboard_action(
                    wants_keyboard,
                    next.session_active,
                    is_first_responder,
                    next.dismiss_requested,
                ) == NativeKeyboardAction::NoAction,
                _ => keyboard_action(
                    false,
                    next.session_active,
                    false,
                    next.dismiss_requested,
                ) == NativeKeyboardAction::NoAction,
            }
        }),
{
}

/// A session that lost its responder without being asked gives up egui's focus;
/// the keyboard is not shown again in the same frame.
pub proof fn law_lost_responder_surrenders(state: KeyboardState)
    requires
        state.session_active,
        !state.dismiss_requested,
    ensures
        keyboard_action(true, state.session_active, false, false)
            == NativeKeyboardAction::SurrenderEguiFocus,
        !keyboard_after(state, true, false).session_active,
        !keyboard_after(state, true, false).selection_dirty,
{
}

/// Whether egui's widget and the native responder hold the keyboard after an
/// action has had its effect.
pub open spec fn sides_after(
    action: NativeKeyboardAction,
    wants_keyboard: bool,
    is_first_responder: bool,
) -> (bool, bool) {
    match action {
        NativeKeyboardAction::NoAction => (wants_keyboard, is_first_responder),
        NativeKeyboardAction::BecomeFirstResponder => (wants_keyboard, true),
        NativeKeyboardAction::ResignFirstResponder => (wants_keyboard, false),
        NativeKeyboardAction::SurrenderEguiFocus => (false, is_first_responder),
        NativeKeyboardAction::DismissAndSurrender => (false, false),
    }
}

/// Every action brings the two sides into step. After a requested dismissal
/// neither holds the keyboard; without one egui decides, except that a session
/// whose responder went away by itself ends egui's focus. Where the two agree
/// nothing is done, and a dismissal is only carried out on request.
pub proof fn law_action_brings_the_sides_into_step(
    wants_keyboard: bool,
    session_active: bool,
    is_first_responder: bool,
    dismiss_requested: bool,
)
    ensures
        ({
            let action = keyboard_action(
                wants_keyboard,
                session_active,
                is_first_responder,
                dismiss_requested,
            );
            let (egui_holds, native_holds) = sides_after(
                action,
                wants_keyboard,
                is_first_responder,
            );
            let lost = wants_keyboard && session_active && !is_first_responder;
            &&& egui_holds == native_holds
            &&& egui_holds == (wants_keyboard && !dismiss_requested && !lost)
            &&& action is DismissAndSurrender <==> dismiss_requested
            &&& action is NoAction <==> !dismiss_requested && wants_keyboard == is_first_responder
        }),
{
}

/// After a frame a session is active exactly where both sides held the keyboard
/// and no dismissal was asked for, and no dismissal is open any longer. A native
/// selection that egui has not seen is given up exactly where no widget is left
/// to see it: after a dismissal, after a lost responder, and where neither side
/// held the keyboard.
pub proof fn law_frame_records_who_holds_the_keyboard(
    state: KeyboardState,
    wants_keyboard: bool,
    is_first_responder: bool,
)
    ensures
        ({
            let after = keyboard_after(state, wants_keyboard, is_first_responder);
            let lost = wants_keyboard && state.session_active && !is_first_responder;
            let idle = !wants_keyboard && !is_first_responder;
            &&& after.session_active == (wants_keyboard && is_first_responder
                && !state.dismiss_requested)
            &&& !after.dismiss_requested
            &&& after.selection_dirty == (state.selection_dirty && !state.dismiss_requested && !lost
                && !idle)
        }),
{
}

/// One frame of the keyboard brings the two sides into step, records who held the
/// keyboard, and carries out a dismissal once.
pub proof fn law_driven_keyboard_is_in_step(wants_keyboard: bool, is_first_responder: bool)
    ensures
        forall|state: &mut KeyboardState, action: NativeKeyboardAction| #[trigger]
            call_ensures(KeyboardState::drive, (state, wants_keyboard, is_first_responder), action)
                ==> {
                let (egui_holds, native_holds) = sides_after(
                    action,
                    wants_keyboard,
                    is_first_responder,
                );
                let lost = wants_keyboard && (*state).session_active && !is_first_responder;
                &&& egui_holds == native_holds
                &&& egui_holds == (wants_keyboard && !(*state).dismiss_requested && !lost)
                &&& action is DismissAndSurrender <==> (*state).dismiss_requested
                &&& final(state).session_active == (wants_keyboard && is_first_responder
                    && !(*state).dismiss_requested)
                &&& !final(state).dismiss_requested
            },
{
}

/// The decision itself brings the two sides into step, and starts nothing anew
/// while a session is active.
pub proof fn law_decision_brings_the_sides_into_step(
    wants_keyboard: bool,
    session_active: bool,
    is_first_responder: bool,
    dismiss_requested: bool,
    action: NativeKeyboardAction,
)
    requires
        call_ensures(
            native_keyboard_action,
            (wants_keyboard, session_active, is_first_responder, dismiss_requested),
            action,
        ),
    ensures
        ({
            let (egui_holds, native_holds) = sides_after(
                action,
                wants_keyboard,
                is_first_responder,
            );
            egui_holds == native_holds
        }),
        action is DismissAndSurrender <==> dismiss_requested,
        action is BecomeFirstResponder ==> wants_keyboard && !session_active
            && !is_first_responder,
        action is SurrenderEguiFocus ==> wants_keyboard && session_active && !is_first_responder,
        action is ResignFirstResponder ==> !wants_keyboard && is_first_responder,
        action is NoAction ==> wants_keyboard == is_first_responder,
{
}

} // verus!
