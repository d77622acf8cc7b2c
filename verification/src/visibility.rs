//! The visibility of the main window: a state machine with two states,
//! driven by four operations.

use crate::effect::{requested_exit, Effect};
use vstd::prelude::*;

verus! {

/// The logical id under which the host looks up the main window.
pub const MAIN_WINDOW_ID: &'static str = "main";

/// Whether the main window is on screen, as the core last intended it.
#[derive(Clone, Copy, Debug, PartialEq, Eq, Structural)]
pub enum VisibilityState {
    Visible,
    Hidden,
}

/// The windowing system could not say whether the main window is visible.
#[derive(Clone, Copy, Debug, PartialEq, Eq, Structural)]
pub struct QueryFailure;

/// An operation of the window controller, as the contracts name it.
pub enum WindowOp {
    Show,
    Hide,
    /// A toggle, with the answer to its visibility query.
    Toggle(Result<bool, QueryFailure>),
    CloseRequested,
}

impl VisibilityState {
    /// The state that a toggle leaves, given the answer to the visibility
    /// query: the opposite of what was reported, and `Visible` when the query
    /// failed, since a window of unknown visibility counts as hidden.
    pub open spec fn toggled(queried: Result<bool, QueryFailure>) -> VisibilityState {
        match queried {
            Ok(true) => VisibilityState::Hidden,
            Ok(false) => VisibilityState::Visible,
            Err(_) => VisibilityState::Visible,
        }
    }

    /// The transition function: the state that an operation leaves.
    pub open spec fn after(self, op: WindowOp) -> VisibilityState {
        match op {
            WindowOp::Show => VisibilityState::Visible,
            WindowOp::Hide => VisibilityState::Hidden,
            WindowOp::Toggle(queried) => VisibilityState::toggled(queried),
            WindowOp::CloseRequested => VisibilityState::Hidden,
        }
    }

    /// The state that a sequence of operations leaves, carried out in order.
    pub open spec fn after_all(self, ops: Seq<WindowOp>) -> VisibilityState
        decreases ops.len(),
    {
        if ops.len() == 0 {
            self
        } else {
            self.after_all(ops.drop_last()).after(ops.last())
        }
    }

    /// What a truthful visibility query reports of a window in this state.
    pub open spec fn reported(self) -> Result<bool, QueryFailure> {
        Ok(self == VisibilityState::Visible)
    }
}

/// The calls that show the window: it is made visible, then focused.
pub open spec fn show_effects() -> Seq<Effect> {
    seq![Effect::ShowWindow, Effect::FocusWindow]
}

/// The call that hides the window.
pub open spec fn hide_effects() -> Seq<Effect> {
    seq![Effect::HideWindow]
}

/// The calls that an operation asks of the host, in order. A toggle asks for
/// what the show or the hide that it comes to asks for. A close request hides
/// the window, then suppresses the default close action.
pub open spec fn effects_of(op: WindowOp) -> Seq<Effect> {
    match op {
        WindowOp::Show => show_effects(),
        WindowOp::Hide => hide_effects(),
        WindowOp::Toggle(queried) => match VisibilityState::toggled(queried) {
            VisibilityState::Visible => show_effects(),
            VisibilityState::Hidden => hide_effects(),
        },
        WindowOp::CloseRequested => hide_effects().push(Effect::PreventClose),
    }
}

/// Owns the visibility of the one main window.
pub struct WindowVisibilityController {
    state: VisibilityState,
}

impl View for WindowVisibilityController {
    type V = VisibilityState;

    closed spec fn view(&self) -> VisibilityState {
        self.state
    }
}

impl WindowVisibilityController {
    /// A controller for a window that starts out visible.
    pub fn new() -> (controller: Self)
        ensures
            controller@ == VisibilityState::Visible,
    {
        WindowVisibilityController { state: VisibilityState::Visible }
    }

    /// The current state.
    pub fn state(&self) -> (state: VisibilityState)
        ensures
            state == self@,
    {
        self.state
    }

    /// Shows the window and asks for the input focus.
    pub fn show(&mut self) -> (effects: Vec<Effect>)
        ensures
            final(self)@ == old(self)@.after(WindowOp::Show),
            effects@ == effects_of(WindowOp::Show),
    {
        self.state = VisibilityState::Visible;
        let mut effects: Vec<Effect> = Vec::new();
        effects.push(Effect::ShowWindow);
        effects.push(Effect::FocusWindow);
        effects
    }

    /// Hides the window.
    pub fn hide_window(&mut self) -> (effects: Vec<Effect>)
        ensures
            final(self)@ == old(self)@.after(WindowOp::Hide),
            effects@ == effects_of(WindowOp::Hide),
    {
        self.state = VisibilityState::Hidden;
        let mut effects: Vec<Effect> = Vec::new();
        effects.push(Effect::HideWindow);
        effects
    }

    /// Hides the window if the query reported it visible, shows it otherwise.
    /// `queried` is the answer of the windowing system to the visibility
    /// query; a failed query counts as a hidden window.
    pub fn toggle(&mut self, queried: Result<bool, QueryFailure>) -> (effects: Vec<Effect>)
        ensures
            final(self)@ == old(self)@.after(WindowOp::Toggle(queried)),
            effects@ == effects_of(WindowOp::Toggle(queried)),
    {
        let visible = match queried {
            Ok(visible) => visible,
            Err(_) => false,
        };
        if visible {
            self.hide_window()
        } else {
            self.show()
        }
    }

    /// Answers a close request on the main window: the window is hidden
    /// instead, and the default close action is suppressed.
    pub fn on_close_requested(&mut self) -> (effects: Vec<Effect>)
        ensures
            final(self)@ == old(self)@.after(WindowOp::CloseRequested),
            effects@ == effects_of(WindowOp::CloseRequested),
    {
        let mut effects = self.hide_window();
        effects.push(Effect::PreventClose);
        effects
    }
}

/// Repeating a show or a hide is a no-op on the state: after any sequence of
/// operations, two shows in a row leave the window visible, as one does, and
/// two hides in a row leave it hidden, as one does.
pub proof fn lemma_repeated_show_or_hide(start: VisibilityState, ops: Seq<WindowOp>, op: WindowOp)
    requires
        op is Show || op is Hide,
    ensures
        start.after_all(ops.push(op).push(op)) == start.after_all(ops.push(op)),
        op is Show ==> start.after_all(ops.push(op).push(op)) == VisibilityState::Visible,
        op is Hide ==> start.after_all(ops.push(op).push(op)) == VisibilityState::Hidden,
{
    assert(ops.push(op).push(op).drop_last() == ops.push(op));
}

/// A close request always leaves the window hidden, whatever came before,
/// and asks the host neither to exit nor to let the close go ahead.
pub proof fn lemma_close_request_hides(start: VisibilityState, ops: Seq<WindowOp>)
    ensures
        start.after_all(ops.push(WindowOp::CloseRequested)) == VisibilityState::Hidden,
        requested_exit(effects_of(WindowOp::CloseRequested)) is None,
        effects_of(WindowOp::CloseRequested).contains(Effect::PreventClose),
{
    assert(ops.push(WindowOp::CloseRequested).drop_last() == ops);
    reveal_with_fuel(requested_exit, 3);
    assert(effects_of(WindowOp::CloseRequested)[1] == Effect::PreventClose);
}

/// A toggle leaves the opposite of the state that the query reported, and a
/// visible window when the query failed. So with a truthful query a toggle
/// flips the state, and two toggles restore it.
pub proof fn lemma_toggle_flips(state: VisibilityState)
    ensures
        VisibilityState::Visible.after(WindowOp::Toggle(VisibilityState::Visible.reported()))
            == VisibilityState::Hidden,
        VisibilityState::Hidden.after(WindowOp::Toggle(VisibilityState::Hidden.reported()))
            == VisibilityState::Visible,
        state.after(WindowOp::Toggle(Err(QueryFailure))) == VisibilityState::Visible,
        state.after(WindowOp::Toggle(state.reported())) != state,
        ({
            let flipped = state.after(WindowOp::Toggle(state.reported()));
            flipped.after(WindowOp::Toggle(flipped.reported())) == state
        }),
{
}

} // verus!
