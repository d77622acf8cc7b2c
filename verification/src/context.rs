//! The application context: the one place that owns the window controller,
//! the tray controller and the life of the process, and the single function
//! through which every event reaches them.

use crate::effect::{exit_code, requested_exit, Effect};
use crate::error::ErrorKind;
use crate::tray::{
    selects_quit,
    tray_outcome,
    TrayEvent,
    TrayIconController,
    HIDE_ID,
    QUIT_EXIT_CODE,
    QUIT_ID,
    SHOW_ID,
};
use crate::visibility::{
    effects_of,
    QueryFailure,
    VisibilityState,
    WindowOp,
    WindowVisibilityController,
};
use vstd::prelude::*;

verus! {

/// Whether the process is still running.
#[derive(Clone, Copy, Debug, PartialEq, Eq, Structural)]
pub enum Lifecycle {
    Running,
    /// The core has asked the host to end the process with this exit code.
    /// No event is handled any more.
    Exited(i32),
}

/// An event that the host's event loop hands to the core.
#[derive(Debug, PartialEq, Eq)]
pub enum AppEvent {
    /// The tray icon or its menu was used.
    Tray(TrayEvent),
    /// The operating system asked to close the main window.
    CloseRequested,
    /// The answer to [`Effect::QueryVisibility`], which completes the toggle
    /// that a primary click on the icon began.
    VisibilityQueried(Result<bool, QueryFailure>),
}

impl Clone for AppEvent {
    fn clone(&self) -> (copy: Self)
        ensures
            copy == *self,
    {
        match self {
            AppEvent::Tray(event) => AppEvent::Tray(event.clone()),
            AppEvent::CloseRequested => AppEvent::CloseRequested,
            AppEvent::VisibilityQueried(queried) => AppEvent::VisibilityQueried(*queried),
        }
    }
}

/// The state of the application as the contracts see it.
pub struct AppState {
    pub visibility: VisibilityState,
    pub has_tray: bool,
    pub lifecycle: Lifecycle,
}

/// The life of the process after it has carried out a list of effects.
pub open spec fn lifecycle_after(effects: Seq<Effect>) -> Lifecycle {
    match requested_exit(effects) {
        Some(code) => Lifecycle::Exited(code),
        None => Lifecycle::Running,
    }
}

/// One transition of the application: the state after an event, and the
/// calls that the host has to make.
///
/// Once the process has been told to exit, and where there is no tray, an
/// event changes nothing and asks for nothing: without a tray a close request
/// takes its default course.
pub open spec fn step(s: AppState, event: AppEvent) -> (AppState, Seq<Effect>) {
    if s.lifecycle != Lifecycle::Running || !s.has_tray {
        (s, Seq::empty())
    } else {
        match event {
            AppEvent::Tray(tray_event) => {
                let (visibility, effects) = tray_outcome(tray_event, s.visibility);
                let lifecycle = if selects_quit(tray_event) {
                    Lifecycle::Exited(QUIT_EXIT_CODE)
                } else {
                    Lifecycle::Running
                };
                (AppState { visibility, lifecycle, ..s }, effects)
            },
            AppEvent::CloseRequested => (
                AppState { visibility: s.visibility.after(WindowOp::CloseRequested), ..s },
                effects_of(WindowOp::CloseRequested),
            ),
            AppEvent::VisibilityQueried(queried) => (
                AppState { visibility: s.visibility.after(WindowOp::Toggle(queried)), ..s },
                effects_of(WindowOp::Toggle(queried)),
            ),
        }
    }
}

/// The state after a sequence of events, handled in order.
pub open spec fn run(s: AppState, events: Seq<AppEvent>) -> AppState
    decreases events.len(),
{
    if events.len() == 0 {
        s
    } else {
        step(run(s, events.drop_last()), events.last()).0
    }
}

/// Owns the window controller and, on a desktop that has a tray, the tray
/// controller.
pub struct AppContext {
    window: WindowVisibilityController,
    tray: Option<TrayIconController>,
    lifecycle: Lifecycle,
}

impl View for AppContext {
    type V = AppState;

    closed spec fn view(&self) -> AppState {
        AppState {
            visibility: self.window@,
            has_tray: self.tray is Some,
            lifecycle: self.lifecycle,
        }
    }
}

impl AppContext {
    /// The context at launch: the window visible, the process running.
    ///
    /// `has_tray` says whether the desktop can hold a tray icon, and
    /// `tray_created` how the host fared creating it; the latter counts only
    /// where there is a tray to create. A tray that could not be created
    /// stops the launch.
    pub fn launch(
        has_tray: bool,
        tray_created: Result<(), String>,
    ) -> (launched: Result<AppContext, ErrorKind>)
        ensures
            launched is Err <==> has_tray && tray_created is Err,
            launched matches Ok(context) ==> context@ == (AppState {
                visibility: VisibilityState::Visible,
                has_tray,
                lifecycle: Lifecycle::Running,
            }),
            launched matches Err(failure) ==> tray_created matches Err(message) && failure
                == ErrorKind::SetupFailure(message),
    {
        let window = WindowVisibilityController::new();
        if has_tray {
            match TrayIconController::build(tray_created) {
                Ok(tray) => Ok(AppContext { window, tray: Some(tray), lifecycle: Lifecycle::Running }),
                Err(failure) => Err(failure),
            }
        } else {
            Ok(AppContext { window, tray: None, lifecycle: Lifecycle::Running })
        }
    }

    /// The visibility of the main window.
    pub fn visibility(&self) -> (visibility: VisibilityState)
        ensures
            visibility == self@.visibility,
    {
        self.window.state()
    }

    /// Whether the application has a tray icon.
    pub fn has_tray(&self) -> (has_tray: bool)
        ensures
            has_tray == self@.has_tray,
    {
        self.tray.is_some()
    }

    /// Whether the process is still running.
    pub fn lifecycle(&self) -> (lifecycle: Lifecycle)
        ensures
            lifecycle == self@.lifecycle,
    {
        self.lifecycle
    }

    /// Handles one event and returns the calls that the host has to make, in
    /// order.
    pub fn dispatch(&mut self, event: &AppEvent) -> (effects: Vec<Effect>)
        ensures
            (final(self)@, effects@) == step(old(self)@, *event),
    {
        match self.lifecycle {
            Lifecycle::Exited(_) => {
                return Vec::new();
            },
            Lifecycle::Running => {},
        }
        match &self.tray {
            None => Vec::new(),
            Some(tray) => match event {
                AppEvent::Tray(tray_event) => {
                    let effects = tray.dispatch(tray_event, &mut self.window);
                    proof {
                        lemma_exit_matches_effects(old(self)@, *event);
                    }
                    match exit_code(&effects) {
                        Some(code) => {
                            self.lifecycle = Lifecycle::Exited(code);
                        },
                        None => {},
                    }
                    effects
                },
                AppEvent::CloseRequested => self.window.on_close_requested(),
                AppEvent::VisibilityQueried(queried) => self.window.toggle(*queried),
            },
        }
    }
}

/// The process is marked as exited exactly when the host is asked to end it:
/// a transition from a running state leaves the life that its effects ask
/// for, and one from an exited state leaves the state alone and asks for
/// nothing.
pub proof fn lemma_exit_matches_effects(s: AppState, event: AppEvent)
    ensures
        s.lifecycle == Lifecycle::Running ==> step(s, event).0.lifecycle == lifecycle_after(
            step(s, event).1,
        ),
        s.lifecycle != Lifecycle::Running ==> step(s, event) == (s, Seq::<Effect>::empty()),
{
    reveal_with_fuel(requested_exit, 3);
}

/// With a tray, a close request on a running application hides the window
/// to the tray and keeps the process running: the default close action is
/// suppressed and no exit is asked for.
pub proof fn lemma_close_request_keeps_running(s: AppState)
    requires
        s.has_tray,
        s.lifecycle == Lifecycle::Running,
    ensures
        step(s, AppEvent::CloseRequested).0 == (AppState {
            visibility: VisibilityState::Hidden,
            ..s
        }),
        step(s, AppEvent::CloseRequested).1 == seq![Effect::HideWindow, Effect::PreventClose],
        requested_exit(step(s, AppEvent::CloseRequested).1) is None,
{
    lemma_exit_matches_effects(s, AppEvent::CloseRequested);
}

/// Selecting the quit entry ends a running application whatever the window's
/// visibility: the host is asked to exit with code 0 and for nothing else,
/// and the window is not hidden first.
pub proof fn lemma_quit_exits(s: AppState, id: String)
    requires
        s.has_tray,
        s.lifecycle == Lifecycle::Running,
        id@ == QUIT_ID@,
    ensures
        step(s, AppEvent::Tray(TrayEvent::MenuSelected(id))).0 == (AppState {
            lifecycle: Lifecycle::Exited(0),
            ..s
        }),
        step(s, AppEvent::Tray(TrayEvent::MenuSelected(id))).1 == seq![Effect::Exit(0)],
{
}

/// A primary click on the icon toggles the window. The click itself asks
/// only for the visibility query; the answer then leaves the opposite of
/// what it reports, and a visible window where the query failed. With a
/// truthful answer the click thus flips the state.
pub proof fn lemma_primary_click_toggles(s: AppState, queried: Result<bool, QueryFailure>)
    requires
        s.has_tray,
        s.lifecycle == Lifecycle::Running,
    ensures
        step(s, AppEvent::Tray(TrayEvent::IconPrimaryClick)) == (
            s,
            seq![Effect::QueryVisibility],
        ),
        step(s, AppEvent::VisibilityQueried(queried)).0 == (AppState {
            visibility: VisibilityState::toggled(queried),
            ..s
        }),
        step(s, AppEvent::VisibilityQueried(Err(QueryFailure))).0.visibility
            == VisibilityState::Visible,
        run(
            s,
            seq![
                AppEvent::Tray(TrayEvent::IconPrimaryClick),
                AppEvent::VisibilityQueried(s.visibility.reported()),
            ],
        ) == (AppState {
            visibility: match s.visibility {
                VisibilityState::Visible => VisibilityState::Hidden,
                VisibilityState::Hidden => VisibilityState::Visible,
            },
            ..s
        }),
{
    let click = AppEvent::Tray(TrayEvent::IconPrimaryClick);
    let answer = AppEvent::VisibilityQueried(s.visibility.reported());
    reveal_with_fuel(run, 3);
    assert(seq![click, answer].drop_last() == seq![click]);
}

/// A menu id that belongs to no entry, and an interaction with the icon
/// other than a primary click, change nothing and ask for nothing.
pub proof fn lemma_unrecognized_is_ignored(s: AppState, id: String)
    requires
        id@ != SHOW_ID@,
        id@ != HIDE_ID@,
        id@ != QUIT_ID@,
    ensures
        step(s, AppEvent::Tray(TrayEvent::MenuSelected(id))) == (s, Seq::<Effect>::empty()),
        step(s, AppEvent::Tray(TrayEvent::IconOtherInteraction)) == (s, Seq::<Effect>::empty()),
{
}

/// Whether an event asks to quit: it selects the quit entry of the tray menu.
pub open spec fn asks_to_quit(event: AppEvent) -> bool {
    event matches AppEvent::Tray(tray_event) && selects_quit(tray_event)
}

/// Exiting is final: once the process has been told to exit, no sequence of
/// events changes the state.
pub proof fn lemma_exit_is_final(s: AppState, events: Seq<AppEvent>)
    requires
        s.lifecycle != Lifecycle::Running,
    ensures
        run(s, events) == s,
    decreases events.len(),
{
    if events.len() > 0 {
        lemma_exit_is_final(s, events.drop_last());
    }
}

/// Whether there is a tray is settled at launch: no sequence of events
/// changes it.
pub proof fn lemma_tray_is_fixed(s: AppState, events: Seq<AppEvent>)
    ensures
        run(s, events).has_tray == s.has_tray,
    decreases events.len(),
{
    if events.len() > 0 {
        lemma_tray_is_fixed(s, events.drop_last());
    }
}

/// Only the quit entry ends the process: a running application is still
/// running after any sequence of events none of which selects it.
pub proof fn lemma_runs_until_quit(s: AppState, events: Seq<AppEvent>)
    requires
        s.lifecycle == Lifecycle::Running,
        forall|i: int| 0 <= i < events.len() ==> !asks_to_quit(#[trigger] events[i]),
    ensures
        run(s, events).lifecycle == Lifecycle::Running,
    decreases events.len(),
{
    if events.len() > 0 {
        lemma_runs_until_quit(s, events.drop_last());
        assert(!asks_to_quit(events.last()));
    }
}

} // verus!
