use tray_host::context::{AppContext, AppEvent, Lifecycle};
use tray_host::effect::Effect;
use tray_host::error::ErrorKind;
use tray_host::tray::TrayEvent;
use tray_host::visibility::{QueryFailure, VisibilityState};

fn with_tray() -> AppContext {
    match AppContext::launch(true, Ok(())) {
        Ok(context) => context,
        Err(failure) => panic!("the tray was created, yet: {:?}", failure),
    }
}

fn without_tray() -> AppContext {
    match AppContext::launch(false, Ok(())) {
        Ok(context) => context,
        Err(failure) => panic!("there was no tray to create, yet: {:?}", failure),
    }
}

fn menu(id: &str) -> AppEvent {
    AppEvent::Tray(TrayEvent::MenuSelected(id.to_string()))
}

fn click() -> AppEvent {
    AppEvent::Tray(TrayEvent::IconPrimaryClick)
}

fn none() -> Vec<Effect> {
    Vec::new()
}

#[test]
fn launch_starts_visible_and_running() {
    let context = with_tray();
    assert_eq!(context.visibility(), VisibilityState::Visible);
    assert_eq!(context.lifecycle(), Lifecycle::Running);
    assert!(context.has_tray());
}

#[test]
fn launch_without_a_tray_has_none() {
    let context = without_tray();
    assert_eq!(context.visibility(), VisibilityState::Visible);
    assert_eq!(context.lifecycle(), Lifecycle::Running);
    assert!(!context.has_tray());
}

#[test]
fn launch_fails_fast_when_the_tray_cannot_be_created() {
    match AppContext::launch(true, Err("tray icon missing".to_string())) {
        Err(failure) => {
            assert_eq!(failure, ErrorKind::SetupFailure("tray icon missing".to_string()));
            assert!(failure.is_fatal());
        }
        Ok(_) => panic!("launched without the tray that the desktop calls for"),
    }
}

#[test]
fn launch_without_a_tray_ignores_the_creation_outcome() {
    match AppContext::launch(false, Err("not consulted".to_string())) {
        Ok(context) => assert!(!context.has_tray()),
        Err(failure) => panic!("there was no tray to create, yet: {:?}", failure),
    }
}

#[test]
fn close_request_hides_to_tray_and_keeps_running() {
    let mut context = with_tray();
    let effects = context.dispatch(&AppEvent::CloseRequested);
    assert_eq!(effects, vec![Effect::HideWindow, Effect::PreventClose]);
    assert_eq!(context.visibility(), VisibilityState::Hidden);
    assert_eq!(context.lifecycle(), Lifecycle::Running);

    let effects = context.dispatch(&AppEvent::CloseRequested);
    assert_eq!(effects, vec![Effect::HideWindow, Effect::PreventClose]);
    assert_eq!(context.visibility(), VisibilityState::Hidden);
    assert_eq!(context.lifecycle(), Lifecycle::Running);
}

#[test]
fn close_request_without_a_tray_takes_its_default_course() {
    let mut context = without_tray();
    let effects = context.dispatch(&AppEvent::CloseRequested);
    assert_eq!(effects, none());
    assert_eq!(context.visibility(), VisibilityState::Visible);
    assert_eq!(context.lifecycle(), Lifecycle::Running);
}

#[test]
fn quit_exits_from_a_visible_window() {
    let mut context = with_tray();
    let effects = context.dispatch(&menu("quit"));
    assert_eq!(effects, vec![Effect::Exit(0)]);
    assert_eq!(context.lifecycle(), Lifecycle::Exited(0));
    assert_eq!(context.visibility(), VisibilityState::Visible);
}

#[test]
fn quit_exits_from_a_hidden_window() {
    let mut context = with_tray();
    context.dispatch(&menu("hide"));
    let effects = context.dispatch(&menu("quit"));
    assert_eq!(effects, vec![Effect::Exit(0)]);
    assert_eq!(context.lifecycle(), Lifecycle::Exited(0));
    assert_eq!(context.visibility(), VisibilityState::Hidden);
}

#[test]
fn nothing_is_handled_after_quit() {
    let mut context = with_tray();
    context.dispatch(&menu("quit"));
    assert_eq!(context.dispatch(&menu("hide")), none());
    assert_eq!(context.dispatch(&AppEvent::CloseRequested), none());
    assert_eq!(context.dispatch(&click()), none());
    assert_eq!(context.dispatch(&AppEvent::VisibilityQueried(Ok(true))), none());
    assert_eq!(context.dispatch(&menu("quit")), none());
    assert_eq!(context.visibility(), VisibilityState::Visible);
    assert_eq!(context.lifecycle(), Lifecycle::Exited(0));
}

#[test]
fn menu_show_and_hide_reach_the_window() {
    let mut context = with_tray();
    assert_eq!(context.dispatch(&menu("hide")), vec![Effect::HideWindow]);
    assert_eq!(context.visibility(), VisibilityState::Hidden);
    assert_eq!(context.dispatch(&menu("show")), vec![Effect::ShowWindow, Effect::FocusWindow]);
    assert_eq!(context.visibility(), VisibilityState::Visible);
    assert_eq!(context.lifecycle(), Lifecycle::Running);
}

#[test]
fn repeated_menu_show_or_hide_is_a_no_op_on_state() {
    let mut context = with_tray();
    context.dispatch(&menu("hide"));
    context.dispatch(&menu("hide"));
    assert_eq!(context.visibility(), VisibilityState::Hidden);
    context.dispatch(&menu("show"));
    context.dispatch(&menu("show"));
    assert_eq!(context.visibility(), VisibilityState::Visible);
}

#[test]
fn primary_click_toggles_through_the_query() {
    let mut context = with_tray();
    assert_eq!(context.dispatch(&click()), vec![Effect::QueryVisibility]);
    assert_eq!(context.visibility(), VisibilityState::Visible);
    let effects = context.dispatch(&AppEvent::VisibilityQueried(Ok(true)));
    assert_eq!(effects, vec![Effect::HideWindow]);
    assert_eq!(context.visibility(), VisibilityState::Hidden);

    assert_eq!(context.dispatch(&click()), vec![Effect::QueryVisibility]);
    let effects = context.dispatch(&AppEvent::VisibilityQueried(Ok(false)));
    assert_eq!(effects, vec![Effect::ShowWindow, Effect::FocusWindow]);
    assert_eq!(context.visibility(), VisibilityState::Visible);
    assert_eq!(context.lifecycle(), Lifecycle::Running);
}

#[test]
fn primary_click_shows_when_the_query_fails() {
    let mut context = with_tray();
    context.dispatch(&menu("hide"));
    assert_eq!(context.dispatch(&click()), vec![Effect::QueryVisibility]);
    let effects = context.dispatch(&AppEvent::VisibilityQueried(Err(QueryFailure)));
    assert_eq!(effects, vec![Effect::ShowWindow, Effect::FocusWindow]);
    assert_eq!(context.visibility(), VisibilityState::Visible);

    assert_eq!(context.dispatch(&click()), vec![Effect::QueryVisibility]);
    let effects = context.dispatch(&AppEvent::VisibilityQueried(Err(QueryFailure)));
    assert_eq!(effects, vec![Effect::ShowWindow, Effect::FocusWindow]);
    assert_eq!(context.visibility(), VisibilityState::Visible);
}

#[test]
fn unrecognized_menu_ids_change_nothing() {
    let mut context = with_tray();
    for id in ["", "about", "QUIT", "show ", "hide-all"] {
        assert_eq!(context.dispatch(&menu(id)), none());
        assert_eq!(context.visibility(), VisibilityState::Visible);
        assert_eq!(context.lifecycle(), Lifecycle::Running);
    }
    context.dispatch(&menu("hide"));
    assert_eq!(context.dispatch(&menu("toggle")), none());
    assert_eq!(context.visibility(), VisibilityState::Hidden);
    assert_eq!(context.lifecycle(), Lifecycle::Running);
}

#[test]
fn non_primary_interactions_change_nothing() {
    let mut context = with_tray();
    let other = AppEvent::Tray(TrayEvent::IconOtherInteraction);
    assert_eq!(context.dispatch(&other), none());
    assert_eq!(context.visibility(), VisibilityState::Visible);
    context.dispatch(&menu("hide"));
    assert_eq!(context.dispatch(&other), none());
    assert_eq!(context.visibility(), VisibilityState::Hidden);
    assert_eq!(context.lifecycle(), Lifecycle::Running);
}

#[test]
fn without_a_tray_every_event_is_ignored() {
    let mut context = without_tray();
    assert_eq!(context.dispatch(&menu("quit")), none());
    assert_eq!(context.dispatch(&menu("hide")), none());
    assert_eq!(context.dispatch(&click()), none());
    assert_eq!(context.dispatch(&AppEvent::VisibilityQueried(Ok(true))), none());
    assert_eq!(context.visibility(), VisibilityState::Visible);
    assert_eq!(context.lifecycle(), Lifecycle::Running);
    assert!(!context.has_tray());
}

#[test]
fn a_session_of_events_runs_until_quit() {
    let mut context = with_tray();
    let events = vec![
        AppEvent::CloseRequested,
        click(),
        AppEvent::VisibilityQueried(Ok(false)),
        menu("hide"),
        AppEvent::Tray(TrayEvent::IconOtherInteraction),
        menu("nothing"),
        menu("show"),
        AppEvent::CloseRequested,
    ];
    let mut asked: Vec<Effect> = Vec::new();
    for event in &events {
        asked.extend(context.dispatch(event));
        assert_eq!(context.lifecycle(), Lifecycle::Running);
        assert!(context.has_tray());
    }
    assert_eq!(
        asked,
        vec![
            Effect::HideWindow,
            Effect::PreventClose,
            Effect::QueryVisibility,
            Effect::ShowWindow,
            Effect::FocusWindow,
            Effect::HideWindow,
            Effect::ShowWindow,
            Effect::FocusWindow,
            Effect::HideWindow,
            Effect::PreventClose,
        ]
    );
    assert_eq!(context.visibility(), VisibilityState::Hidden);
    assert_eq!(context.dispatch(&menu("quit")), vec![Effect::Exit(0)]);
    assert_eq!(context.lifecycle(), Lifecycle::Exited(0));
}

#[test]
fn events_clone_to_equal_events() {
    let events = vec![
        menu("quit"),
        click(),
        AppEvent::CloseRequested,
        AppEvent::VisibilityQueried(Ok(true)),
        AppEvent::VisibilityQueried(Err(QueryFailure)),
    ];
    for event in &events {
        assert_eq!(&event.clone(), event);
    }
}
