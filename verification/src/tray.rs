//! The tray icon, its fixed menu, and what its events ask for.

use crate::effect::Effect;
use crate::error::ErrorKind;
use crate::text::str_eq;
use crate::visibility::{effects_of, VisibilityState, WindowOp, WindowVisibilityController};
use vstd::prelude::*;

verus! {

/// The id under which the tray icon is registered.
pub const TRAY_ID: &'static str = "main";

/// The id of the menu entry that shows the window.
pub const SHOW_ID: &'static str = "show";

/// The id of the menu entry that hides the window.
pub const HIDE_ID: &'static str = "hide";

/// The id of the menu entry that ends the process.
pub const QUIT_ID: &'static str = "quit";

/// The exit code of a process ended from the tray menu.
pub const QUIT_EXIT_CODE: i32 = 0;

/// One entry of the tray menu.
#[derive(Debug, PartialEq, Eq)]
pub struct TrayMenuItem {
    pub id: String,
    pub label: String,
    pub enabled: bool,
}

impl Clone for TrayMenuItem {
    fn clone(&self) -> (copy: Self)
        ensures
            copy == *self,
    {
        TrayMenuItem { id: self.id.clone(), label: self.label.clone(), enabled: self.enabled }
    }
}

/// A menu entry as plain text.
pub struct TrayMenuItemView {
    pub id: Seq<char>,
    pub label: Seq<char>,
    pub enabled: bool,
}

impl View for TrayMenuItem {
    type V = TrayMenuItemView;

    open spec fn view(&self) -> TrayMenuItemView {
        TrayMenuItemView { id: self.id@, label: self.label@, enabled: self.enabled }
    }
}

/// The entries of a menu as plain text, in order.
pub open spec fn menu_view(items: Seq<TrayMenuItem>) -> Seq<TrayMenuItemView> {
    items.map_values(|item: TrayMenuItem| item@)
}

/// The tray menu: show, hide and quit, in this order, all enabled.
pub open spec fn spec_tray_menu() -> Seq<TrayMenuItemView> {
    seq![
        TrayMenuItemView { id: SHOW_ID@, label: "Show"@, enabled: true },
        TrayMenuItemView { id: HIDE_ID@, label: "Hide"@, enabled: true },
        TrayMenuItemView { id: QUIT_ID@, label: "Quit"@, enabled: true },
    ]
}

/// The entries that the host creates for the tray menu.
pub fn tray_menu() -> (items: Vec<TrayMenuItem>)
    ensures
        menu_view(items@) == spec_tray_menu(),
{
    let mut items: Vec<TrayMenuItem> = Vec::new();
    items.push(TrayMenuItem { id: SHOW_ID.to_owned(), label: "Show".to_owned(), enabled: true });
    items.push(TrayMenuItem { id: HIDE_ID.to_owned(), label: "Hide".to_owned(), enabled: true });
    items.push(TrayMenuItem { id: QUIT_ID.to_owned(), label: "Quit".to_owned(), enabled: true });
    assert(menu_view(items@) =~= spec_tray_menu());
    items
}

/// Something that happened to the tray icon or its menu.
#[derive(Debug, PartialEq, Eq)]
pub enum TrayEvent {
    /// The menu entry with this id was selected.
    MenuSelected(String),
    /// The icon was clicked with the primary button.
    IconPrimaryClick,
    /// Any other interaction with the icon: a secondary click, a drag, the
    /// pointer passing over it.
    IconOtherInteraction,
}

impl Clone for TrayEvent {
    fn clone(&self) -> (copy: Self)
        ensures
            copy == *self,
    {
        match self {
            TrayEvent::MenuSelected(id) => TrayEvent::MenuSelected(id.clone()),
            TrayEvent::IconPrimaryClick => TrayEvent::IconPrimaryClick,
            TrayEvent::IconOtherInteraction => TrayEvent::IconOtherInteraction,
        }
    }
}

/// What a menu entry stands for.
#[derive(Clone, Copy, Debug, PartialEq, Eq, Structural)]
pub enum MenuAction {
    Show,
    Hide,
    Quit,
    /// The id belongs to no entry of the tray menu.
    Ignore,
}

/// The action behind a menu id.
pub open spec fn spec_menu_action(id: Seq<char>) -> MenuAction {
    if id == QUIT_ID@ {
        MenuAction::Quit
    } else if id == HIDE_ID@ {
        MenuAction::Hide
    } else if id == SHOW_ID@ {
        MenuAction::Show
    } else {
        MenuAction::Ignore
    }
}

/// The action behind a menu id.
pub fn menu_action(id: &str) -> (action: MenuAction)
    ensures
        action == spec_menu_action(id@),
{
    if str_eq(id, QUIT_ID) {
        MenuAction::Quit
    } else if str_eq(id, HIDE_ID) {
        MenuAction::Hide
    } else if str_eq(id, SHOW_ID) {
        MenuAction::Show
    } else {
        MenuAction::Ignore
    }
}

/// Each entry of the tray menu stands for its own action: the three ids are
/// pairwise different, and no entry of the menu is ignored.
pub proof fn lemma_menu_ids()
    ensures
        spec_menu_action(SHOW_ID@) == MenuAction::Show,
        spec_menu_action(HIDE_ID@) == MenuAction::Hide,
        spec_menu_action(QUIT_ID@) == MenuAction::Quit,
        forall|i: int|
            0 <= i < spec_tray_menu().len() ==> spec_menu_action(#[trigger] spec_tray_menu()[i].id)
                != MenuAction::Ignore,
{
    reveal_strlit("show");
    reveal_strlit("hide");
    reveal_strlit("quit");
    assert(SHOW_ID@[0] != HIDE_ID@[0]);
    assert(SHOW_ID@[0] != QUIT_ID@[0]);
    assert(HIDE_ID@[0] != QUIT_ID@[0]);
}

/// What carrying out a menu action does to the window's visibility, and the
/// calls it asks of the host. Quitting ends the process without hiding the
/// window first.
pub open spec fn menu_outcome(action: MenuAction, state: VisibilityState) -> (
    VisibilityState,
    Seq<Effect>,
) {
    match action {
        MenuAction::Show => (state.after(WindowOp::Show), effects_of(WindowOp::Show)),
        MenuAction::Hide => (state.after(WindowOp::Hide), effects_of(WindowOp::Hide)),
        MenuAction::Quit => (state, seq![Effect::Exit(QUIT_EXIT_CODE)]),
        MenuAction::Ignore => (state, Seq::empty()),
    }
}

/// The calls that an interaction with the icon asks of the host: a primary
/// click asks for the visibility query that starts a toggle, anything else
/// for nothing.
pub open spec fn icon_effects(event: TrayEvent) -> Seq<Effect> {
    match event {
        TrayEvent::IconPrimaryClick => seq![Effect::QueryVisibility],
        _ => Seq::empty(),
    }
}

/// Whether a tray event selects the quit entry of the menu.
pub open spec fn selects_quit(event: TrayEvent) -> bool {
    event matches TrayEvent::MenuSelected(id) && spec_menu_action(id@) == MenuAction::Quit
}

/// What a tray event does to the window's visibility, and the calls it asks
/// of the host: a menu selection is carried out, an interaction with the
/// icon leaves the window alone.
pub open spec fn tray_outcome(event: TrayEvent, state: VisibilityState) -> (
    VisibilityState,
    Seq<Effect>,
) {
    match event {
        TrayEvent::MenuSelected(id) => menu_outcome(spec_menu_action(id@), state),
        _ => (state, icon_effects(event)),
    }
}

/// The tray icon with its menu, fixed for the life of the process.
pub struct TrayIconController {
    items: Vec<TrayMenuItem>,
}

impl View for TrayIconController {
    type V = Seq<TrayMenuItemView>;

    /// The menu that the tray holds.
    closed spec fn view(&self) -> Seq<TrayMenuItemView> {
        menu_view(self.items@)
    }
}

impl TrayIconController {
    #[verifier::type_invariant]
    spec fn holds_tray_menu(&self) -> bool {
        self@ == spec_tray_menu()
    }

    /// The controller of a tray that the host has tried to create from
    /// [`tray_menu`] under [`TRAY_ID`]. A failure to create any part of it is
    /// a setup failure with the host's message.
    pub fn build(created: Result<(), String>) -> (built: Result<TrayIconController, ErrorKind>)
        ensures
            created is Ok <==> built is Ok,
            built matches Ok(tray) ==> tray@ == spec_tray_menu(),
            created matches Err(message) ==> built matches Err(failure) && failure
                == ErrorKind::SetupFailure(message),
    {
        match created {
            Ok(()) => Ok(TrayIconController { items: tray_menu() }),
            Err(message) => Err(ErrorKind::SetupFailure(message)),
        }
    }

    /// The entries of the menu, which never change.
    pub fn menu_items(&self) -> (items: &Vec<TrayMenuItem>)
        ensures
            menu_view(items@) == self@,
            self@ == spec_tray_menu(),
    {
        proof {
            use_type_invariant(self);
        }
        &self.items
    }

    /// Carries out the menu entry with the given id on the window.
    pub fn on_menu_event(
        &self,
        id: &str,
        window: &mut WindowVisibilityController,
    ) -> (effects: Vec<Effect>)
        ensures
            (final(window)@, effects@) == menu_outcome(spec_menu_action(id@), old(window)@),
    {
        match menu_action(id) {
            MenuAction::Show => window.show(),
            MenuAction::Hide => window.hide_window(),
            MenuAction::Quit => {
                let mut effects: Vec<Effect> = Vec::new();
                effects.push(Effect::Exit(QUIT_EXIT_CODE));
                effects
            },
            MenuAction::Ignore => Vec::new(),
        }
    }

    /// Routes a tray event: a menu selection to [`Self::on_menu_event`],
    /// anything else to [`Self::on_tray_icon_event`].
    pub fn dispatch(
        &self,
        event: &TrayEvent,
        window: &mut WindowVisibilityController,
    ) -> (effects: Vec<Effect>)
        ensures
            (final(window)@, effects@) == tray_outcome(*event, old(window)@),
    {
        match event {
            TrayEvent::MenuSelected(id) => self.on_menu_event(id.as_str(), window),
            _ => self.on_tray_icon_event(event),
        }
    }

    /// Reacts to an interaction with the icon. The window is not touched: a
    /// primary click only asks the host for the visibility query, whose
    /// answer goes to [`WindowVisibilityController::toggle`].
    pub fn on_tray_icon_event(&self, event: &TrayEvent) -> (effects: Vec<Effect>)
        ensures
            effects@ == icon_effects(*event),
    {
        let mut effects: Vec<Effect> = Vec::new();
        match event {
            TrayEvent::IconPrimaryClick => {
                effects.push(Effect::QueryVisibility);
            },
            _ => {},
        }
        effects
    }
}

} // verus!
