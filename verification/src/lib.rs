//! Verified core of a tray-resident desktop host.
//!
//! The host owns one main window and one tray icon. Closing the window hides
//! it to the tray, the tray menu shows or hides it or quits, and a primary
//! click on the icon toggles it. The embedded user interface can ask for a
//! greeting, a notification and the platform's name.
//!
//! Nothing in this crate talks to the operating system. Every handler takes a
//! plain event and returns the list of [`effect::Effect`]s that the host's
//! event loop has to carry out, so each decision has a contract and a proof.
//!
//! A host drives the core like this:
//!
//! 1. At startup it creates the tray from [`tray::tray_menu`] where the
//!    desktop has one, and hands the outcome to
//!    [`context::AppContext::launch`].
//! 2. It turns each event of the operating system into a
//!    [`context::AppEvent`], hands it to [`context::AppContext::dispatch`]
//!    and carries out the effects that come back, in order.
//! 3. It answers the commands of the user interface through [`commands`].
//!
//! The modules:
//!
//! - [`visibility`]: the window controller, a state machine over
//!   [`visibility::VisibilityState`].
//! - [`tray`]: the tray menu and what its events ask for.
//! - [`context`]: the application context and its transition function.
//! - [`commands`] and [`notification`]: the command surface.
//! - [`effect`], [`error`], [`text`]: what the others share.

pub mod commands;
pub mod context;
pub mod effect;
pub mod error;
pub mod notification;
pub mod text;
pub mod tray;
pub mod visibility;
