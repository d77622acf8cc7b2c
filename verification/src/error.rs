//! The failures that the core reports.

use vstd::prelude::*;

verus! {

/// A failure that reaches a caller.
///
/// A failed visibility query is absent on purpose: it never leaves the window
/// controller, which treats the window as hidden instead.
#[derive(Debug, PartialEq, Eq)]
pub enum ErrorKind {
    /// The tray icon or its menu could not be built. Fatal: the application
    /// does not launch.
    SetupFailure(String),
    /// The notification service refused a request. Recoverable: the message
    /// goes back to whoever asked for the notification.
    NotificationFailed(String),
}

impl Clone for ErrorKind {
    fn clone(&self) -> (copy: Self)
        ensures
            copy == *self,
    {
        match self {
            ErrorKind::SetupFailure(message) => ErrorKind::SetupFailure(message.clone()),
            ErrorKind::NotificationFailed(message) => ErrorKind::NotificationFailed(message.clone()),
        }
    }
}

impl ErrorKind {
    /// The message that the failure carries.
    pub open spec fn spec_message(&self) -> Seq<char> {
        match self {
            ErrorKind::SetupFailure(message) => message@,
            ErrorKind::NotificationFailed(message) => message@,
        }
    }

    /// Whether the failure stops the launch.
    pub open spec fn spec_is_fatal(&self) -> bool {
        self is SetupFailure
    }

    /// The message that the failure carries, as the string handed to callers
    /// that take errors as text.
    pub fn message(&self) -> (message: String)
        ensures
            message@ == self.spec_message(),
    {
        match self {
            ErrorKind::SetupFailure(message) => message.clone(),
            ErrorKind::NotificationFailed(message) => message.clone(),
        }
    }

    /// Whether the failure stops the launch, as opposed to being handed back
    /// to the caller as data.
    pub fn is_fatal(&self) -> (fatal: bool)
        ensures
            fatal == self.spec_is_fatal(),
    {
        match self {
            ErrorKind::SetupFailure(_) => true,
            ErrorKind::NotificationFailed(_) => false,
        }
    }
}

} // verus!
