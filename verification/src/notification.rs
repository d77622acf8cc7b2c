//! The pure half of the notification service adapter: the request that goes
//! to the operating system, and what its answer means to the caller.

use crate::error::ErrorKind;
use vstd::prelude::*;

verus! {

/// A notification to hand to the operating system's notification service.
#[derive(Debug, PartialEq, Eq)]
pub struct NotificationRequest {
    pub title: String,
    pub body: String,
}

impl Clone for NotificationRequest {
    fn clone(&self) -> (copy: Self)
        ensures
            copy == *self,
    {
        NotificationRequest { title: self.title.clone(), body: self.body.clone() }
    }
}

/// What the answer of the notification service means to the caller: an
/// acknowledgment is success, and a failure is handed back with its message.
pub open spec fn spec_resolve(outcome: Result<(), String>) -> Result<(), ErrorKind> {
    match outcome {
        Ok(()) => Ok(()),
        Err(message) => Err(ErrorKind::NotificationFailed(message)),
    }
}

impl NotificationRequest {
    /// Ends the request with the answer of the notification service, where a
    /// failure to build or to submit the notification comes as its message.
    /// The request is used up: it resolves once.
    pub fn resolve(self, outcome: Result<(), String>) -> (reply: Result<(), ErrorKind>)
        ensures
            reply == spec_resolve(outcome),
    {
        match outcome {
            Ok(()) => Ok(()),
            Err(message) => Err(ErrorKind::NotificationFailed(message)),
        }
    }
}

} // verus!
