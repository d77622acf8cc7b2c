//! The commands that the embedded user interface can call. Each stands alone;
//! none depends on another having run.

use crate::notification::NotificationRequest;
use vstd::prelude::*;
use vstd::string::StringExecFns;

verus! {

/// What a greeting opens with.
pub const GREETING_OPENING: &'static str = "Hello, ";

/// What a greeting closes with.
pub const GREETING_CLOSING: &'static str = "! You've been greeted from Rust!";

/// The greeting for a name: the name between the opening and the closing.
pub open spec fn spec_greet(name: Seq<char>) -> Seq<char> {
    GREETING_OPENING@ + name + GREETING_CLOSING@
}

/// Greets `name`. Any string is a valid name.
pub fn greet(name: &str) -> (greeting: String)
    ensures
        greeting@ == spec_greet(name@),
{
    let mut greeting = String::from_str(GREETING_OPENING);
    greeting.append(name);
    greeting.append(GREETING_CLOSING);
    greeting
}

/// A greeting holds its name, right after the opening, and nothing but the
/// name decides it: two greetings are equal exactly when their names are.
pub proof fn lemma_greeting_holds_name(name: Seq<char>, other: Seq<char>)
    ensures
        spec_greet(name).len() == GREETING_OPENING@.len() + name.len() + GREETING_CLOSING@.len(),
        spec_greet(name).subrange(
            GREETING_OPENING@.len() as int,
            (GREETING_OPENING@.len() + name.len()) as int,
        ) == name,
        spec_greet(name) == spec_greet(other) <==> name == other,
{
    let start = GREETING_OPENING@.len() as int;
    assert(spec_greet(name).subrange(start, start + name.len()) =~= name);
    assert(spec_greet(other).subrange(start, start + other.len()) =~= other);
}

/// Starts the notification command: the request that the host submits to the
/// notification service. The command ends when the host hands the service's
/// answer to [`NotificationRequest::resolve`].
pub fn show_notification(title: String, body: String) -> (request: NotificationRequest)
    ensures
        request.title == title,
        request.body == body,
{
    NotificationRequest { title, body }
}

/// What the host is: the operating system, the processor architecture, and
/// whether the code runs natively.
#[derive(Debug, PartialEq, Eq)]
pub struct PlatformInfo {
    pub platform: String,
    pub arch: String,
    pub is_native: bool,
}

impl Clone for PlatformInfo {
    fn clone(&self) -> (copy: Self)
        ensures
            copy == *self,
    {
        PlatformInfo {
            platform: self.platform.clone(),
            arch: self.arch.clone(),
            is_native: self.is_native,
        }
    }
}

/// Describes the host, given the names under which the running process knows
/// its operating system and its architecture. This host always runs natively.
pub fn get_platform_info(platform: &str, arch: &str) -> (info: PlatformInfo)
    ensures
        info.platform@ == platform@,
        info.arch@ == arch@,
        info.is_native,
{
    PlatformInfo { platform: platform.to_owned(), arch: arch.to_owned(), is_native: true }
}

} // verus!
