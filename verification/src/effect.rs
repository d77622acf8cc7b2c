//! What the core asks the host's event loop to do.

use vstd::prelude::*;

verus! {

/// One call that the host makes on the core's behalf.
///
/// The window calls are best effort: the host discards their failures and the
/// core keeps the visibility it intended.
#[derive(Clone, Copy, Debug, PartialEq, Eq, Structural)]
pub enum Effect {
    /// Make the main window visible.
    ShowWindow,
    /// Give the main window the input focus.
    FocusWindow,
    /// Hide the main window.
    HideWindow,
    /// Suppress the default action of the close request being handled.
    PreventClose,
    /// Ask the windowing system whether the main window is visible, and hand
    /// the answer back: it decides what the pending toggle does.
    QueryVisibility,
    /// End the process at once with this exit code.
    Exit(i32),
}

/// The exit code that a list of effects asks for: that of its first
/// [`Effect::Exit`], if it holds one.
pub open spec fn requested_exit(effects: Seq<Effect>) -> Option<i32>
    decreases effects.len(),
{
    if effects.len() == 0 {
        None
    } else {
        match effects[0] {
            Effect::Exit(code) => Some(code),
            _ => requested_exit(effects.drop_first()),
        }
    }
}

/// The exit code that a list of effects asks for, if any.
pub fn exit_code(effects: &Vec<Effect>) -> (code: Option<i32>)
    ensures
        code == requested_exit(effects@),
{
    let mut i: usize = 0;
    assert(effects@.subrange(0, effects@.len() as int) =~= effects@);
    while i < effects.len()
        invariant
            i <= effects@.len(),
            requested_exit(effects@) == requested_exit(effects@.subrange(i as int, effects@.len() as int)),
        decreases effects@.len() - i,
    {
        assert(effects@.subrange(i as int, effects@.len() as int).drop_first()
            =~= effects@.subrange(i + 1, effects@.len() as int));
        match effects[i] {
            Effect::Exit(code) => {
                return Some(code);
            },
            _ => {},
        }
        i += 1;
    }
    None
}

} // verus!
