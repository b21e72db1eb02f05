//! Classification of input events into estimator actions.
//!
//! The input loop turns each terminal event into a `KeyInput` and asks
//! `handle_input` what to do with it; the decision itself is pure and
//! lives here so it can be verified and tested without a terminal.

use vstd::prelude::*;

verus! {

/// An input event, reduced to what the tempo loop distinguishes.
#[derive(Clone, Copy, Debug, PartialEq, Eq, Structural)]
pub enum KeyInput {
    /// A character key was hit.
    Character(char),
    /// The enter key was hit.
    Enter,
    /// The escape key was hit.
    Escape,
    /// Some other key was hit (an arrow, a function key).
    OtherKey,
    /// A non-key event occurred (a resize, a mouse movement).
    OtherEvent,
}

/// What the tempo loop does with one input event.
#[derive(Clone, Copy, Debug, PartialEq, Eq, Structural)]
pub enum Action {
    /// Leave the loop.
    Quit,
    /// Record a hit and report the tempo.
    RegisterHit,
    /// Wait for the next event.
    Ignore,
}

/// The action taken on an input: quit on `q` or escape, register a hit on
/// any other character or on enter, ignore everything else.
pub open spec fn action_for(k: KeyInput) -> Action {
    match k {
        KeyInput::Character(c) => if c == 'q' {
            Action::Quit
        } else {
            Action::RegisterHit
        },
        KeyInput::Enter => Action::RegisterHit,
        KeyInput::Escape => Action::Quit,
        KeyInput::OtherKey => Action::Ignore,
        KeyInput::OtherEvent => Action::Ignore,
    }
}

/// Classifies one input event: `q` and escape quit, any other character
/// and enter register a hit, anything else is ignored.
pub fn handle_input(k: KeyInput) -> (r: Action)
    ensures
        r == action_for(k),
{
    match k {
        KeyInput::Character(c) => {
            if c == 'q' {
                Action::Quit
            } else {
                Action::RegisterHit
            }
        },
        KeyInput::Enter => Action::RegisterHit,
        KeyInput::Escape => Action::Quit,
        KeyInput::OtherKey => Action::Ignore,
        KeyInput::OtherEvent => Action::Ignore,
    }
}

} // verus!
