//! Key bindings: which action a pressed character asks for.

use vstd::prelude::*;

verus! {

/// One of the two scratch buffers.
#[derive(Clone, Copy, Debug, PartialEq, Eq, Structural)]
pub enum Side {
    Left,
    Right,
}

/// What a key press asks the program to do.
#[derive(Clone, Copy, Debug, PartialEq, Eq, Structural)]
pub enum Action {
    /// Leave the program.
    Quit,
    /// Open the editor on one buffer.
    Edit(Side),
    /// Empty both buffers.
    Clear,
    /// Show the difference between the buffers.
    Diff,
    /// The key is not bound.
    Ignore,
}

/// The action bound to a character, as a mathematical function.
pub open spec fn bound_action(key: char) -> Action {
    if key == 'q' {
        Action::Quit
    } else if key == 'a' {
        Action::Edit(Side::Left)
    } else if key == 'b' {
        Action::Edit(Side::Right)
    } else if key == 'c' {
        Action::Clear
    } else if key == 'd' {
        Action::Diff
    } else {
        Action::Ignore
    }
}

/// The character bound to an action, if the action has a binding.
pub open spec fn binding(action: Action) -> Option<char> {
    match action {
        Action::Quit => Some('q'),
        Action::Edit(Side::Left) => Some('a'),
        Action::Edit(Side::Right) => Some('b'),
        Action::Clear => Some('c'),
        Action::Diff => Some('d'),
        Action::Ignore => None,
    }
}

/// Looks up the action bound to `key`. Bindings are fixed and case-sensitive.
pub fn action_for_key(key: char) -> (action: Action)
    ensures
        action == bound_action(key),
{
    match key {
        'q' => Action::Quit,
        'a' => Action::Edit(Side::Left),
        'b' => Action::Edit(Side::Right),
        'c' => Action::Clear,
        'd' => Action::Diff,
        _ => Action::Ignore,
    }
}

/// Every action other than `Ignore` has exactly one key: pressing the key
/// listed for an action yields that action, and no other key does.
pub proof fn bindings_are_unique(key: char, action: Action)
    requires
        action != Action::Ignore,
    ensures
        bound_action(key) == action <==> binding(action) == Some(key),
{
}

} // verus!
