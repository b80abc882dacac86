use vstd::prelude::*;

verus! {

/// A pure, stateless intent value produced by interpreting user input.
#[derive(Clone, Copy, Debug, PartialEq, Eq)]
pub enum Action {
    /// Stop the controller loop.
    Quit,
    /// Select the next tab, wrapping past the last one.
    NextTab,
    /// Select the previous tab, wrapping below the first one.
    PrevTab,
    /// Reserved: currently has no effect on the controller state.
    Refresh,
}

} // verus!
