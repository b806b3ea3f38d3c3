use vstd::prelude::*;

verus! {

/// A request handed from an input listener to the dispatcher.
#[derive(Clone, Copy, Debug, PartialEq, Eq, Structural)]
pub enum Action {
    /// End the dispatch loop.
    Quit,
    /// Redraw the wall once.
    Render,
}

} // verus!
