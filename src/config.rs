use vstd::prelude::*;

verus! {

/// Run configuration, fixed before any listener starts.
#[derive(Clone, Copy, Debug, PartialEq, Eq, Structural)]
pub struct Args {
    /// Read key presses from the raw keyboard devices as well.
    pub global: bool,
    /// Let device key presses count only while the terminal has focus.
    pub only_focused: bool,
}

} // verus!
