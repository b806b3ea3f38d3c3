use std::sync::atomic::{AtomicBool, Ordering};
use std::sync::Arc;
use vstd::prelude::*;

verus! {

/// The two control flags as one listener observed them at one moment.
#[derive(Clone, Copy, Debug, PartialEq, Eq, Structural)]
pub struct Control {
    /// Set once the quit key was accepted; never cleared.
    pub quitting: bool,
    /// Whether the terminal window currently has input focus.
    pub focused: bool,
}

impl Control {
    /// The flags at startup: not quitting, focused.
    pub fn initial() -> (r: Control)
        ensures
            r == (Control { quitting: false, focused: true }),
    {
        Control { quitting: false, focused: true }
    }
}

/// The control flags shared by the listeners and the dispatcher, as two
/// independent atomic cells. Their values are written concurrently, so no
/// contract here says what a read returns.
pub struct SharedControl {
    pub quitting: Arc<AtomicBool>,
    pub focused: Arc<AtomicBool>,
}

impl SharedControl {
    /// Fresh cells holding the startup flags.
    pub fn new() -> (r: SharedControl) {
        let init = Control::initial();
        SharedControl {
            quitting: Arc::new(AtomicBool::new(init.quitting)),
            focused: Arc::new(AtomicBool::new(init.focused)),
        }
    }

    /// Reads both cells.
    pub fn snapshot(&self) -> (r: Control) {
        Control {
            quitting: self.quitting.load(Ordering::SeqCst),
            focused: self.focused.load(Ordering::SeqCst),
        }
    }

    /// Writes the flags that changed between `before` and `after`, so that a
    /// listener never overwrites a cell it did not decide on.
    pub fn publish(&self, before: Control, after: Control) {
        if after.quitting != before.quitting {
            self.quitting.store(after.quitting, Ordering::SeqCst);
        }
        if after.focused != before.focused {
            self.focused.store(after.focused, Ordering::SeqCst);
        }
    }
}

} // verus!
