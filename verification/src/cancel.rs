//! The run's cancellation flag.
//!
//! An operator-issued interrupt is translated, outside the library, into
//! one call of `trigger`.  The flag is set at most meaningfully once and
//! never cleared: the copy loop polls it once per file and stops before
//! starting the next copy when it observes the flag set.

use vstd::prelude::*;

verus! {

/// A write-once, read-many stop flag.
pub struct CancelFlag {
    triggered: bool,
}

impl CancelFlag {
    /// Whether an interrupt has been recorded.
    pub closed spec fn is_triggered(&self) -> bool {
        self.triggered
    }

    /// A fresh flag: no interrupt seen yet.
    pub fn new() -> (f: Self)
        ensures
            !f.is_triggered(),
    {
        CancelFlag { triggered: false }
    }

    /// Records the interrupt.  A second call changes nothing — the flag
    /// has no way back, so further interrupts have no additional effect.
    pub fn trigger(&mut self)
        ensures
            final(self).is_triggered(),
    {
        self.triggered = true;
    }

    /// Non-blocking poll: reports exactly whether the interrupt was
    /// recorded.
    pub fn should_stop(&self) -> (b: bool)
        ensures
            b == self.is_triggered(),
    {
        self.triggered
    }
}

} // verus!
