//! One-shot stop signals for cooperative cancellation. Each long-running
//! loop (event relay, frame pump) owns one; firing it is irreversible.

use vstd::prelude::*;

verus! {

/// A one-shot boolean stop signal. Once fired it stays fired.
#[derive(Clone, Copy, PartialEq, Eq, Structural, Debug)]
pub struct StopFlag {
    pub fired: bool,
}

impl StopFlag {
    /// A fresh signal that has not been fired.
    pub fn armed() -> (s: Self)
        ensures
            !s.fired,
    {
        StopFlag { fired: false }
    }

    /// Fire the signal. Idempotent: a fired signal stays fired.
    pub fn fire(&mut self)
        ensures
            final(self).fired,
    {
        self.fired = true;
    }

    /// Whether the signal has been fired.
    pub fn is_fired(&self) -> (b: bool)
        ensures
            b == self.fired,
    {
        self.fired
    }
}

} // verus!
