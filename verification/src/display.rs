//! The CPU-side presentation toggle of the double-buffer variant.
//!
//! The frame driver swaps which texture the visible sprite shows once per
//! simulation tick. This counter and the node's internal parity advance
//! independently: they share period two, but no synchronization ties them
//! together, and the source of truth for each is its own subsystem. That
//! decoupling is kept deliberately; under frame drops or extraction skew
//! the two may visibly desync.

use vstd::prelude::*;

verus! {

/// Which of the two texture slots the sprite currently displays.
#[derive(Clone, Copy, PartialEq, Eq, Structural, Debug)]
pub struct DisplayToggle {
    pub shown: u32,
}

impl DisplayToggle {
    /// The toggle is a counter modulo two.
    pub open spec fn wf(self) -> bool {
        self.shown < 2
    }

    /// The sprite starts out showing slot 0.
    pub fn new() -> (r: DisplayToggle)
        ensures
            r.shown == 0,
            r.wf(),
    {
        DisplayToggle { shown: 0 }
    }

    /// One simulation tick: the sprite swaps to the other slot.
    pub fn toggle(&mut self)
        requires
            old(self).wf(),
        ensures
            final(self).wf(),
            final(self).shown == if old(self).shown == 0 {
                1int
            } else {
                0int
            },
            final(self).shown != old(self).shown,
    {
        self.shown = if self.shown == 0 {
            1
        } else {
            0
        };
    }
}

} // verus!
