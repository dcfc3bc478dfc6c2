//! A circular walk over the processors or machine slots, one attempt at a
//! time, for the global poll and for remote stealing.

use vstd::prelude::*;

use crate::routing::{rotate, rotation};

verus! {

/// Visits slots `start`, `start + 1`, ... of `len` slots, wrapping around,
/// each once; `step` counts the slots already left behind.
pub struct Walk {
    pub start: usize,
    pub step: usize,
    pub len: usize,
}

impl Walk {
    pub open spec fn wf(&self) -> bool {
        &&& 0 < self.len
        &&& self.start < self.len
        &&& self.step < self.len
    }

    /// The slot under visit.
    pub open spec fn at(&self) -> int {
        rotation(self.start as int, self.step as int, self.len as int)
    }

    /// A walk over `len` slots that begins at `start`.
    pub fn new(start: usize, len: usize) -> (r: Walk)
        requires
            start < len,
        ensures
            r.wf(),
            r == (Walk { start, step: 0, len }),
    {
        Walk { start, step: 0, len }
    }

    /// The slot under visit.
    pub fn current(&self) -> (r: usize)
        requires
            self.wf(),
        ensures
            r < self.len,
            r == self.at(),
    {
        rotate(self.start, self.step, self.len)
    }

    /// Moves on to the next slot; `false`, with the walk left as it was, when
    /// every slot has been visited.
    pub fn advance(&mut self) -> (r: bool)
        requires
            old(self).wf(),
        ensures
            final(self).wf(),
            r == (old(self).step + 1 < old(self).len),
            r ==> *final(self) == (Walk { step: (old(self).step + 1) as usize, ..*old(self) }),
            !r ==> *final(self) == *old(self),
    {
        if self.step + 1 < self.len {
            self.step = self.step + 1;
            true
        } else {
            false
        }
    }
}

} // verus!
