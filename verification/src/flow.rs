//! The close flag: tells the frame orchestrator when the application should stop.

use vstd::prelude::*;

verus! {

/// A monotonic close flag. It starts cleared, can only be raised, and is
/// never reset.
pub struct Flow {
    should_close: bool,
}

impl View for Flow {
    type V = bool;

    /// Whether closing has been requested.
    closed spec fn view(&self) -> bool {
        self.should_close
    }
}

impl Flow {
    /// A flag that has not been raised.
    pub fn new() -> (flow: Self)
        ensures
            !flow@,
    {
        Flow { should_close: false }
    }

    /// Whether closing has been requested.
    pub fn should_close(&self) -> (closing: bool)
        ensures
            closing == self@,
    {
        self.should_close
    }

    /// Requests closing. Raising an already raised flag changes nothing.
    pub fn close(&mut self)
        ensures
            final(self)@,
    {
        self.should_close = true;
    }
}

impl Default for Flow {
    fn default() -> (flow: Self)
        ensures
            !flow@,
    {
        Flow::new()
    }
}

} // verus!
