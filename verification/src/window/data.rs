//! Plain data shared between the builder and the event loop.

use vstd::prelude::*;

verus! {

/// An event that the library itself sends through the collaborator's
/// event loop.
#[derive(Debug, Clone, Copy, PartialEq, Eq, Structural)]
pub enum UserEvent {
    /// Close the window: only the exit callback runs after this event.
    Close,
}

/// A plain stand-in for a reference to the collaborator's window object:
/// an address-like handle, never zero.
pub struct WinitRef {
    handle: usize,
}

impl WinitRef {
    /// The address held.
    pub closed spec fn addr(&self) -> usize {
        self.handle
    }

    /// A nonzero address is held.
    pub open spec fn wf(&self) -> bool {
        self.addr() != 0
    }

    /// Wraps a window address.
    pub fn new(handle: usize) -> (r: Self)
        requires
            handle != 0,
        ensures
            r.wf(),
            r.addr() == handle,
    {
        WinitRef { handle }
    }

    /// The wrapped window address.
    pub fn get(&self) -> (r: usize)
        ensures
            r == self.addr(),
    {
        self.handle
    }
}

} // verus!
