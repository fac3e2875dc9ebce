//! Containers for event callbacks.
//!
//! The builder does not store callback bodies: a callback is identified
//! by a plain number that the surrounding program maps to the actual
//! function in its dispatch table.  An [`FnContainer`] pairs such an
//! identifier with the tag of the event it answers.

use vstd::prelude::*;
use crate::window::config::EventTag;

verus! {

/// Holds one registered callback: the event it answers and the
/// identifier under which the surrounding program knows it.
#[derive(Debug, Clone, Copy, PartialEq, Eq, Structural)]
pub struct FnContainer {
    /// The event this callback answers.
    pub event: EventTag,
    /// The callback's identifier in the program's dispatch table.
    pub cb: u64,
}

impl FnContainer {
    /// Wraps the callback `cb` for the event `event`.
    pub fn new(event: EventTag, cb: u64) -> (r: Self)
        ensures
            r == (FnContainer { event, cb }),
    {
        FnContainer { event, cb }
    }
}

/// An event a callback can be registered for.  Each event marker type
/// names its tag; the builder's generic registration method uses it to
/// label the container it stores.
pub trait Callback {
    /// The tag of this event.
    spec fn spec_tag() -> EventTag;

    /// The tag of this event.
    fn tag() -> (t: EventTag)
        ensures
            t == Self::spec_tag(),
    ;
}

} // verus!
