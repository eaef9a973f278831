//! Publication of the established handle.
//!
//! The registry is the single globally reachable slot for the storage
//! handle: empty until the protocol succeeds, filled exactly once, and
//! read-only afterwards. A consumer that asks before publication receives
//! nothing — never a partially initialized handle.

use vstd::prelude::*;

verus! {

/// A lazily populated slot for the one connection handle of the process.
pub struct HandleRegistry<H> {
    handle: Option<H>,
}

impl<H> HandleRegistry<H> {
    /// The slot's content.
    pub closed spec fn handle_spec(self) -> Option<H> {
        self.handle
    }

    /// Whether a handle has been published.
    pub open spec fn is_published(self) -> bool {
        self.handle_spec() is Some
    }

    /// An empty registry: nothing published yet.
    pub fn new() -> (r: HandleRegistry<H>)
        ensures
            !r.is_published(),
    {
        HandleRegistry { handle: None }
    }

    /// Publish the handle. Publication is single-shot: a filled registry
    /// admits no second publish.
    pub fn publish(&mut self, handle: H)
        requires
            !old(self).is_published(),
        ensures
            final(self).is_published(),
            final(self).handle_spec() == Some(handle),
    {
        self.handle = Some(handle);
    }

    /// The published handle, or `None` while nothing has been published.
    pub fn try_get(&self) -> (r: Option<&H>)
        ensures
            r is Some <==> self.is_published(),
            r matches Some(h) ==> Some(*h) == self.handle_spec(),
    {
        self.handle.as_ref()
    }
}

} // verus!
