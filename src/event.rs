//! The state of a latch: set, it lets every waiter through until cleared.
//! Waiting itself belongs to the runtime that drives the library.
use vstd::prelude::*;

verus! {

/// Whether the latch is set.
#[derive(Debug, Clone, Copy, PartialEq, Eq, Structural)]
pub struct EventInner(pub bool);

/// A latch.
#[derive(Debug, Clone, Copy, PartialEq, Eq, Structural)]
pub struct Event {
    pub state: EventInner,
}

/// The latch after `set`.
pub open spec fn after_set(e: Event) -> Event {
    Event { state: EventInner(true) }
}

/// The latch after `clear`.
pub open spec fn after_clear(e: Event) -> Event {
    Event { state: EventInner(false) }
}

impl Event {
    /// A latch that is not set.
    pub fn new() -> (r: Event)
        ensures
            !r.state.0,
    {
        Event { state: EventInner(false) }
    }

    /// Sets the latch: waiters now and later pass until it is cleared.
    pub fn set(&mut self)
        ensures
            *final(self) == after_set(*old(self)),
    {
        self.state = EventInner(true);
    }

    /// Clears the latch: later waiters block again.
    pub fn clear(&mut self)
        ensures
            *final(self) == after_clear(*old(self)),
    {
        self.state = EventInner(false);
    }

    /// Whether the latch is set.
    pub fn is_set(&self) -> (r: bool)
        ensures
            r == self.state.0,
    {
        self.state.0
    }

    /// Whether a waiter may pass now without blocking.
    pub fn wait_passes(&self) -> (r: bool)
        ensures
            r == self.state.0,
    {
        self.state.0
    }
}

impl Default for Event {
    fn default() -> (r: Event)
        ensures
            !r.state.0,
    {
        Event::new()
    }
}

/// Setting a set latch, or clearing a cleared one, changes nothing.
pub proof fn lemma_event_idempotent(e: Event)
    ensures
        after_set(after_set(e)) == after_set(e),
        after_clear(after_clear(e)) == after_clear(e),
        after_set(e).state.0,
        !after_clear(e).state.0,
{
}

} // verus!
