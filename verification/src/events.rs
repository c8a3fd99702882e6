//! The event sink a host installs, and `publish`, which the memory code calls
//! in place of the host's bus.
//!
//! Before a host installs a sink — in unit tests, in the standalone engine,
//! during early startup — `publish` drops the event: the work being reported
//! has already happened, and no call site could do anything useful with an
//! error.

use vstd::prelude::*;

verus! {

/// Where memory-domain events go. Implemented by the host.
pub trait MemoryEventSink<E> {
    /// That this sink has been handed `event`.
    spec fn received(&self, event: E) -> bool;

    fn publish(&self, event: E)
        ensures
            self.received(event),
    ;
}

/// The slot holding the installed sink, if any.
pub struct EventSinkSlot<S> {
    pub sink: Option<S>,
}

impl<S> EventSinkSlot<S> {
    /// An empty slot: events are dropped.
    pub fn new() -> (r: Self)
        ensures
            r.sink is None,
    {
        EventSinkSlot { sink: None }
    }
}

/// Install the host's event sink; installing again replaces it.
pub fn set_event_sink<S>(slot: &mut EventSinkSlot<S>, sink: S)
    ensures
        final(slot).sink == Some(sink),
{
    slot.sink = Some(sink);
}

/// Remove any installed sink, returning to silent-drop behaviour.
pub fn clear_event_sink<S>(slot: &mut EventSinkSlot<S>)
    ensures
        final(slot).sink is None,
{
    slot.sink = None;
}

/// The installed sink, or `None` when no host has wired one up.
pub fn event_sink<S>(slot: &EventSinkSlot<S>) -> (r: Option<&S>)
    ensures
        r == match slot.sink {
            Some(s) => Some(&s),
            None => None::<&S>,
        },
{
    match &slot.sink {
        Some(s) => Some(s),
        None => None,
    }
}

/// Announce an event to the installed sink. Returns whether a sink received
/// it; with none installed the event is dropped.
pub fn publish<S: MemoryEventSink<E>, E>(slot: &EventSinkSlot<S>, event: E) -> (delivered: bool)
    ensures
        delivered == slot.sink is Some,
        slot.sink matches Some(s) ==> s.received(event),
{
    match &slot.sink {
        Some(sink) => {
            sink.publish(event);
            true
        },
        None => false,
    }
}

} // verus!
