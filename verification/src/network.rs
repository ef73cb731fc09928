//! Realtime event publication: the server interface and an in-process
//! server.

use vstd::prelude::*;

use crate::errors::MinervaError;
use crate::events::SystemEvent;

verus! {

/// A realtime server accepts events for publication to subscribers.
/// The ghost `events` is the sequence accepted so far; delivery to
/// subscribers is best-effort and never blocks the publisher.
pub trait RealtimeServer: Sized {
    /// The events accepted for publication so far, oldest first. An
    /// implementation outside the verified world may leave this at its
    /// default, an empty record; nothing is then known of what it
    /// accepted.
    open spec fn events(&self) -> Seq<SystemEvent> {
        Seq::empty()
    }

    /// Starts the server; the events already accepted are kept.
    fn run(&mut self) -> (r: Result<(), MinervaError>)
        ensures
            final(self).events() == old(self).events(),
    ;

    /// Accepts one event for publication. On success exactly that
    /// event was appended; whatever happens, accepted events are never
    /// dropped.
    fn publish(&mut self, event: SystemEvent) -> (r: Result<(), MinervaError>)
        ensures
            old(self).events().is_prefix_of(final(self).events()),
            r is Ok ==> final(self).events() == old(self).events().push(event),
    ;
}

/// A server that publishes within the process: it retains the accepted
/// events in order; a send with no subscriber is quietly dropped, so
/// publication always succeeds.
#[derive(Debug)]
pub struct LocalServer {
    capacity: usize,
    sent: Vec<SystemEvent>,
}

impl LocalServer {
    /// A stopped server with the given subscriber-channel capacity.
    pub fn new(capacity: usize) -> (r: LocalServer)
        ensures
            r.events() == Seq::<SystemEvent>::empty(),
    {
        LocalServer { capacity, sent: Vec::new() }
    }
}

impl RealtimeServer for LocalServer {
    closed spec fn events(&self) -> Seq<SystemEvent> {
        self.sent@
    }

    /// Starting the in-process server needs no work.
    fn run(&mut self) -> (r: Result<(), MinervaError>)
        ensures
            r is Ok,
            final(self).events() == old(self).events(),
    {
        Ok(())
    }

    fn publish(&mut self, event: SystemEvent) -> (r: Result<(), MinervaError>)
        ensures
            r is Ok,
            final(self).events() == old(self).events().push(event),
    {
        self.sent.push(event);
        Ok(())
    }
}

} // verus!
