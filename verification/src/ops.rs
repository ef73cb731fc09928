//! Operational helpers: in-memory telemetry persistence.

use vstd::prelude::*;

use crate::errors::MinervaError;
use crate::events::similar_events;
use crate::events::SystemEvent;
use crate::telemetry::MatchTelemetry;

verus! {

/// An in-memory telemetry store: events and match records, in the
/// order they were recorded.
#[derive(Debug)]
pub struct TelemetryStore {
    events: Vec<SystemEvent>,
    matches: Vec<MatchTelemetry>,
}

impl TelemetryStore {
    /// The events recorded so far, oldest first.
    pub closed spec fn spec_events(&self) -> Seq<SystemEvent> {
        self.events@
    }

    /// The match records stored so far, oldest first.
    pub closed spec fn spec_matches(&self) -> Seq<MatchTelemetry> {
        self.matches@
    }

    /// An empty store.
    pub fn new() -> (r: TelemetryStore)
        ensures
            r.spec_events() == Seq::<SystemEvent>::empty(),
            r.spec_matches() == Seq::<MatchTelemetry>::empty(),
    {
        TelemetryStore { events: Vec::new(), matches: Vec::new() }
    }

    /// Appends one event to the store. Recording must succeed for a
    /// publication to count, and here it always does.
    pub fn record_event(&mut self, event: SystemEvent) -> (r: Result<(), MinervaError>)
        ensures
            r is Ok,
            final(self).spec_events() == old(self).spec_events().push(event),
            final(self).spec_matches() == old(self).spec_matches(),
    {
        self.events.push(event);
        Ok(())
    }

    /// Appends one match record.
    pub fn record_match(&mut self, telemetry: MatchTelemetry) -> (r: Result<(), MinervaError>)
        ensures
            r is Ok,
            final(self).spec_matches() == old(self).spec_matches().push(telemetry),
            final(self).spec_events() == old(self).spec_events(),
    {
        self.matches.push(telemetry);
        Ok(())
    }

    /// A copy of every event recorded so far.
    pub fn snapshot_events(&self) -> (r: Vec<SystemEvent>)
        ensures
            r@.len() == self.spec_events().len(),
            forall|i: int|
                0 <= i < r@.len() ==> similar_events(self.spec_events()[i], #[trigger] r@[i]),
    {
        let mut out: Vec<SystemEvent> = Vec::new();
        let n = self.events.len();
        let mut i: usize = 0;
        while i < n
            invariant
                i <= n,
                n == self.events@.len(),
                out@.len() == i,
                forall|j: int| 0 <= j < i ==> similar_events(self.events@[j], #[trigger] out@[j]),
            decreases n - i,
        {
            out.push(self.events[i].clone());
            i = i + 1;
        }
        out
    }
}

} // verus!
