//! Event envelope published on the system's event bus.

use vstd::prelude::*;

use crate::game::GameSnapshot;
use crate::game::Move;
use crate::stamp::new_event_id;
use crate::stamp::now_millis;
use crate::telemetry::EngineMetrics;
use crate::telemetry::LatencySample;

verus! {

/// The kinds of message moving through the system; a closed enumeration.
#[derive(Debug, Clone, Copy, PartialEq, Eq, Structural)]
pub enum EventKind {
    Lifecycle,
    BoardUpdate,
    EngineDecision,
    Telemetry,
    Network,
    Ops,
}

/// Phase announced by a lifecycle event.
#[derive(Debug, Clone, Copy, PartialEq, Eq, Structural)]
pub enum LifecyclePhase {
    Boot,
    Ready,
    MatchStart,
    MatchEnd,
    Shutdown,
}

/// A lifecycle announcement with optional free-form details.
#[derive(Debug)]
pub struct LifecycleEvent {
    pub phase: LifecyclePhase,
    pub details: Option<String>,
}

impl Clone for LifecycleEvent {
    fn clone(&self) -> (r: LifecycleEvent)
        ensures
            r.phase == self.phase,
            r.details == self.details,
    {
        LifecycleEvent { phase: self.phase, details: clone_opt_string(&self.details) }
    }
}

/// A full board snapshot carried as an event.
#[derive(Debug)]
pub struct BoardEvent {
    pub snapshot: GameSnapshot,
}

impl Clone for BoardEvent {
    fn clone(&self) -> (r: BoardEvent)
        ensures
            r.snapshot.board.pieces@ == self.snapshot.board.pieces@,
            r.snapshot.ply == self.snapshot.ply,
    {
        BoardEvent { snapshot: self.snapshot.clone() }
    }
}

/// An engine decision carried as an event: its metrics and the candidate
/// line, best move first.
#[derive(Debug)]
pub struct EngineEvent {
    pub metrics: EngineMetrics,
    pub best_line: Vec<Move>,
}

impl Clone for EngineEvent {
    fn clone(&self) -> (r: EngineEvent)
        ensures
            r.metrics == self.metrics,
            r.best_line@ == self.best_line@,
    {
        let mut best_line: Vec<Move> = Vec::new();
        let n = self.best_line.len();
        let mut i: usize = 0;
        while i < n
            invariant
                i <= n,
                n == self.best_line@.len(),
                best_line@ == self.best_line@.take(i as int),
            decreases n - i,
        {
            best_line.push(self.best_line[i]);
            proof {
                assert(best_line@ =~= self.best_line@.take(i + 1));
            }
            i = i + 1;
        }
        proof {
            assert(self.best_line@.take(n as int) == self.best_line@);
        }
        EngineEvent { metrics: self.metrics, best_line }
    }
}

/// A latency observation carried as an event.
#[derive(Debug)]
pub struct TelemetryEvent {
    pub latency: Option<LatencySample>,
    pub notes: Option<String>,
}

impl Clone for TelemetryEvent {
    fn clone(&self) -> (r: TelemetryEvent)
        ensures
            r.latency == self.latency,
            r.notes == self.notes,
    {
        TelemetryEvent { latency: self.latency, notes: clone_opt_string(&self.notes) }
    }
}

/// A message relayed from the network layer; the payload is carried as
/// JSON text.
#[derive(Debug)]
pub struct NetworkEvent {
    pub topic: String,
    pub payload: String,
}

impl Clone for NetworkEvent {
    fn clone(&self) -> (r: NetworkEvent)
        ensures
            r.topic == self.topic,
            r.payload == self.payload,
    {
        NetworkEvent { topic: self.topic.clone(), payload: self.payload.clone() }
    }
}

/// An operational log line with tags.
#[derive(Debug)]
pub struct OpsEvent {
    pub message: String,
    pub tags: Vec<String>,
}

impl Clone for OpsEvent {
    fn clone(&self) -> (r: OpsEvent)
        ensures
            r.message == self.message,
            r.tags@ == self.tags@,
    {
        let mut tags: Vec<String> = Vec::new();
        let n = self.tags.len();
        let mut i: usize = 0;
        while i < n
            invariant
                i <= n,
                n == self.tags@.len(),
                tags@ == self.tags@.take(i as int),
            decreases n - i,
        {
            tags.push(self.tags[i].clone());
            proof {
                assert(tags@ =~= self.tags@.take(i + 1));
            }
            i = i + 1;
        }
        proof {
            assert(self.tags@.take(n as int) == self.tags@);
        }
        OpsEvent { message: self.message.clone(), tags }
    }
}

/// The payload of a system event; a closed tagged union.
#[derive(Debug)]
pub enum EventPayload {
    Lifecycle(LifecycleEvent),
    Board(BoardEvent),
    Engine(EngineEvent),
    Telemetry(TelemetryEvent),
    Network(NetworkEvent),
    Ops(OpsEvent),
    /// A payload of a kind this build does not know, kept as JSON text.
    Unknown(String),
}

impl Clone for EventPayload {
    /// A deep copy preserving the variant and its content.
    fn clone(&self) -> (r: EventPayload)
        ensures
            self matches EventPayload::Lifecycle(x) ==> (r matches EventPayload::Lifecycle(y)
                && x.phase == y.phase && x.details == y.details),
            self matches EventPayload::Board(x) ==> (r matches EventPayload::Board(y)
                && x.snapshot.board.pieces@ == y.snapshot.board.pieces@ && x.snapshot.ply
                == y.snapshot.ply),
            self matches EventPayload::Engine(x) ==> (r matches EventPayload::Engine(y)
                && x.metrics == y.metrics && x.best_line@ == y.best_line@),
            self matches EventPayload::Telemetry(x) ==> (r matches EventPayload::Telemetry(y)
                && x.latency == y.latency && x.notes == y.notes),
            self matches EventPayload::Network(x) ==> (r matches EventPayload::Network(y)
                && x.topic == y.topic && x.payload == y.payload),
            self matches EventPayload::Ops(x) ==> (r matches EventPayload::Ops(y) && x.message
                == y.message && x.tags@ == y.tags@),
            self matches EventPayload::Unknown(x) ==> (r matches EventPayload::Unknown(y) && x
                == y),
    {
        match self {
            EventPayload::Lifecycle(e) => EventPayload::Lifecycle(e.clone()),
            EventPayload::Board(e) => EventPayload::Board(e.clone()),
            EventPayload::Engine(e) => EventPayload::Engine(e.clone()),
            EventPayload::Telemetry(e) => EventPayload::Telemetry(e.clone()),
            EventPayload::Network(e) => EventPayload::Network(e.clone()),
            EventPayload::Ops(e) => EventPayload::Ops(e.clone()),
            EventPayload::Unknown(s) => EventPayload::Unknown(s.clone()),
        }
    }
}

/// An immutable event envelope for logging, networking and replay.
#[derive(Debug)]
pub struct SystemEvent {
    /// Random 128-bit identifier.
    pub id: u128,
    pub kind: EventKind,
    /// Creation time in milliseconds since the Unix epoch.
    pub timestamp: i64,
    pub payload: EventPayload,
}

impl Clone for SystemEvent {
    /// A deep copy: same envelope, same payload content.
    fn clone(&self) -> (r: SystemEvent)
        ensures
            similar_events(*self, r),
    {
        SystemEvent {
            id: self.id,
            kind: self.kind,
            timestamp: self.timestamp,
            payload: self.payload.clone(),
        }
    }
}

impl SystemEvent {
    /// Wraps a payload in a fresh envelope: a new random identifier and
    /// the current time.
    pub fn new(kind: EventKind, payload: EventPayload) -> (r: SystemEvent)
        ensures
            r.kind == kind,
            r.payload == payload,
    {
        SystemEvent { id: new_event_id(), kind, timestamp: now_millis(), payload }
    }
}

/// Whether `b` carries the same envelope and the same payload content
/// as `a`: equal identifier, kind, timestamp, and payload fields, with
/// buffers compared by contents.
pub open spec fn similar_events(a: SystemEvent, b: SystemEvent) -> bool {
    &&& a.id == b.id
    &&& a.kind == b.kind
    &&& a.timestamp == b.timestamp
    &&& match (a.payload, b.payload) {
        (EventPayload::Lifecycle(x), EventPayload::Lifecycle(y)) => x.phase == y.phase && x.details
            == y.details,
        (EventPayload::Board(x), EventPayload::Board(y)) => x.snapshot.board.pieces@
            == y.snapshot.board.pieces@ && x.snapshot.ply == y.snapshot.ply,
        (EventPayload::Engine(x), EventPayload::Engine(y)) => x.metrics == y.metrics
            && x.best_line@ == y.best_line@,
        (EventPayload::Telemetry(x), EventPayload::Telemetry(y)) => x.latency == y.latency
            && x.notes == y.notes,
        (EventPayload::Network(x), EventPayload::Network(y)) => x.topic == y.topic && x.payload
            == y.payload,
        (EventPayload::Ops(x), EventPayload::Ops(y)) => x.message == y.message && x.tags@
            == y.tags@,
        (EventPayload::Unknown(x), EventPayload::Unknown(y)) => x == y,
        _ => false,
    }
}

/// Copies an optional string.
fn clone_opt_string(s: &Option<String>) -> (r: Option<String>)
    ensures
        r == *s,
{
    match s {
        Some(x) => Some(x.clone()),
        None => None,
    }
}

} // verus!
