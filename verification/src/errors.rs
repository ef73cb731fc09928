//! The unified error type covering every subsystem.

use vstd::prelude::*;

use crate::events::EventKind;

verus! {

/// One error variant per subsystem, each carrying a message; plus a
/// variant for an event of an unexpected kind on the bus.
#[derive(Debug)]
pub enum MinervaError {
    Configuration(String),
    Controller(String),
    Vision(String),
    Engine(String),
    Network(String),
    Orchestrator(String),
    Ops(String),
    Event(EventKind),
}

} // verus!
