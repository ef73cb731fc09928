//! Telemetry value types: latency samples and engine metrics.

use vstd::prelude::*;

verus! {

/// Timing of one observe/decide/act cycle, in milliseconds.
#[derive(Debug, Clone, Copy, PartialEq, Eq, Structural)]
pub struct LatencySample {
    pub observation_ms: u64,
    pub decision_ms: u64,
    pub injection_ms: u64,
    pub total_ms: u64,
    /// Capture time in milliseconds since the Unix epoch.
    pub captured_at: i64,
}

/// Search statistics of one engine evaluation. `hashfull` is measured in
/// thousandths of a full table.
#[derive(Debug, Clone, Copy, PartialEq, Eq, Structural)]
pub struct EngineMetrics {
    pub nodes: u64,
    pub depth: u8,
    pub nps: u64,
    pub hashfull: u32,
}

impl Default for EngineMetrics {
    fn default() -> (r: EngineMetrics)
        ensures
            r.nodes == 0,
            r.depth == 0,
            r.nps == 0,
            r.hashfull == 0,
    {
        EngineMetrics { nodes: 0, depth: 0, nps: 0, hashfull: 0 }
    }
}

/// Everything recorded about one match.
#[derive(Debug, Clone)]
pub struct MatchTelemetry {
    pub latency_samples: Vec<LatencySample>,
    pub engine_history: Vec<EngineMetrics>,
    pub notes: Vec<String>,
}

impl Default for MatchTelemetry {
    fn default() -> (r: MatchTelemetry)
        ensures
            r.latency_samples@.len() == 0,
            r.engine_history@.len() == 0,
            r.notes@.len() == 0,
    {
        MatchTelemetry { latency_samples: Vec::new(), engine_history: Vec::new(), notes: Vec::new() }
    }
}

} // verus!
