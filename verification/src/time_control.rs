//! Time-control settings for a match.

use vstd::prelude::*;

verus! {

/// Named time-control families.
#[derive(Debug, Clone, Copy, PartialEq, Eq, Structural)]
pub enum TimeControlMode {
    Blitz,
    Rapid,
    Classic,
    Custom,
}

/// Base time, increment and an optional search-depth hint.
#[derive(Debug, Clone, Copy, PartialEq, Eq, Structural)]
pub struct TimeControl {
    pub mode: TimeControlMode,
    pub base_ms: u64,
    pub increment_ms: u64,
    pub max_depth_hint: Option<u8>,
}

impl TimeControl {
    /// The standard blitz setting: ten minutes, no increment, depth
    /// hint ten.
    pub fn blitz() -> (r: TimeControl)
        ensures
            r.mode == TimeControlMode::Blitz,
            r.base_ms == 600000,
            r.increment_ms == 0,
            r.max_depth_hint == Some(10u8),
    {
        TimeControl {
            mode: TimeControlMode::Blitz,
            base_ms: 10 * 60 * 1000,
            increment_ms: 0,
            max_depth_hint: Some(10),
        }
    }
}

} // verus!
