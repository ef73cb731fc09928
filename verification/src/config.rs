//! Configuration of every subsystem, with validation rules.

use vstd::prelude::*;

use crate::errors::MinervaError;
use crate::time_control::TimeControl;
use crate::ui::FormationPreset;

verus! {

/// Where and how to reach the emulated device.
#[derive(Debug, Clone)]
pub struct EmulatorConfig {
    pub serial: String,
    pub socket: String,
    pub fixed_resolution: Option<(u32, u32)>,
    pub adb_path: Option<String>,
}

/// Recognizer settings. `confidence_threshold` is in thousandths: 0
/// accepts nothing, 1000 accepts any match.
#[derive(Debug, Clone)]
pub struct VisionConfig {
    pub template_dir: String,
    pub confidence_threshold: u32,
    pub refresh_interval_ms: u64,
}

/// Decision-engine settings.
#[derive(Debug, Clone)]
pub struct EngineConfig {
    pub threads: usize,
    pub max_depth: u8,
    pub nnue_path: Option<String>,
}

/// Realtime-server settings.
#[derive(Debug, Clone)]
pub struct NetworkConfig {
    pub bind_addr: String,
    pub websocket_port: u16,
    pub auth_token: Option<String>,
}

/// Logging and telemetry settings.
#[derive(Debug, Clone)]
pub struct OpsConfig {
    pub log_level: String,
    pub telemetry_dir: String,
}

/// Orchestrator settings. `max_retries` is the number of turns a run
/// plays, not a retry count.
#[derive(Debug, Clone, Copy, PartialEq, Eq, Structural)]
pub struct OrchestratorConfig {
    pub time_control: TimeControl,
    pub max_retries: u8,
    pub formation: FormationPreset,
}

/// The whole configuration tree.
#[derive(Debug, Clone)]
pub struct MinervaConfig {
    pub emulator: EmulatorConfig,
    pub vision: VisionConfig,
    pub engine: EngineConfig,
    pub network: NetworkConfig,
    pub ops: OpsConfig,
    pub orchestrator: OrchestratorConfig,
}

impl MinervaConfig {
    /// Whether every validation rule holds.
    pub open spec fn spec_valid(self) -> bool {
        &&& self.engine.threads > 0
        &&& self.engine.max_depth > 0
        &&& self.vision.confidence_threshold <= 1000
        &&& self.network.websocket_port > 0
        &&& self.orchestrator.max_retries > 0
    }

    /// Checks the configuration's tunables, reporting the first rule
    /// violated: the engine needs at least one thread and a positive
    /// depth, the vision threshold must not exceed one thousand
    /// thousandths, the websocket port must be positive, and a match
    /// must play at least one turn.
    pub fn validate(&self) -> (r: Result<(), MinervaError>)
        ensures
            r is Ok <==> self.spec_valid(),
            self.engine.threads == 0 ==> (r matches Err(e) && e matches MinervaError::Configuration(
                m,
            ) && m@ == "engine.threads must be greater than zero"@),
            self.engine.threads > 0 && self.engine.max_depth == 0 ==> (r matches Err(e)
                && e matches MinervaError::Configuration(m) && m@
                == "engine.max_depth must be greater than zero"@),
            self.engine.threads > 0 && self.engine.max_depth > 0
                && self.vision.confidence_threshold > 1000 ==> (r matches Err(e)
                && e matches MinervaError::Configuration(m) && m@
                == "vision.confidence_threshold must be between 0 and 1000 thousandths"@),
            self.engine.threads > 0 && self.engine.max_depth > 0
                && self.vision.confidence_threshold <= 1000 && self.network.websocket_port == 0
                ==> (r matches Err(e) && e matches MinervaError::Configuration(m) && m@
                == "network.websocket_port must be a valid port (>0)"@),
            self.engine.threads > 0 && self.engine.max_depth > 0
                && self.vision.confidence_threshold <= 1000 && self.network.websocket_port > 0
                && self.orchestrator.max_retries == 0 ==> (r matches Err(e)
                && e matches MinervaError::Configuration(m) && m@
                == "orchestrator.max_retries must be greater than zero"@),
    {
        if self.engine.threads == 0 {
            return Err(
                MinervaError::Configuration("engine.threads must be greater than zero".to_owned()),
            );
        }
        if self.engine.max_depth == 0 {
            return Err(
                MinervaError::Configuration(
                    "engine.max_depth must be greater than zero".to_owned(),
                ),
            );
        }
        if self.vision.confidence_threshold > 1000 {
            return Err(
                MinervaError::Configuration(
                    "vision.confidence_threshold must be between 0 and 1000 thousandths".to_owned(),
                ),
            );
        }
        if self.network.websocket_port == 0 {
            return Err(
                MinervaError::Configuration(
                    "network.websocket_port must be a valid port (>0)".to_owned(),
                ),
            );
        }
        if self.orchestrator.max_retries == 0 {
            return Err(
                MinervaError::Configuration(
                    "orchestrator.max_retries must be greater than zero".to_owned(),
                ),
            );
        }
        Ok(())
    }
}

} // verus!
