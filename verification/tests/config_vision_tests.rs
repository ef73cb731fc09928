use minerva::board::PieceKind;
use minerva::board::PlayerSide;
use minerva::config::EmulatorConfig;
use minerva::config::EngineConfig;
use minerva::config::MinervaConfig;
use minerva::config::NetworkConfig;
use minerva::config::OpsConfig;
use minerva::config::OrchestratorConfig;
use minerva::config::VisionConfig;
use minerva::engine::engine_error;
use minerva::errors::MinervaError;
use minerva::orchestrator::orchestrator_error;
use minerva::time_control::TimeControl;
use minerva::time_control::TimeControlMode;
use minerva::ui::FormationPreset;
use minerva::vision::compute_cell_half_sizes;
use minerva::vision::parse_label;
use minerva::vision::vision_error;

#[test]
fn validate_configuration_rules() {
    let mut config = MinervaConfig {
        emulator: EmulatorConfig {
            serial: "device".into(),
            socket: "device".into(),
            fixed_resolution: None,
            adb_path: None,
        },
        vision: VisionConfig {
            template_dir: "templates".into(),
            confidence_threshold: 500,
            refresh_interval_ms: 250,
        },
        engine: EngineConfig {
            threads: 0,
            max_depth: 1,
            nnue_path: None,
        },
        network: NetworkConfig {
            bind_addr: "0.0.0.0".into(),
            websocket_port: 3000,
            auth_token: None,
        },
        ops: OpsConfig {
            log_level: "info".into(),
            telemetry_dir: "telemetry".into(),
        },
        orchestrator: OrchestratorConfig {
            time_control: TimeControl::blitz(),
            max_retries: 1,
            formation: FormationPreset::default(),
        },
    };

    assert!(config.validate().is_err());
    config.engine.threads = 2;
    config.engine.max_depth = 0;
    assert!(config.validate().is_err());
    config.engine.max_depth = 4;
    config.vision.confidence_threshold = 1500;
    assert!(config.validate().is_err());
    config.vision.confidence_threshold = 900;
    config.network.websocket_port = 0;
    assert!(config.validate().is_err());
    config.network.websocket_port = 3000;
    config.orchestrator.max_retries = 0;
    assert!(config.validate().is_err());
    config.orchestrator.max_retries = 1;
    assert!(config.validate().is_ok());
}

#[test]
fn validation_reports_configuration_errors() {
    let config = MinervaConfig {
        emulator: EmulatorConfig {
            serial: "device".into(),
            socket: "device".into(),
            fixed_resolution: None,
            adb_path: None,
        },
        vision: VisionConfig {
            template_dir: "templates".into(),
            confidence_threshold: 500,
            refresh_interval_ms: 250,
        },
        engine: EngineConfig { threads: 0, max_depth: 1, nnue_path: None },
        network: NetworkConfig {
            bind_addr: "0.0.0.0".into(),
            websocket_port: 3000,
            auth_token: None,
        },
        ops: OpsConfig { log_level: "info".into(), telemetry_dir: "telemetry".into() },
        orchestrator: OrchestratorConfig {
            time_control: TimeControl::blitz(),
            max_retries: 1,
            formation: FormationPreset::default(),
        },
    };
    match config.validate() {
        Err(MinervaError::Configuration(m)) => {
            assert_eq!(m, "engine.threads must be greater than zero");
        }
        other => panic!("expected a configuration error, got {:?}", other),
    }
}

#[test]
fn blitz_time_control_values() {
    let tc = TimeControl::blitz();
    assert!(matches!(tc.mode, TimeControlMode::Blitz));
    assert_eq!(tc.base_ms, 600_000);
    assert_eq!(tc.increment_ms, 0);
    assert_eq!(tc.max_depth_hint, Some(10));
}

#[test]
fn parse_label_accepts_owner_kind_pairs() {
    assert_eq!(
        parse_label("blue_soldier"),
        Some((PlayerSide::Blue, PieceKind::Soldier))
    );
    assert_eq!(
        parse_label("red_chariot"),
        Some((PlayerSide::Red, PieceKind::Chariot))
    );
    assert_eq!(
        parse_label("blue_general"),
        Some((PlayerSide::Blue, PieceKind::General))
    );
}

#[test]
fn parse_label_rejects_malformed_names() {
    assert!(parse_label("").is_none());
    assert!(parse_label("blue").is_none());
    assert!(parse_label("green_soldier").is_none());
    assert!(parse_label("blue_dragon").is_none());
    assert!(parse_label("blue_soldier_extra").is_none());
    assert!(parse_label("Blue_Soldier").is_none());
}

#[test]
fn cell_half_sizes_follow_grid_spacing() {
    assert_eq!(compute_cell_half_sizes(), (36, 32));
}

#[test]
fn subsystem_error_constructors_tag_their_subsystem() {
    assert!(matches!(engine_error("boom"), MinervaError::Engine(m) if m == "boom"));
    assert!(matches!(vision_error("blur"), MinervaError::Vision(m) if m == "blur"));
    assert!(matches!(
        orchestrator_error("stall"),
        MinervaError::Orchestrator(m) if m == "stall"
    ));
}
