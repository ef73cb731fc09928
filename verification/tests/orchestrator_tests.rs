use minerva::board::BoardState;
use minerva::config::EmulatorConfig;
use minerva::config::OrchestratorConfig;
use minerva::controller::MockController;
use minerva::engine::RuleBasedEngine;
use minerva::errors::MinervaError;
use minerva::events::EventKind;
use minerva::events::EventPayload;
use minerva::events::LifecyclePhase;
use minerva::game::GameSnapshot;
use minerva::network::LocalServer;
use minerva::ops::TelemetryStore;
use minerva::orchestrator::MatchRunner;
use minerva::orchestrator::Orchestrator;
use minerva::time_control::TimeControl;
use minerva::ui::FormationPreset;
use minerva::vision::BoardRecognizer;
use minerva::vision::ImageFrame;
use minerva::vision::RecognitionHints;

/// A recognizer that always reports the initial layout.
struct FixedRecognizer;

impl BoardRecognizer for FixedRecognizer {
    fn align_board(&self, _frame: &ImageFrame) -> Result<BoardState, MinervaError> {
        Ok(BoardState::initial())
    }

    fn recognize(
        &self,
        _frame: &ImageFrame,
        _hints: RecognitionHints,
    ) -> Result<GameSnapshot, MinervaError> {
        Ok(GameSnapshot::default())
    }
}

fn emulator_config() -> EmulatorConfig {
    EmulatorConfig {
        serial: "127.0.0.1:5555".to_string(),
        socket: "127.0.0.1:5555".to_string(),
        fixed_resolution: Some((1080, 1920)),
        adb_path: None,
    }
}

fn orchestrator_config(turns: u8) -> OrchestratorConfig {
    OrchestratorConfig {
        time_control: TimeControl::blitz(),
        max_retries: turns,
        formation: FormationPreset::MasangMasang,
    }
}

fn phase_of(payload: &EventPayload) -> Option<LifecyclePhase> {
    match payload {
        EventPayload::Lifecycle(l) => Some(l.phase),
        _ => None,
    }
}

#[test]
fn run_publishes_boot_start_three_decisions_end() {
    let mut orchestrator = Orchestrator::new(
        orchestrator_config(3),
        MockController::new(emulator_config()),
        FixedRecognizer,
        RuleBasedEngine::new(),
        LocalServer::new(64),
        TelemetryStore::new(),
    );
    orchestrator.boot().expect("boot");
    orchestrator.run().expect("run");

    let events = orchestrator.telemetry_events();
    assert_eq!(events.len(), 6);
    assert_eq!(events[0].kind, EventKind::Lifecycle);
    assert_eq!(phase_of(&events[0].payload), Some(LifecyclePhase::Boot));
    assert_eq!(events[1].kind, EventKind::Lifecycle);
    assert_eq!(phase_of(&events[1].payload), Some(LifecyclePhase::MatchStart));
    for event in &events[2..5] {
        assert_eq!(event.kind, EventKind::EngineDecision);
        assert!(matches!(event.payload, EventPayload::Engine(_)));
    }
    assert_eq!(events[5].kind, EventKind::Lifecycle);
    assert_eq!(phase_of(&events[5].payload), Some(LifecyclePhase::MatchEnd));
}

#[test]
fn run_plays_one_turn_when_configured() {
    let mut orchestrator = Orchestrator::new(
        orchestrator_config(1),
        MockController::new(emulator_config()),
        FixedRecognizer,
        RuleBasedEngine::new(),
        LocalServer::new(8),
        TelemetryStore::new(),
    );
    orchestrator.boot().expect("boot");
    orchestrator.run().expect("run");
    let events = orchestrator.telemetry_events();
    // Boot, MatchStart, one decision, MatchEnd.
    assert_eq!(events.len(), 4);
    assert_eq!(events[2].kind, EventKind::EngineDecision);
}

#[test]
fn decision_events_carry_the_candidate_line() {
    let mut orchestrator = Orchestrator::new(
        orchestrator_config(1),
        MockController::new(emulator_config()),
        FixedRecognizer,
        RuleBasedEngine::new(),
        LocalServer::new(8),
        TelemetryStore::new(),
    );
    orchestrator.boot().expect("boot");
    orchestrator.run().expect("run");
    let events = orchestrator.telemetry_events();
    match &events[2].payload {
        EventPayload::Engine(e) => {
            // The initial position offers Blue many moves; the best line
            // leads with the proposed move.
            assert!(!e.best_line.is_empty());
            assert_eq!(e.metrics.nodes, 0);
            assert_eq!(e.metrics.depth, 1);
        }
        other => panic!("expected an engine payload, got {:?}", other),
    }
}
