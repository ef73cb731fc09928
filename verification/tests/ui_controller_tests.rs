use minerva::board::Square;
use minerva::config::EmulatorConfig;
use minerva::controller::ensure_actions_present;
use minerva::controller::formation_action;
use minerva::controller::formation_confirm_action;
use minerva::controller::start_flow_action;
use minerva::controller::DeviceController;
use minerva::controller::InputAction;
use minerva::controller::MockController;
use minerva::errors::MinervaError;
use minerva::ui::formation_confirm_point;
use minerva::ui::formation_point;
use minerva::ui::square_to_point;
use minerva::ui::start_flow_point;
use minerva::ui::FormationPreset;
use minerva::ui::Point;
use minerva::ui::StartFlowStep;

#[test]
fn map_square_to_point() {
    let square = Square::new(0, 0);
    let point = square_to_point(square).expect("map square");
    assert_eq!(point, Point::new(40, 880));
}

#[test]
fn start_flow_points_match_constants() {
    assert_eq!(
        start_flow_point(StartFlowStep::Apply),
        Point::new(550, 1180)
    );
    assert_eq!(
        start_flow_point(StartFlowStep::ConfirmYes),
        Point::new(280, 710)
    );
    assert_eq!(
        start_flow_point(StartFlowStep::ConfirmOk),
        Point::new(360, 750)
    );
}

#[test]
fn formation_points_match_constants() {
    assert_eq!(
        formation_point(FormationPreset::MasangMasang),
        Point::new(280, 560)
    );
    assert_eq!(
        formation_point(FormationPreset::SangMasangMa),
        Point::new(450, 560)
    );
    assert_eq!(
        formation_point(FormationPreset::MasangSangMa),
        Point::new(280, 620)
    );
    assert_eq!(
        formation_point(FormationPreset::SangMaMaSang),
        Point::new(450, 620)
    );
}

#[test]
fn start_flow_action_points() {
    let action = start_flow_action(StartFlowStep::Apply);
    match action {
        InputAction::Tap { x, y } => {
            let expected = start_flow_point(StartFlowStep::Apply);
            assert_eq!((x, y), (expected.x, expected.y));
        }
        _ => panic!("unexpected action"),
    }
}

#[test]
fn formation_action_points() {
    let action = formation_action(FormationPreset::SangMasangMa);
    match action {
        InputAction::Tap { x, y } => {
            let expected = formation_point(FormationPreset::SangMasangMa);
            assert_eq!((x, y), (expected.x, expected.y));
        }
        _ => panic!("unexpected action"),
    }
}

#[test]
fn formation_confirm_action_matches_constant() {
    let action = formation_confirm_action();
    match action {
        InputAction::Tap { x, y } => {
            let expected = formation_confirm_point();
            assert_eq!((x, y), (expected.x, expected.y));
        }
        _ => panic!("unexpected action"),
    }
}

#[test]
fn square_off_board_has_no_point() {
    assert!(square_to_point(Square::new(9, 0)).is_none());
    assert!(square_to_point(Square::new(0, 10)).is_none());
}

fn mock_config() -> EmulatorConfig {
    EmulatorConfig {
        serial: "127.0.0.1:5555".to_string(),
        socket: "127.0.0.1:5555".to_string(),
        fixed_resolution: Some((1080, 1920)),
        adb_path: None,
    }
}

#[test]
fn empty_action_batch_is_refused() {
    match ensure_actions_present(&[]) {
        Err(MinervaError::Controller(m)) => {
            assert_eq!(m, "no input actions specified");
        }
        other => panic!("expected a controller error, got {:?}", other),
    }
    let mut controller = MockController::new(mock_config());
    assert!(controller.inject_actions(Vec::new()).is_err());
    // A refused batch counts as nothing and stamps no latency.
    let metrics = controller.metrics();
    assert_eq!(metrics.successful_inputs, 0);
    assert!(metrics.last_latency.is_none());
}

#[test]
fn mock_controller_counts_successful_batches() {
    let mut controller = MockController::new(mock_config());
    controller
        .inject_actions(vec![InputAction::Tap { x: 1, y: 2 }, InputAction::KeyEvent { code: 3 }])
        .expect("inject");
    controller.tap_square(Square::new(0, 0)).expect("tap");
    let metrics = controller.metrics();
    assert_eq!(metrics.successful_inputs, 2);
    assert_eq!(metrics.failed_inputs, 0);
    // The mock spends no time, so the sample's durations are zero.
    let latency = metrics.last_latency.expect("a latency sample");
    assert_eq!(latency.injection_ms, 0);
    assert_eq!(latency.total_ms, 0);
}

#[test]
fn mock_controller_rejects_off_board_tap() {
    let mut controller = MockController::new(mock_config());
    match controller.tap_square(Square::new(9, 9)) {
        Err(MinervaError::Controller(_)) => {}
        other => panic!("expected a controller error, got {:?}", other),
    }
}
