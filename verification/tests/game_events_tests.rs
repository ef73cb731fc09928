use minerva::board::PieceKind;
use minerva::board::PlayerSide;
use minerva::board::Square;
use minerva::events::EventKind;
use minerva::events::EventPayload;
use minerva::events::LifecycleEvent;
use minerva::events::LifecyclePhase;
use minerva::events::OpsEvent;
use minerva::events::SystemEvent;
use minerva::game::GameClocks;
use minerva::game::GamePhase;
use minerva::game::GameSnapshot;
use minerva::game::Move;
use minerva::network::LocalServer;
use minerva::network::RealtimeServer;
use minerva::ops::TelemetryStore;
use minerva::telemetry::MatchTelemetry;

#[test]
fn apply_move_advances_snapshot() {
    let mut snapshot = GameSnapshot::default();
    let mv = Move {
        from: Square::new(0, 3),
        to: Square::new(0, 4),
        promotion: None,
        confidence: None,
    };
    snapshot.apply_move(PlayerSide::Blue, &mv).expect("apply");
    assert_eq!(snapshot.ply, 1);
    assert_eq!(snapshot.board.side_to_move, PlayerSide::Red);
    assert_eq!(snapshot.last_move, Some(mv));
    assert!(snapshot.board.piece_at(Square::new(0, 3)).is_none());
    assert_eq!(
        snapshot.board.piece_at(Square::new(0, 4)).map(|p| p.kind),
        Some(PieceKind::Soldier)
    );
}

#[test]
fn apply_move_rejects_foreign_piece() {
    let mut snapshot = GameSnapshot::default();
    let mv = Move {
        from: Square::new(0, 3),
        to: Square::new(0, 4),
        promotion: None,
        confidence: None,
    };
    // The soldier on (0,3) belongs to Blue, not Red.
    assert!(snapshot.apply_move(PlayerSide::Red, &mv).is_err());
    assert_eq!(snapshot.ply, 0);
}

#[test]
fn apply_move_rejects_empty_origin() {
    let mut snapshot = GameSnapshot::default();
    let mv = Move {
        from: Square::new(4, 4),
        to: Square::new(4, 5),
        promotion: None,
        confidence: None,
    };
    assert!(snapshot.apply_move(PlayerSide::Blue, &mv).is_err());
}

#[test]
fn default_phase_and_clocks() {
    assert_eq!(GamePhase::default(), GamePhase::Opening);
    let clocks = GameClocks::default();
    assert_eq!(clocks.blue_ms, 0);
    assert_eq!(clocks.red_ms, 0);
    let telemetry = MatchTelemetry::default();
    assert!(telemetry.latency_samples.is_empty());
    assert!(telemetry.engine_history.is_empty());
    assert!(telemetry.notes.is_empty());
}

#[test]
fn system_event_wraps_kind_and_payload() {
    let event = SystemEvent::new(
        EventKind::Lifecycle,
        EventPayload::Lifecycle(LifecycleEvent {
            phase: LifecyclePhase::Ready,
            details: Some("warmed".to_string()),
        }),
    );
    assert_eq!(event.kind, EventKind::Lifecycle);
    match event.payload {
        EventPayload::Lifecycle(l) => {
            assert_eq!(l.phase, LifecyclePhase::Ready);
            assert_eq!(l.details.as_deref(), Some("warmed"));
        }
        other => panic!("expected a lifecycle payload, got {:?}", other),
    }
}

#[test]
fn telemetry_store_keeps_events_in_order() {
    let mut store = TelemetryStore::new();
    store
        .record_event(SystemEvent::new(
            EventKind::Ops,
            EventPayload::Ops(OpsEvent { message: "one".to_string(), tags: vec![] }),
        ))
        .expect("record");
    store
        .record_event(SystemEvent::new(
            EventKind::Network,
            EventPayload::Unknown("{}".to_string()),
        ))
        .expect("record");
    let events = store.snapshot_events();
    assert_eq!(events.len(), 2);
    assert_eq!(events[0].kind, EventKind::Ops);
    assert_eq!(events[1].kind, EventKind::Network);
    match &events[0].payload {
        EventPayload::Ops(e) => assert_eq!(e.message, "one"),
        other => panic!("expected an ops payload, got {:?}", other),
    }
}

#[test]
fn local_server_accepts_events() {
    let mut server = LocalServer::new(4);
    server.run().expect("run");
    let event = SystemEvent::new(
        EventKind::Lifecycle,
        EventPayload::Lifecycle(LifecycleEvent {
            phase: LifecyclePhase::Shutdown,
            details: None,
        }),
    );
    server.publish(event).expect("publish");
}
