//! Match orchestrator: drives the boot sequence and a fixed number of
//! capture / recognize / decide / act turns over the device controller,
//! the recognizer, the decision engine and the event sink.

use vstd::prelude::*;

use crate::board::BoardDiff;
use crate::board::Square;
use crate::config::OrchestratorConfig;
use crate::controller::formation_action;
use crate::controller::formation_confirm_action;
use crate::controller::start_flow_action;
use crate::controller::DeviceController;
use crate::controller::InputAction;
use crate::engine::GameEngine;
use crate::errors::MinervaError;
use crate::events::EventKind;
use crate::events::EventPayload;
use crate::events::LifecycleEvent;
use crate::events::LifecyclePhase;
use crate::events::EngineEvent;
use crate::events::SystemEvent;
use crate::game::EngineDecision;
use crate::game::GameSnapshot;
use crate::game::Move;
use crate::game::TurnContext;
use crate::network::RealtimeServer;
use crate::ops::TelemetryStore;
use crate::telemetry::EngineMetrics;
use crate::ui::spec_formation_confirm_point;
use crate::ui::spec_formation_point;
use crate::ui::spec_square_to_point;
use crate::ui::spec_start_flow_point;
use crate::ui::FormationPreset;
use crate::ui::StartFlowStep;
use crate::vision::BoardRecognizer;
use crate::vision::ImageFrame;
use crate::vision::RecognitionHints;

verus! {

/// Whether an event announces the given lifecycle phase.
pub open spec fn lifecycle_event(e: SystemEvent, phase: LifecyclePhase) -> bool {
    &&& e.kind == EventKind::Lifecycle
    &&& e.payload matches EventPayload::Lifecycle(l) && l.phase == phase
}

/// Whether an event announces the given lifecycle phase with exactly
/// the given details text.
pub open spec fn lifecycle_with_details(
    e: SystemEvent,
    phase: LifecyclePhase,
    details: Seq<char>,
) -> bool {
    &&& e.kind == EventKind::Lifecycle
    &&& e.payload matches EventPayload::Lifecycle(l) && l.phase == phase && (l.details
        matches Some(m) && m@ == details)
}

/// Whether an event carries an engine decision. The orchestrator
/// measures neither nodes per second nor table fullness, so both are
/// zero in every decision event it publishes.
pub open spec fn engine_decision_event(e: SystemEvent) -> bool {
    &&& e.kind == EventKind::EngineDecision
    &&& e.payload matches EventPayload::Engine(p) && p.metrics.nps == 0 && p.metrics.hashfull == 0
}

/// Every log is a prefix of itself.
proof fn lemma_prefix_reflexive<T>(s: Seq<T>)
    ensures
        s.is_prefix_of(s),
{
    assert(s =~= s.subrange(0, s.len() as int));
}

/// Prefix order on logs is transitive.
proof fn lemma_prefix_transitive<T>(a: Seq<T>, b: Seq<T>, c: Seq<T>)
    requires
        a.is_prefix_of(b),
        b.is_prefix_of(c),
    ensures
        a.is_prefix_of(c),
{
    assert(a =~= c.subrange(0, a.len() as int));
}

/// The five taps of the start-and-formation gesture script, in the
/// order they are injected during boot.
pub open spec fn boot_gesture(formation: FormationPreset) -> Seq<InputAction> {
    seq![
        InputAction::Tap {
            x: spec_start_flow_point(StartFlowStep::Apply).x,
            y: spec_start_flow_point(StartFlowStep::Apply).y,
        },
        InputAction::Tap {
            x: spec_start_flow_point(StartFlowStep::ConfirmYes).x,
            y: spec_start_flow_point(StartFlowStep::ConfirmYes).y,
        },
        InputAction::Tap {
            x: spec_start_flow_point(StartFlowStep::ConfirmOk).x,
            y: spec_start_flow_point(StartFlowStep::ConfirmOk).y,
        },
        InputAction::Tap {
            x: spec_formation_point(formation).x,
            y: spec_formation_point(formation).y,
        },
        InputAction::Tap {
            x: spec_formation_confirm_point().x,
            y: spec_formation_confirm_point().y,
        },
    ]
}

/// Coordinates one match: owns the single authoritative snapshot
/// between turns; every device interaction of a turn completes before
/// the next turn begins.
pub struct Orchestrator<C, V, E, N> where
    C: DeviceController,
    V: BoardRecognizer,
    E: GameEngine,
    N: RealtimeServer,
 {
    controller: C,
    recognizer: V,
    engine: E,
    network: N,
    telemetry: TelemetryStore,
    config: OrchestratorConfig,
    last_snapshot: Option<GameSnapshot>,
    last_changes: Vec<BoardDiff>,
}

impl<C, V, E, N> Orchestrator<C, V, E, N> where
    C: DeviceController,
    V: BoardRecognizer,
    E: GameEngine,
    N: RealtimeServer,
 {
    /// The events recorded to telemetry so far, oldest first.
    pub closed spec fn recorded(&self) -> Seq<SystemEvent> {
        self.telemetry.spec_events()
    }

    /// The events accepted by the realtime server so far, oldest first.
    pub closed spec fn published(&self) -> Seq<SystemEvent> {
        self.network.events()
    }

    /// The actions injected into the controller so far, oldest first.
    pub closed spec fn taps(&self) -> Seq<InputAction> {
        self.controller.log()
    }

    /// The orchestrator's configuration.
    pub closed spec fn cfg(&self) -> OrchestratorConfig {
        self.config
    }

    /// The retained snapshot, if a turn has produced one.
    pub closed spec fn snapshot(&self) -> Option<GameSnapshot> {
        self.last_snapshot
    }

    /// The board changes observed by the latest turn.
    pub closed spec fn changes(&self) -> Seq<BoardDiff> {
        self.last_changes@
    }

    pub fn new(
        config: OrchestratorConfig,
        controller: C,
        recognizer: V,
        engine: E,
        network: N,
        telemetry: TelemetryStore,
    ) -> (r: Orchestrator<C, V, E, N>)
        ensures
            r.recorded() == telemetry.spec_events(),
            r.published() == network.events(),
            r.taps() == controller.log(),
            r.cfg() == config,
            r.snapshot() is None,
    {
        Orchestrator {
            controller,
            recognizer,
            engine,
            network,
            telemetry,
            config,
            last_snapshot: None,
            last_changes: Vec::new(),
        }
    }

    /// Sends one event to the realtime server and records it to
    /// telemetry; both must accept it. The server receives a copy; the
    /// telemetry store keeps the event itself.
    fn publish(&mut self, event: SystemEvent) -> (r: Result<(), MinervaError>)
        ensures
            r is Ok ==> {
                &&& final(self).recorded() == old(self).recorded().push(event)
                &&& final(self).published().len() == old(self).published().len() + 1
                &&& final(self).published().take(old(self).published().len() as int) == old(
                    self,
                ).published()
                &&& crate::events::similar_events(event, final(self).published().last())
            },
            old(self).published().is_prefix_of(final(self).published()),
            final(self).taps() == old(self).taps(),
            final(self).cfg() == old(self).cfg(),
            final(self).snapshot() == old(self).snapshot(),
            r is Err ==> final(self).recorded() == old(self).recorded(),
    {
        let copy = event.clone();
        let ghost pre_published = self.network.events();
        match self.network.publish(copy) {
            Ok(_) => {},
            Err(e) => {
                return Err(e);
            },
        }
        proof {
            assert(self.network.events().take(pre_published.len() as int) =~= pre_published);
        }
        match self.telemetry.record_event(event) {
            Ok(_) => {},
            Err(e) => {
                return Err(e);
            },
        }
        Ok(())
    }

    /// Plays the fixed start script: the three start-flow taps, a
    /// settle pause, then the formation tap and its confirmation,
    /// and another settle pause.
    fn perform_start_sequence(&mut self, formation: FormationPreset) -> (r: Result<
        (),
        MinervaError,
    >)
        ensures
            old(self).taps().is_prefix_of(final(self).taps()),
            r is Ok ==> final(self).taps() == old(self).taps() + boot_gesture(formation),
            final(self).recorded() == old(self).recorded(),
            final(self).published() == old(self).published(),
            final(self).cfg() == old(self).cfg(),
            final(self).snapshot() == old(self).snapshot(),
    {
        let mut first: Vec<InputAction> = Vec::new();
        first.push(start_flow_action(StartFlowStep::Apply));
        first.push(start_flow_action(StartFlowStep::ConfirmYes));
        first.push(start_flow_action(StartFlowStep::ConfirmOk));
        let ghost first_batch = first@;
        match self.controller.inject_actions(first) {
            Ok(_) => {},
            Err(e) => {
                return Err(e);
            },
        }
        self.controller.pause(150);

        let mut second: Vec<InputAction> = Vec::new();
        second.push(formation_action(formation));
        second.push(formation_confirm_action());
        let ghost second_batch = second@;
        let ghost mid = self.controller.log();
        match self.controller.inject_actions(second) {
            Ok(_) => {},
            Err(e) => {
                proof {
                    lemma_prefix_transitive(old(self).taps(), mid, self.taps());
                }
                return Err(e);
            },
        }
        self.controller.pause(150);
        proof {
            assert(old(self).taps() + first_batch + second_batch =~= old(self).taps()
                + boot_gesture(formation));
            lemma_prefix_transitive(old(self).taps(), mid, self.taps());
        }
        Ok(())
    }

    /// Boots the match: connects the device, plays the start and
    /// formation gestures, warms the engine, starts the event server,
    /// and announces `Boot`. Any failure aborts the boot at once: a
    /// failed boot records no event, and whatever happens the gesture
    /// log only grows and nothing published is lost.
    pub fn boot(&mut self) -> (r: Result<(), MinervaError>)
        ensures
            r is Ok ==> {
                &&& final(self).taps() == old(self).taps() + boot_gesture(old(self).cfg().formation)
                &&& final(self).recorded().len() == old(self).recorded().len() + 1
                &&& final(self).recorded().take(old(self).recorded().len() as int) == old(
                    self,
                ).recorded()
                &&& lifecycle_with_details(
                    final(self).recorded().last(),
                    LifecyclePhase::Boot,
                    "orchestrator boot complete"@,
                )
                &&& final(self).published().len() == old(self).published().len() + 1
                &&& final(self).published().take(old(self).published().len() as int) == old(
                    self,
                ).published()
                &&& lifecycle_with_details(
                    final(self).published().last(),
                    LifecyclePhase::Boot,
                    "orchestrator boot complete"@,
                )
            },
            r is Err ==> final(self).recorded() == old(self).recorded(),
            old(self).taps().is_prefix_of(final(self).taps()),
            old(self).published().is_prefix_of(final(self).published()),
            final(self).cfg() == old(self).cfg(),
    {
        proof {
            lemma_prefix_reflexive(self.taps());
            lemma_prefix_reflexive(self.published());
        }
        match self.controller.connect() {
            Ok(_) => {},
            Err(e) => {
                return Err(e);
            },
        }
        let formation = self.config.formation;
        match self.perform_start_sequence(formation) {
            Ok(_) => {},
            Err(e) => {
                return Err(e);
            },
        }
        match self.engine.warm_up() {
            Ok(_) => {},
            Err(e) => {
                return Err(e);
            },
        }
        match self.network.run() {
            Ok(_) => {},
            Err(e) => {
                return Err(e);
            },
        }
        let ghost published_before = self.published();
        let lifecycle = SystemEvent::new(
            EventKind::Lifecycle,
            EventPayload::Lifecycle(
                LifecycleEvent {
                    phase: LifecyclePhase::Boot,
                    details: Some("orchestrator boot complete".to_owned()),
                },
            ),
        );
        let r = self.publish(lifecycle);
        proof {
            lemma_prefix_transitive(old(self).published(), published_before, self.published());
        }
        match r {
            Ok(_) => {},
            Err(e) => {
                return Err(e);
            },
        }
        Ok(())
    }

    /// Recognizes the board on a frame, hinted by the retained
    /// snapshot.
    fn recognize_board(&self, frame: &ImageFrame) -> Result<GameSnapshot, MinervaError> {
        let previous = match &self.last_snapshot {
            Some(s) => Some(s.clone()),
            None => None,
        };
        let hints = RecognitionHints { previous_snapshot: previous };
        self.recognizer.recognize(frame, hints)
    }

    /// Executes a move on the device as two sequential taps — origin
    /// first, then the destination, with a short settle pause between
    /// them; the order encodes the gesture. On success exactly those
    /// two taps were injected; if the first tap fails, its error is
    /// returned and the destination is never tapped.
    fn apply_move(&mut self, mv: Move) -> (r: Result<(), MinervaError>)
        ensures
            final(self).recorded() == old(self).recorded(),
            final(self).published() == old(self).published(),
            final(self).cfg() == old(self).cfg(),
            final(self).snapshot() == old(self).snapshot(),
            old(self).taps().is_prefix_of(final(self).taps()),
            r is Ok ==> (spec_square_to_point(mv.from) matches Some(a) && (spec_square_to_point(
                mv.to,
            ) matches Some(b) && final(self).taps() == old(self).taps() + seq![
                InputAction::Tap { x: a.x, y: a.y },
                InputAction::Tap { x: b.x, y: b.y },
            ])),
    {
        let ghost pre = self.controller.log();
        match self.controller.tap_square(mv.from) {
            Ok(_) => {},
            Err(e) => {
                return Err(e);
            },
        }
        self.controller.pause(30);
        let ghost mid = self.controller.log();
        match self.controller.tap_square(mv.to) {
            Ok(_) => {},
            Err(e) => {
                proof {
                    lemma_prefix_transitive(pre, mid, self.controller.log());
                }
                return Err(e);
            },
        }
        proof {
            let a = spec_square_to_point(mv.from)->0;
            let b = spec_square_to_point(mv.to)->0;
            assert(self.controller.log() =~= pre + seq![
                InputAction::Tap { x: a.x, y: a.y },
                InputAction::Tap { x: b.x, y: b.y },
            ]);
            assert(pre.is_prefix_of(self.controller.log()));
        }
        Ok(())
    }

    /// Plays one turn: captures a frame, recognizes the position,
    /// records how the board changed since the previous snapshot,
    /// retains the new snapshot, asks the engine for a decision, acts
    /// on the best move if there is one (also applying it to the
    /// retained snapshot, best effort), and publishes an
    /// engine-decision event either way. Any collaborator failure
    /// aborts the turn at once: a failed turn records no telemetry
    /// event, and on success the device received either nothing or
    /// exactly the two taps of one move.
    pub fn play_turn(&mut self) -> (r: Result<(), MinervaError>)
        ensures
            r is Ok ==> {
                &&& final(self).recorded().len() == old(self).recorded().len() + 1
                &&& final(self).recorded().take(old(self).recorded().len() as int) == old(
                    self,
                ).recorded()
                &&& engine_decision_event(final(self).recorded().last())
                &&& final(self).published().len() == old(self).published().len() + 1
                &&& final(self).published().take(old(self).published().len() as int) == old(
                    self,
                ).published()
                &&& engine_decision_event(final(self).published().last())
                &&& final(self).snapshot() is Some
            },
            r is Ok ==> {
                ||| final(self).taps() == old(self).taps()
                ||| exists|f: Square, t: Square|
                    #![trigger spec_square_to_point(f), spec_square_to_point(t)]
                    (spec_square_to_point(f) matches Some(a) && (spec_square_to_point(t)
                        matches Some(b) && final(self).taps() == old(self).taps() + seq![
                        InputAction::Tap { x: a.x, y: a.y },
                        InputAction::Tap { x: b.x, y: b.y },
                    ]))
            },
            r is Err ==> final(self).recorded() == old(self).recorded(),
            old(self).taps().is_prefix_of(final(self).taps()),
            old(self).published().is_prefix_of(final(self).published()),
            final(self).snapshot() == old(self).snapshot() || final(self).snapshot() is Some,
            final(self).cfg() == old(self).cfg(),
    {
        proof {
            lemma_prefix_reflexive(self.taps());
            lemma_prefix_reflexive(self.published());
        }
        let frame = match self.controller.capture_frame() {
            Ok(f) => f,
            Err(e) => {
                return Err(e);
            },
        };
        let snapshot = match self.recognize_board(&frame) {
            Ok(s) => s,
            Err(e) => {
                return Err(e);
            },
        };
        let changes = match &self.last_snapshot {
            Some(prev) => prev.board.differences(&snapshot.board),
            None => Vec::new(),
        };
        self.last_changes = changes;
        let side = snapshot.board.side_to_move;
        self.last_snapshot = Some(snapshot.clone());
        let decision = match self.engine.evaluate_position(&TurnContext { snapshot, side }) {
            Ok(d) => d,
            Err(e) => {
                return Err(e);
            },
        };

        match decision.best_move {
            Some(best_move) => {
                match self.apply_move(best_move) {
                    Ok(_) => {
                        proof {
                            let a = spec_square_to_point(best_move.from)->0;
                            let b = spec_square_to_point(best_move.to)->0;
                            assert(spec_square_to_point(best_move.from) matches Some(p) && (
                            spec_square_to_point(best_move.to) matches Some(q) && self.taps()
                                == old(self).taps() + seq![
                                InputAction::Tap { x: p.x, y: p.y },
                                InputAction::Tap { x: q.x, y: q.y },
                            ]));
                        }
                    },
                    Err(e) => {
                        return Err(e);
                    },
                }
                match &mut self.last_snapshot {
                    Some(stored) => {
                        if stored.ply < u32::MAX {
                            // A stale or inconsistent recognition can make the
                            // local replay fail; the model may then drift from
                            // the device, which the next recognition corrects.
                            let _ = stored.apply_move(side, &best_move);
                        }
                    },
                    None => {},
                }
            },
            None => {},
        }

        let engine_event = decision_event(&decision);
        let ghost published_before = self.published();
        let ghost taps_before = self.taps();
        let r = self.publish(engine_event);
        proof {
            lemma_prefix_transitive(old(self).published(), published_before, self.published());
            lemma_prefix_transitive(old(self).taps(), taps_before, self.taps());
        }
        match r {
            Ok(_) => {},
            Err(e) => {
                return Err(e);
            },
        }
        Ok(())
    }

    /// The board changes observed between the two latest snapshots.
    pub fn last_changes(&self) -> (r: &Vec<BoardDiff>)
        ensures
            r@ == self.changes(),
    {
        &self.last_changes
    }

    /// A copy of every event recorded to telemetry so far.
    pub fn telemetry_events(&self) -> (r: Vec<SystemEvent>)
        ensures
            r@.len() == self.recorded().len(),
            forall|i: int|
                0 <= i < r@.len() ==> crate::events::similar_events(
                    self.recorded()[i],
                    #[trigger] r@[i],
                ),
    {
        self.telemetry.snapshot_events()
    }
}

/// Builds the event announcing one engine decision: the decision's
/// search metrics (the orchestrator measures neither speed nor table
/// fullness, so those are zero) and the candidate line, one move per
/// candidate in order.
fn decision_event(decision: &EngineDecision) -> (r: SystemEvent)
    ensures
        r.kind == EventKind::EngineDecision,
        r.payload matches EventPayload::Engine(p) && {
            &&& p.metrics.nodes == decision.searched_nodes
            &&& p.metrics.depth == decision.depth
            &&& p.metrics.nps == 0
            &&& p.metrics.hashfull == 0
            &&& p.best_line@.len() == decision.candidates@.len()
            &&& forall|i: int|
                0 <= i < p.best_line@.len() ==> #[trigger] p.best_line@[i]
                    == decision.candidates@[i].mv
        },
{
    let mut best_line: Vec<Move> = Vec::new();
    let mut i: usize = 0;
    let total = decision.candidates.len();
    while i < total
        invariant
            i <= total,
            total == decision.candidates@.len(),
            best_line@.len() == i,
            forall|j: int| 0 <= j < i ==> #[trigger] best_line@[j] == decision.candidates@[j].mv,
        decreases total - i,
    {
        best_line.push(decision.candidates[i].mv);
        i = i + 1;
    }
    SystemEvent::new(
        EventKind::EngineDecision,
        EventPayload::Engine(
            EngineEvent {
                metrics: EngineMetrics {
                    nodes: decision.searched_nodes,
                    depth: decision.depth,
                    nps: 0,
                    hashfull: 0,
                },
                best_line,
            },
        ),
    )
}

/// Something that can run a match to completion.
pub trait MatchRunner: Sized {
    fn run(&mut self) -> Result<(), MinervaError>;
}

impl<C, V, E, N> MatchRunner for Orchestrator<C, V, E, N> where
    C: DeviceController,
    V: BoardRecognizer,
    E: GameEngine,
    N: RealtimeServer,
 {
    /// Runs a match: announces `MatchStart`, plays exactly
    /// `max_retries` turns in sequence — the name is historical; it is
    /// a turn count, not a retry budget — and announces `MatchEnd`.
    /// Each turn publishes exactly one engine-decision event, so a
    /// successful run publishes and records `MatchStart`, one decision
    /// per turn, then `MatchEnd`, in that order. Any failure aborts
    /// the run at once: everything recorded up to the failure stays —
    /// there is no rollback — and `MatchEnd` is never announced on a
    /// failed run.
    fn run(&mut self) -> (r: Result<(), MinervaError>)
        ensures
            r is Ok ==> {
                let base = old(self).recorded().len() as int;
                let turns = old(self).cfg().max_retries as int;
                &&& final(self).recorded().len() == base + turns + 2
                &&& final(self).recorded().take(base) == old(self).recorded()
                &&& lifecycle_with_details(
                    final(self).recorded()[base],
                    LifecyclePhase::MatchStart,
                    "match started"@,
                )
                &&& forall|i: int|
                    base + 1 <= i < base + 1 + turns ==> engine_decision_event(
                        #[trigger] final(self).recorded()[i],
                    )
                &&& lifecycle_with_details(
                    final(self).recorded().last(),
                    LifecyclePhase::MatchEnd,
                    "match completed"@,
                )
            },
            r is Ok ==> {
                let base = old(self).published().len() as int;
                let turns = old(self).cfg().max_retries as int;
                &&& final(self).published().len() == base + turns + 2
                &&& final(self).published().take(base) == old(self).published()
                &&& lifecycle_with_details(
                    final(self).published()[base],
                    LifecyclePhase::MatchStart,
                    "match started"@,
                )
                &&& forall|i: int|
                    base + 1 <= i < base + 1 + turns ==> engine_decision_event(
                        #[trigger] final(self).published()[i],
                    )
                &&& lifecycle_with_details(
                    final(self).published().last(),
                    LifecyclePhase::MatchEnd,
                    "match completed"@,
                )
            },
            r is Err ==> {
                let base = old(self).recorded().len() as int;
                let turns = old(self).cfg().max_retries as int;
                &&& final(self).recorded().len() <= base + 1 + turns
                &&& final(self).recorded().take(base) == old(self).recorded()
                &&& (final(self).recorded().len() > base ==> lifecycle_with_details(
                    final(self).recorded()[base],
                    LifecyclePhase::MatchStart,
                    "match started"@,
                ))
                &&& forall|i: int|
                    base + 1 <= i < final(self).recorded().len() ==> engine_decision_event(
                        #[trigger] final(self).recorded()[i],
                    )
                &&& forall|i: int|
                    base <= i < final(self).recorded().len() ==> !lifecycle_event(
                        #[trigger] final(self).recorded()[i],
                        LifecyclePhase::MatchEnd,
                    )
            },
            old(self).taps().is_prefix_of(final(self).taps()),
            old(self).published().is_prefix_of(final(self).published()),
            final(self).cfg() == old(self).cfg(),
    {
        let ghost orig_r = self.recorded();
        let ghost orig_p = self.published();
        let ghost orig_t = self.taps();
        let ghost orig_cfg = self.cfg();
        let ghost base_r = self.recorded().len() as int;
        let ghost base_p = self.published().len() as int;
        proof {
            lemma_prefix_reflexive(self.taps());
            lemma_prefix_reflexive(self.published());
        }
        let start_event = SystemEvent::new(
            EventKind::Lifecycle,
            EventPayload::Lifecycle(
                LifecycleEvent {
                    phase: LifecyclePhase::MatchStart,
                    details: Some("match started".to_owned()),
                },
            ),
        );
        match self.publish(start_event) {
            Ok(_) => {},
            Err(e) => {
                proof {
                    assert(self.recorded().take(base_r) =~= orig_r);
                }
                return Err(e);
            },
        }
        proof {
            assert(self.recorded().take(base_r) =~= orig_r);
            assert(self.published().take(base_p) =~= orig_p);
        }

        let turns = self.config.max_retries;
        let mut turn: u8 = 0;
        while turn < turns
            invariant
                turn <= turns,
                turns == self.cfg().max_retries,
                orig_cfg == old(self).cfg(),
                orig_r == old(self).recorded(),
                orig_p == old(self).published(),
                orig_t == old(self).taps(),
                self.cfg() == orig_cfg,
                base_r == orig_r.len() as int,
                base_p == orig_p.len() as int,
                orig_t.is_prefix_of(self.taps()),
                orig_p.is_prefix_of(self.published()),
                self.recorded().len() == base_r + 1 + turn,
                self.recorded().take(base_r) == orig_r,
                lifecycle_with_details(
                    self.recorded()[base_r],
                    LifecyclePhase::MatchStart,
                    "match started"@,
                ),
                forall|i: int|
                    base_r + 1 <= i < base_r + 1 + turn ==> engine_decision_event(
                        #[trigger] self.recorded()[i],
                    ),
                self.published().len() == base_p + 1 + turn,
                self.published().take(base_p) == orig_p,
                lifecycle_with_details(
                    self.published()[base_p],
                    LifecyclePhase::MatchStart,
                    "match started"@,
                ),
                forall|i: int|
                    base_p + 1 <= i < base_p + 1 + turn ==> engine_decision_event(
                        #[trigger] self.published()[i],
                    ),
            decreases turns - turn,
        {
            let ghost pre_r = self.recorded();
            let ghost pre_p = self.published();
            let ghost pre_t = self.taps();
            let played = self.play_turn();
            proof {
                lemma_prefix_transitive(orig_t, pre_t, self.taps());
                lemma_prefix_transitive(orig_p, pre_p, self.published());
            }
            match played {
                Ok(_) => {},
                Err(e) => {
                    proof {
                        assert forall|i: int|
                            base_r <= i < self.recorded().len() implies !lifecycle_event(
                            #[trigger] self.recorded()[i],
                            LifecyclePhase::MatchEnd,
                        ) by {
                            if i > base_r {
                                assert(engine_decision_event(self.recorded()[i]));
                            }
                        }
                    }
                    return Err(e);
                },
            }
            proof {
                assert(self.recorded().take(base_r) =~= pre_r.take(base_r));
                assert(self.published().take(base_p) =~= pre_p.take(base_p));
                assert(self.recorded()[base_r] == pre_r[base_r]);
                assert(self.published()[base_p] == pre_p[base_p]);
                assert forall|i: int| base_r + 1 <= i < base_r + 1 + turn + 1 implies
                    engine_decision_event(#[trigger] self.recorded()[i]) by {
                    if i < base_r + 1 + turn {
                        assert(self.recorded()[i] == pre_r[i]);
                    } else {
                        assert(self.recorded()[i] == self.recorded().last());
                    }
                }
                assert forall|i: int| base_p + 1 <= i < base_p + 1 + turn + 1 implies
                    engine_decision_event(#[trigger] self.published()[i]) by {
                    if i < base_p + 1 + turn {
                        assert(self.published()[i] == pre_p[i]);
                    } else {
                        assert(self.published()[i] == self.published().last());
                    }
                }
            }
            turn = turn + 1;
        }

        let ghost pre_r = self.recorded();
        let ghost pre_p = self.published();
        let ghost pre_t = self.taps();
        let end_event = SystemEvent::new(
            EventKind::Lifecycle,
            EventPayload::Lifecycle(
                LifecycleEvent {
                    phase: LifecyclePhase::MatchEnd,
                    details: Some("match completed".to_owned()),
                },
            ),
        );
        let ended = self.publish(end_event);
        proof {
            lemma_prefix_transitive(orig_p, pre_p, self.published());
        }
        match ended {
            Ok(_) => {},
            Err(e) => {
                proof {
                    assert forall|i: int|
                        base_r <= i < self.recorded().len() implies !lifecycle_event(
                        #[trigger] self.recorded()[i],
                        LifecyclePhase::MatchEnd,
                    ) by {
                        if i > base_r {
                            assert(engine_decision_event(self.recorded()[i]));
                        }
                    }
                }
                return Err(e);
            },
        }
        proof {
            assert(self.recorded().take(base_r) =~= pre_r.take(base_r));
            assert(self.published().take(base_p) =~= pre_p.take(base_p));
            assert(self.recorded()[base_r] == pre_r[base_r]);
            assert(self.published()[base_p] == pre_p[base_p]);
            assert forall|i: int| base_r + 1 <= i < base_r + 1 + turns implies
                engine_decision_event(#[trigger] self.recorded()[i]) by {
                assert(self.recorded()[i] == pre_r[i]);
            }
            assert forall|i: int| base_p + 1 <= i < base_p + 1 + turns implies
                engine_decision_event(#[trigger] self.published()[i]) by {
                assert(self.published()[i] == pre_p[i]);
            }
        }
        Ok(())
    }
}

/// Builds an orchestrator-subsystem error carrying `message`.
pub fn orchestrator_error(message: &str) -> (r: MinervaError)
    ensures
        r matches MinervaError::Orchestrator(m) && m@ == message@,
{
    MinervaError::Orchestrator(message.to_owned())
}

} // verus!
