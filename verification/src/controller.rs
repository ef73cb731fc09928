//! Device-input abstraction: input primitives, the controller
//! interface, gesture actions, and a mock controller.

use vstd::prelude::*;

use crate::board::Square;
use crate::config::EmulatorConfig;
use crate::errors::MinervaError;
use crate::stamp::now_millis;
use crate::telemetry::LatencySample;
use crate::ui::formation_confirm_point;
use crate::ui::formation_point;
use crate::ui::spec_formation_confirm_point;
use crate::ui::spec_formation_point;
use crate::ui::spec_square_to_point;
use crate::ui::spec_start_flow_point;
use crate::ui::square_to_point;
use crate::ui::start_flow_point;
use crate::ui::FormationPreset;
use crate::ui::Point;
use crate::ui::StartFlowStep;
use crate::vision::ImageFrame;

verus! {

/// High-level input primitives injected into the device.
#[derive(Debug, Clone, Copy)]
pub enum InputAction {
    Tap { x: u32, y: u32 },
    Swipe { start: (u32, u32), end: (u32, u32), duration_ms: u64 },
    KeyEvent { code: u32 },
}

/// Aggregated controller performance counters.
#[derive(Debug, Clone, Copy)]
pub struct ControllerMetrics {
    pub last_latency: Option<LatencySample>,
    pub successful_inputs: u64,
    pub failed_inputs: u64,
}

impl Default for ControllerMetrics {
    fn default() -> (r: ControllerMetrics)
        ensures
            r.last_latency is None,
            r.successful_inputs == 0,
            r.failed_inputs == 0,
    {
        ControllerMetrics { last_latency: None, successful_inputs: 0, failed_inputs: 0 }
    }
}

/// A device controller injects input and captures frames. The ghost
/// `log` is the sequence of actions successfully injected so far, which
/// lets callers state which gestures a run performs and in what order.
pub trait DeviceController: Sized {
    /// The actions injected so far, oldest first. An implementation
    /// outside the verified world may leave this at its default, an
    /// empty log; nothing is then known of the actions it injects.
    open spec fn log(&self) -> Seq<InputAction> {
        Seq::empty()
    }

    /// Establishes the connection to the device; connecting injects no
    /// input.
    fn connect(&mut self) -> (r: Result<(), MinervaError>)
        ensures
            final(self).log() == old(self).log(),
    ;

    /// Captures one screen frame.
    fn capture_frame(&self) -> Result<ImageFrame, MinervaError>;

    /// Taps the screen point at the center of a board square. On
    /// success the square was on the board and exactly that tap was
    /// injected; whatever happens, the log only grows.
    fn tap_square(&mut self, square: Square) -> (r: Result<(), MinervaError>)
        ensures
            old(self).log().is_prefix_of(final(self).log()),
            r is Ok ==> (spec_square_to_point(square) matches Some(point) && final(self).log()
                == old(self).log().push(InputAction::Tap { x: point.x, y: point.y })),
    ;

    /// Taps one screen point.
    fn tap_point(&mut self, point: Point) -> (r: Result<(), MinervaError>)
        ensures
            old(self).log().is_prefix_of(final(self).log()),
            r is Ok ==> final(self).log() == old(self).log().push(
                InputAction::Tap { x: point.x, y: point.y },
            ),
    ;

    /// Injects a batch of actions in order. An empty batch is refused
    /// with a controller error; on success exactly the batch was
    /// appended to the log, and a failure can only have appended a
    /// part of it: the log only grows.
    fn inject_actions(&mut self, actions: Vec<InputAction>) -> (r: Result<(), MinervaError>)
        ensures
            old(self).log().is_prefix_of(final(self).log()),
            actions@.len() == 0 ==> (r matches Err(e) && e is Controller),
            r is Ok ==> actions@.len() > 0 && final(self).log() == old(self).log() + actions@,
    ;

    /// A snapshot of the performance counters; never a live reference.
    fn metrics(&self) -> ControllerMetrics;

    /// Waits at least `duration_ms` milliseconds, pacing gestures.
    fn pause(&self, duration_ms: u64);
}

/// Builds a controller-subsystem error carrying `message`.
pub fn controller_error(message: &str) -> (r: MinervaError)
    ensures
        r matches MinervaError::Controller(m) && m@ == message@,
{
    MinervaError::Controller(message.to_owned())
}

/// Checks that a batch holds at least one action, as the controllers
/// require.
pub fn ensure_actions_present(actions: &[InputAction]) -> (r: Result<(), MinervaError>)
    ensures
        r is Ok <==> actions@.len() > 0,
        r matches Err(e) ==> (e matches MinervaError::Controller(m) && m@
            == "no input actions specified"@),
{
    if actions.is_empty() {
        Err(controller_error("no input actions specified"))
    } else {
        Ok(())
    }
}

/// The tap action for one screen point.
fn point_to_action(point: Point) -> (r: InputAction)
    ensures
        r == (InputAction::Tap { x: point.x, y: point.y }),
{
    InputAction::Tap { x: point.x, y: point.y }
}

/// The tap action for one step of the match-start flow.
pub fn start_flow_action(step: StartFlowStep) -> (r: InputAction)
    ensures
        r == (InputAction::Tap {
            x: spec_start_flow_point(step).x,
            y: spec_start_flow_point(step).y,
        }),
{
    point_to_action(start_flow_point(step))
}

/// The tap action that selects a formation.
pub fn formation_action(preset: FormationPreset) -> (r: InputAction)
    ensures
        r == (InputAction::Tap {
            x: spec_formation_point(preset).x,
            y: spec_formation_point(preset).y,
        }),
{
    point_to_action(formation_point(preset))
}

/// The tap action that confirms the formation choice.
pub fn formation_confirm_action() -> (r: InputAction)
    ensures
        r == (InputAction::Tap {
            x: spec_formation_confirm_point().x,
            y: spec_formation_confirm_point().y,
        }),
{
    point_to_action(formation_confirm_point())
}

/// A controller that injects nothing anywhere: it records every action
/// it is handed and counts them, for integration runs without a device.
#[derive(Debug)]
pub struct MockController {
    config: EmulatorConfig,
    metrics: ControllerMetrics,
    injected: Vec<InputAction>,
}

impl MockController {
    /// The controller's performance counters.
    pub closed spec fn spec_metrics(&self) -> ControllerMetrics {
        self.metrics
    }

    pub fn new(config: EmulatorConfig) -> (r: MockController)
        ensures
            r.log() == Seq::<InputAction>::empty(),
            r.spec_metrics().successful_inputs == 0,
            r.spec_metrics().failed_inputs == 0,
            r.spec_metrics().last_latency is None,
    {
        MockController {
            config,
            metrics: ControllerMetrics { last_latency: None, successful_inputs: 0, failed_inputs: 0 },
            injected: Vec::new(),
        }
    }
}

impl DeviceController for MockController {
    closed spec fn log(&self) -> Seq<InputAction> {
        self.injected@
    }

    /// Always connects.
    fn connect(&mut self) -> (r: Result<(), MinervaError>)
        ensures
            r is Ok,
            final(self).log() == old(self).log(),
    {
        Ok(())
    }

    /// Hands back an empty frame.
    fn capture_frame(&self) -> (r: Result<ImageFrame, MinervaError>)
        ensures
            r is Ok,
    {
        Ok(ImageFrame::empty())
    }

    fn tap_square(&mut self, square: Square) -> (r: Result<(), MinervaError>)
        ensures
            r is Ok <==> spec_square_to_point(square) is Some,
            r is Ok ==> (spec_square_to_point(square) matches Some(point) && final(self).log()
                == old(self).log().push(InputAction::Tap { x: point.x, y: point.y })),
            r is Err ==> final(self).log() == old(self).log(),
    {
        match square_to_point(square) {
            Some(point) => self.tap_point(point),
            None => Err(controller_error("square out of bounds")),
        }
    }

    fn tap_point(&mut self, point: Point) -> (r: Result<(), MinervaError>)
        ensures
            r is Ok,
            final(self).log() == old(self).log().push(InputAction::Tap { x: point.x, y: point.y }),
    {
        let mut batch: Vec<InputAction> = Vec::new();
        batch.push(InputAction::Tap { x: point.x, y: point.y });
        let r = self.inject_actions(batch);
        proof {
            assert(old(self).log().push(InputAction::Tap { x: point.x, y: point.y }) =~= old(
                self,
            ).log() + seq![InputAction::Tap { x: point.x, y: point.y }]);
        }
        r
    }

    /// Records the batch, counts one successful injection per call, and
    /// stamps a latency sample; the mock spends no time, so its
    /// durations are zero.
    fn inject_actions(&mut self, actions: Vec<InputAction>) -> (r: Result<(), MinervaError>)
        ensures
            actions@.len() == 0 ==> (r matches Err(e) && e is Controller),
            r is Ok <==> actions@.len() > 0,
            r is Ok ==> final(self).log() == old(self).log() + actions@,
            r is Err ==> final(self).log() == old(self).log(),
            r is Err ==> final(self).spec_metrics() == old(self).spec_metrics(),
            r is Ok ==> {
                &&& (old(self).spec_metrics().successful_inputs < u64::MAX ==> final(
                    self).spec_metrics().successful_inputs == old(
                    self).spec_metrics().successful_inputs + 1)
                &&& final(self).spec_metrics().failed_inputs == old(
                    self).spec_metrics().failed_inputs
                &&& (final(self).spec_metrics().last_latency matches Some(l) && l.observation_ms
                    == 0 && l.decision_ms == 0 && l.injection_ms == 0 && l.total_ms == 0)
            },
    {
        match ensure_actions_present(actions.as_slice()) {
            Ok(_) => {},
            Err(e) => {
                return Err(e);
            },
        }
        let ghost pre = self.injected@;
        let n = actions.len();
        let mut i: usize = 0;
        while i < n
            invariant
                i <= n,
                n == actions@.len(),
                self.injected@ == pre + actions@.take(i as int),
                self.config == old(self).config,
                self.metrics == old(self).metrics,
            decreases n - i,
        {
            let action = actions[i];
            self.injected.push(action);
            proof {
                assert(self.injected@ =~= pre + actions@.take(i + 1));
            }
            i = i + 1;
        }
        self.metrics.last_latency = Some(
            LatencySample {
                observation_ms: 0,
                decision_ms: 0,
                injection_ms: 0,
                total_ms: 0,
                captured_at: now_millis(),
            },
        );
        if self.metrics.successful_inputs < u64::MAX {
            self.metrics.successful_inputs = self.metrics.successful_inputs + 1;
        }
        proof {
            assert(actions@.take(n as int) == actions@);
        }
        Ok(())
    }

    fn metrics(&self) -> (r: ControllerMetrics)
        ensures
            r == self.spec_metrics(),
    {
        self.metrics
    }

    /// The mock waits for nothing.
    fn pause(&self, duration_ms: u64) {
    }
}

} // verus!
