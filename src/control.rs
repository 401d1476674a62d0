use vstd::prelude::*;
use crate::motor_control::{
    MotorController, MotorStatus, emergency_stopped, moved_forward, stopped, turned,
};
use crate::pathfinding::{NavigationCommand, PathPlanner, command_for};
use crate::vision::{Detection, NavigationAction, VisionSystem, dominant};
use crate::bridge::BridgeFrame;

verus! {

/// Target period of one control tick, in milliseconds (about 30 Hz).
pub const TICK_PERIOD_MS: u64 = 33;

/// Length of the window over which the frame rate is measured, in milliseconds.
pub const RATE_WINDOW_MS: u64 = 1000;

/// The one actuator operation that a tick invokes.
#[derive(Debug, Clone, Copy, PartialEq, Eq, Structural)]
pub enum Directive {
    EmergencyStop,
    Stop,
    /// Speed in thousandths of full scale.
    Forward(i32),
    /// Angle in millidegrees.
    TurnLeft(i64),
    /// Angle in millidegrees.
    TurnRight(i64),
}

/// The fusion rule: a vision `Stop` or `EmergencyStop` vetoes the planner;
/// otherwise the planner's command is used as it is.
pub open spec fn fused(action: NavigationAction, command: NavigationCommand) -> Directive {
    match action {
        NavigationAction::EmergencyStop => Directive::EmergencyStop,
        NavigationAction::Stop => Directive::Stop,
        _ => match command {
            NavigationCommand::Forward(s) => Directive::Forward(s),
            NavigationCommand::TurnLeft(a) => Directive::TurnLeft(a),
            NavigationCommand::TurnRight(a) => Directive::TurnRight(a),
            NavigationCommand::Stop => Directive::Stop,
        },
    }
}

/// The actuator state after `d` is applied to `s`.
pub open spec fn applied(s: MotorStatus, d: Directive) -> MotorStatus {
    match d {
        Directive::EmergencyStop => emergency_stopped(s),
        Directive::Stop => stopped(s),
        Directive::Forward(v) => moved_forward(s, v as int),
        Directive::TurnLeft(a) => turned(s, -(a as int)),
        Directive::TurnRight(a) => turned(s, a as int),
    }
}

/// Combines the safety action with the planner's command.
pub fn fuse(action: NavigationAction, command: NavigationCommand) -> (r: Directive)
    ensures
        r == fused(action, command),
        action == NavigationAction::EmergencyStop ==> r == Directive::EmergencyStop,
        action == NavigationAction::Stop ==> r == Directive::Stop,
{
    match action {
        NavigationAction::EmergencyStop => Directive::EmergencyStop,
        NavigationAction::Stop => Directive::Stop,
        _ => match command {
            NavigationCommand::Forward(s) => Directive::Forward(s),
            NavigationCommand::TurnLeft(a) => Directive::TurnLeft(a),
            NavigationCommand::TurnRight(a) => Directive::TurnRight(a),
            NavigationCommand::Stop => Directive::Stop,
        },
    }
}

/// Invokes the actuator operation that `d` names.
pub fn apply_directive(motors: &mut MotorController, d: Directive)
    ensures
        final(motors)@ == applied(old(motors)@, d),
        old(motors).wf() ==> final(motors).wf(),
{
    match d {
        Directive::EmergencyStop => motors.emergency_stop(),
        Directive::Stop => motors.stop(),
        Directive::Forward(v) => motors.move_forward(v),
        Directive::TurnLeft(a) => motors.turn_left(a),
        Directive::TurnRight(a) => motors.turn_right(a),
    }
}

/// Plan and act on the current perception state: feeds the detections to the
/// planner, fuses the nearest detection's action with the planner's command,
/// and applies the result. Returns the directive applied.
pub fn plan_and_act(
    vision: &VisionSystem,
    detections: &Vec<Detection>,
    planner: &mut PathPlanner,
    motors: &mut MotorController,
) -> (r: Directive)
    ensures
        final(planner).obstacles() == detections@,
        exists|a: NavigationAction|
            dominant(vision.detections(), a) && r == fused(a, command_for(detections@)),
        final(motors)@ == applied(old(motors)@, r),
        old(motors).wf() ==> final(motors).wf(),
{
    let action = vision.get_navigation_command();
    planner.update_obstacles(detections.as_slice());
    let command = planner.get_navigation_command();
    let d = fuse(action, command);
    apply_directive(motors, d);
    d
}

/// One control tick on what the bridge handed over (`frame`): perception,
/// planning, fusion and actuation. Returns the directive applied.
pub fn tick_on(
    vision: &mut VisionSystem,
    frame: Option<BridgeFrame>,
    planner: &mut PathPlanner,
    motors: &mut MotorController,
) -> (r: Directive)
    ensures
        tick_done(*old(vision), *final(vision), frame, *final(planner), *old(motors), *final(motors), r),
{
    let detections = vision.ingest(frame);
    plan_and_act(vision, &detections, planner, motors)
}

/// What one tick does when the bridge handed over `frame`: perception takes
/// it in, the planner sees the current detections, and the actuator gets the
/// fusion of the nearest detection's action with the planner's command.
pub open spec fn tick_done(
    vision0: VisionSystem,
    vision1: VisionSystem,
    frame: Option<BridgeFrame>,
    planner1: PathPlanner,
    motors0: MotorController,
    motors1: MotorController,
    r: Directive,
) -> bool {
    &&& VisionSystem::ingested(vision0, vision1, frame, vision1.detections())
    &&& planner1.obstacles() == vision1.detections()
    &&& exists|a: NavigationAction|
        dominant(vision1.detections(), a) && r == fused(a, command_for(vision1.detections()))
    &&& motors1@ == applied(motors0@, r)
    &&& motors0.wf() ==> motors1.wf()
}

/// One control tick: polls the bridge without blocking, then perception,
/// planning, fusion and actuation on whatever it handed over.
pub fn control_tick(
    vision: &mut VisionSystem,
    planner: &mut PathPlanner,
    motors: &mut MotorController,
) -> (r: Directive)
    ensures
        exists|frame: Option<BridgeFrame>|
            tick_done(*old(vision), *final(vision), frame, *final(planner), *old(motors), *final(motors), r),
{
    let frame = vision.poll_frame();
    tick_on(vision, frame, planner, motors)
}

/// How long to sleep after a tick that took `elapsed_ms`: the rest of the
/// period, or nothing when the tick overran (no catch-up).
pub fn pacing_delay_ms(elapsed_ms: u64) -> (r: u64)
    ensures
        elapsed_ms < TICK_PERIOD_MS ==> r == TICK_PERIOD_MS - elapsed_ms,
        elapsed_ms >= TICK_PERIOD_MS ==> r == 0,
{
    if elapsed_ms < TICK_PERIOD_MS {
        TICK_PERIOD_MS - elapsed_ms
    } else {
        0
    }
}

/// Frame-rate meter over windows of at least a second.
#[derive(Debug, Clone, Copy, PartialEq, Eq, Structural)]
pub struct RateMeter {
    /// Ticks counted in the current window.
    pub frames: u64,
    /// Start of the current window, in milliseconds.
    pub window_start_ms: u64,
}

/// Frame rate in tenths of a frame per second, capped at the largest `u64`.
pub open spec fn rate_tenths(frames: nat, elapsed_ms: nat) -> u64 {
    let v = frames * 10000 / elapsed_ms;
    if v > u64::MAX { u64::MAX } else { v as u64 }
}

impl RateMeter {
    /// An empty window starting at `now_ms`.
    pub fn new(now_ms: u64) -> (r: RateMeter)
        ensures
            r == (RateMeter { frames: 0, window_start_ms: now_ms }),
    {
        RateMeter { frames: 0, window_start_ms: now_ms }
    }

    /// Counts one tick at `now_ms`. Once the window has lasted a second, returns
    /// the rate over it in tenths of a frame per second and starts a new window.
    pub fn on_tick(&mut self, now_ms: u64) -> (r: Option<u64>)
        ensures
            ({
                let n = if old(self).frames < u64::MAX { old(self).frames + 1 } else { old(self).frames as int };
                let elapsed = if now_ms >= old(self).window_start_ms { now_ms - old(self).window_start_ms } else { 0 };
                if elapsed >= RATE_WINDOW_MS {
                    &&& r == Some(rate_tenths(n as nat, elapsed as nat))
                    &&& *final(self) == (RateMeter { frames: 0, window_start_ms: now_ms })
                } else {
                    &&& r is None
                    &&& *final(self) == (RateMeter { frames: n as u64, window_start_ms: old(self).window_start_ms })
                }
            }),
    {
        if self.frames < u64::MAX {
            self.frames = self.frames + 1;
        }
        let elapsed: u64 = if now_ms >= self.window_start_ms { now_ms - self.window_start_ms } else { 0 };
        if elapsed >= RATE_WINDOW_MS {
            let v: u128 = (self.frames as u128) * 10000 / (elapsed as u128);
            let rate: u64 = if v > u64::MAX as u128 { u64::MAX } else { v as u64 };
            self.frames = 0;
            self.window_start_ms = now_ms;
            Some(rate)
        } else {
            None
        }
    }
}

/// Safety veto: whenever the governing vision action is `Stop` or
/// `EmergencyStop`, the directive issued is that action whatever the planner
/// commands, and the actuator ends at rest (and disabled, for an emergency).
pub proof fn lemma_safety_veto(s: MotorStatus, action: NavigationAction, command: NavigationCommand)
    requires
        action == NavigationAction::Stop || action == NavigationAction::EmergencyStop,
    ensures
        action == NavigationAction::Stop ==> fused(action, command) == Directive::Stop,
        action == NavigationAction::EmergencyStop ==> fused(action, command)
            == Directive::EmergencyStop,
        applied(s, fused(action, command)).speed == 0,
        action == NavigationAction::EmergencyStop ==> !applied(s, fused(action, command)).enabled,
{
}

} // verus!
