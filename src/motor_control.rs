use vstd::prelude::*;

verus! {

/// Full-scale speed, in thousandths.
pub const FULL_SPEED: i32 = 1000;

/// Snapshot of the actuator's motion state.
#[derive(Debug, Clone, Copy, PartialEq, Eq, Structural)]
pub struct MotorStatus {
    /// Signed speed in thousandths of full scale, in `[-1000, 1000]`;
    /// the sign gives the direction.
    pub speed: i32,
    /// Heading in millidegrees; accumulates without wrapping.
    pub heading: i64,
    pub enabled: bool,
}

/// `s` clamped to `[0, FULL_SPEED]`.
pub open spec fn clamp_speed(s: int) -> int {
    if s < 0 {
        0
    } else if s > FULL_SPEED {
        FULL_SPEED as int
    } else {
        s
    }
}

/// `v` held within the range of `i64`.
pub open spec fn saturate_i64(v: int) -> i64 {
    if v < i64::MIN {
        i64::MIN
    } else if v > i64::MAX {
        i64::MAX
    } else {
        v as i64
    }
}

/// The state after an emergency stop: no speed and disabled, heading kept.
pub open spec fn emergency_stopped(s: MotorStatus) -> MotorStatus {
    MotorStatus { speed: 0, heading: s.heading, enabled: false }
}

/// The state after a plain stop: no speed, the rest kept.
pub open spec fn stopped(s: MotorStatus) -> MotorStatus {
    MotorStatus { speed: 0, ..s }
}

/// The state after a forward move at `speed`.
pub open spec fn moved_forward(s: MotorStatus, speed: int) -> MotorStatus {
    MotorStatus { speed: clamp_speed(speed) as i32, ..s }
}

/// The state after a backward move at `speed`.
pub open spec fn moved_backward(s: MotorStatus, speed: int) -> MotorStatus {
    MotorStatus { speed: (-clamp_speed(speed)) as i32, ..s }
}

/// The state after the heading changed by `delta` millidegrees.
pub open spec fn turned(s: MotorStatus, delta: int) -> MotorStatus {
    MotorStatus { heading: saturate_i64(s.heading + delta), ..s }
}

fn saturating_add_i64(a: i64, b: i64) -> (r: i64)
    ensures
        r == saturate_i64(a + b),
{
    if b > 0 && a > i64::MAX - b {
        i64::MAX
    } else if b < 0 && a < i64::MIN - b {
        i64::MIN
    } else {
        a + b
    }
}

fn clamp_unit(s: i32) -> (r: i32)
    ensures
        r as int == clamp_speed(s as int),
{
    if s < 0 {
        0
    } else if s > FULL_SPEED {
        FULL_SPEED
    } else {
        s
    }
}

/// Owner of the motion state; applies directives with safety clamps.
pub struct MotorController {
    speed: i32,
    heading: i64,
    enabled: bool,
}

impl View for MotorController {
    type V = MotorStatus;

    closed spec fn view(&self) -> MotorStatus {
        MotorStatus { speed: self.speed, heading: self.heading, enabled: self.enabled }
    }
}

impl MotorController {
    /// Speed stays within full scale in both directions.
    pub open spec fn wf(&self) -> bool {
        -FULL_SPEED <= self@.speed <= FULL_SPEED
    }

    /// At rest, heading zero, disabled.
    pub fn new() -> (r: MotorController)
        ensures
            r@ == (MotorStatus { speed: 0, heading: 0, enabled: false }),
            r.wf(),
    {
        MotorController { speed: 0, heading: 0, enabled: false }
    }

    /// Drives forward at `speed` clamped to `[0, FULL_SPEED]`.
    pub fn move_forward(&mut self, speed: i32)
        ensures
            final(self)@ == moved_forward(old(self)@, speed as int),
            final(self).wf(),
    {
        self.speed = clamp_unit(speed);
    }

    /// Drives backward at `speed` clamped to `[0, FULL_SPEED]`.
    pub fn move_backward(&mut self, speed: i32)
        ensures
            final(self)@ == moved_backward(old(self)@, speed as int),
            final(self).wf(),
    {
        self.speed = -clamp_unit(speed);
    }

    /// Turns left: the heading decreases by `angle` millidegrees.
    pub fn turn_left(&mut self, angle: i64)
        ensures
            final(self)@ == turned(old(self)@, -(angle as int)),
            old(self).wf() ==> final(self).wf(),
    {
        self.heading = if angle == i64::MIN {
            saturating_add_i64(saturating_add_i64(self.heading, i64::MAX), 1)
        } else {
            saturating_add_i64(self.heading, -angle)
        };
    }

    /// Turns right: the heading increases by `angle` millidegrees.
    pub fn turn_right(&mut self, angle: i64)
        ensures
            final(self)@ == turned(old(self)@, angle as int),
            old(self).wf() ==> final(self).wf(),
    {
        self.heading = saturating_add_i64(self.heading, angle);
    }

    /// Sets the speed to zero; heading and enablement are kept.
    pub fn stop(&mut self)
        ensures
            final(self)@ == stopped(old(self)@),
            final(self).wf(),
    {
        self.speed = 0;
    }

    /// Sets the speed to zero and disables the actuator.
    pub fn emergency_stop(&mut self)
        ensures
            final(self)@ == emergency_stopped(old(self)@),
            final(self).wf(),
    {
        self.speed = 0;
        self.enabled = false;
    }

    pub fn get_speed(&self) -> (r: i32)
        ensures
            r == self@.speed,
    {
        self.speed
    }

    pub fn get_heading(&self) -> (r: i64)
        ensures
            r == self@.heading,
    {
        self.heading
    }

    pub fn get_status(&self) -> (r: MotorStatus)
        ensures
            r == self@,
    {
        MotorStatus { speed: self.speed, heading: self.heading, enabled: self.enabled }
    }
}

/// An emergency stop always leaves the actuator at rest and disabled, and a
/// second one changes nothing.
pub proof fn lemma_emergency_stop_idempotent(s: MotorStatus)
    ensures
        emergency_stopped(s).speed == 0,
        !emergency_stopped(s).enabled,
        emergency_stopped(emergency_stopped(s)) == emergency_stopped(s),
{
}

/// A forward move stores the requested speed clamped to `[0, FULL_SPEED]`; a
/// backward move stores its negation.
pub proof fn lemma_speed_clamp(s: MotorStatus, speed: i32)
    ensures
        0 <= moved_forward(s, speed as int).speed <= FULL_SPEED,
        moved_forward(s, speed as int).speed == clamp_speed(speed as int),
        moved_backward(s, speed as int).speed == -clamp_speed(speed as int),
        0 <= speed <= FULL_SPEED ==> moved_forward(s, speed as int).speed == speed,
{
}

} // verus!
