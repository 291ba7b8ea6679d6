//! The kinematic model of the vehicle: position, heading and signed speed,
//! mutated once per tick by the driving commands and then advanced along the
//! current heading.
//!
//! Everything is fixed point so that every step is exact integer arithmetic:
//!
//! - speeds are in units of `1/10_000` of a world unit per tick, so the
//!   forward cap `MAX_FORWARD_SPEED = 50` stands for `0.005` world units per
//!   tick and one acceleration step `FORWARD_ACCELERATION = 2` for `0.0002`;
//! - the heading is the running sum of the steering inputs: each steer call
//!   adds or subtracts the current speed, so steering authority is
//!   proportional to speed and a stationary vehicle cannot turn. One heading
//!   unit stands for `STEERING_SENSITIVITY / 10_000` radians, where the
//!   sensitivity is three half-turns (`3 * pi`) per unit of speed — the
//!   caller that evaluates the heading trigonometrically applies that factor;
//! - positions are in units of `1 / POSITION_SCALE` of a world unit, so the
//!   scene start `(0.5, 0.5)` is `START_COORDINATE` in both axes, and one
//!   tick at heading `(dir_x, dir_y)` (scaled by `geometry::DIR_SCALE`)
//!   moves the position by exactly `dir * speed` position units.
//!
//! Position is not clamped to the world square: leaving `[0, 1]` is the
//! surrounding world's concern, not the model's.

use vstd::math::abs;
use vstd::prelude::*;

use crate::geometry::DIR_SCALE;

verus! {

/// Forward speed cap: `0.005` world units per tick.
pub const MAX_FORWARD_SPEED: i32 = 50;

/// Backward speed cap (as a magnitude): `0.003` world units per tick.
pub const MAX_BACKWARD_SPEED: i32 = 30;

/// Smallest sustained forward speed: a forward step that would land a
/// previously backward-moving vehicle below this magnitude snaps to zero.
pub const MIN_FORWARD_SPEED: i32 = 10;

/// Mirror of `MIN_FORWARD_SPEED` for backward steps.
pub const MIN_BACKWARD_SPEED: i32 = 10;

/// Speed gained by one forward-accelerate call: `0.0002` world units per tick.
pub const FORWARD_ACCELERATION: i32 = 2;

/// Speed lost by one backward-accelerate call.
pub const BACKWARD_ACCELERATION: i32 = 2;

/// Position units per world unit. One speed unit over one tick moves the
/// position by `DIR_SCALE` position units along a unit heading.
pub const POSITION_SCALE: i64 = 10_000_000_000;

/// Both coordinates of the scene-start position `(0.5, 0.5)`.
pub const START_COORDINATE: i64 = 5_000_000_000;

/// The mathematical state of the vehicle.
pub struct CarView {
    pub x: int,
    pub y: int,
    pub speed: int,
    pub orientation: int,
}

/// A speed the model can hold: between the backward and the forward cap.
pub open spec fn speed_wf(s: int) -> bool {
    -(MAX_BACKWARD_SPEED as int) <= s <= MAX_FORWARD_SPEED as int
}

/// One forward-accelerate step. The target is the speed raised by one
/// acceleration; past the forward cap the speed wraps to the backward cap
/// (the model's deliberate, if surprising, overflow rule); a target that
/// crosses near zero coming from a backward speed, landing below the minimum
/// forward magnitude, snaps to exactly zero; otherwise the target stands.
pub open spec fn forward_step(s: int) -> int {
    let target = s + FORWARD_ACCELERATION as int;
    if target > MAX_FORWARD_SPEED as int {
        MAX_BACKWARD_SPEED as int
    } else if target > s && s < 0 && abs(target) < MIN_FORWARD_SPEED as int {
        0
    } else {
        target
    }
}

/// One backward-accelerate step, the mirror of `forward_step` — except at
/// the cap, where the speed clamps at the backward cap instead of wrapping.
pub open spec fn backward_step(s: int) -> int {
    let target = s - BACKWARD_ACCELERATION as int;
    if target < -(MAX_BACKWARD_SPEED as int) {
        -(MAX_BACKWARD_SPEED as int)
    } else if target < s && s > 0 && abs(target) < MIN_BACKWARD_SPEED as int {
        0
    } else {
        target
    }
}

/// One discrete driving command, as the input source reports them each tick.
#[derive(Debug, Clone, Copy, PartialEq, Eq, Structural)]
pub enum Command {
    Accelerate,
    Decelerate,
    SteerLeft,
    SteerRight,
}

/// The controllable vehicle.
#[derive(Debug)]
pub struct Car {
    x: i64,
    y: i64,
    speed: i32,
    orientation: i64,
}

impl View for Car {
    type V = CarView;

    closed spec fn view(&self) -> CarView {
        CarView {
            x: self.x as int,
            y: self.y as int,
            speed: self.speed as int,
            orientation: self.orientation as int,
        }
    }
}

impl Car {
    /// The model never holds a speed beyond the caps.
    pub open spec fn wf(self) -> bool {
        speed_wf(self@.speed)
    }

    /// A vehicle at rest in the middle of the world square, facing along the
    /// positive x axis.
    pub fn default() -> (car: Car)
        ensures
            car.wf(),
            car@.x == START_COORDINATE as int,
            car@.y == START_COORDINATE as int,
            car@.speed == 0,
            car@.orientation == 0,
    {
        Car { x: START_COORDINATE, y: START_COORDINATE, speed: 0, orientation: 0 }
    }

    /// Raises the speed by one acceleration step, with the wrap at the
    /// forward cap and the zero-crossing snap of `forward_step`. Position
    /// and heading are untouched.
    pub fn forward_accelerate(&mut self)
        requires
            old(self).wf(),
        ensures
            final(self).wf(),
            final(self)@.speed == forward_step(old(self)@.speed),
            final(self)@.x == old(self)@.x,
            final(self)@.y == old(self)@.y,
            final(self)@.orientation == old(self)@.orientation,
    {
        let target = self.speed + FORWARD_ACCELERATION;
        self.speed = if target > MAX_FORWARD_SPEED {
            MAX_BACKWARD_SPEED
        } else if target > self.speed && self.speed < 0 && (if target < 0 { -target } else { target }) < MIN_FORWARD_SPEED {
            0
        } else {
            target
        };
    }

    /// Lowers the speed by one acceleration step, with the clamp at the
    /// backward cap and the zero-crossing snap of `backward_step`. Position
    /// and heading are untouched.
    pub fn backward_acceleration(&mut self)
        requires
            old(self).wf(),
        ensures
            final(self).wf(),
            final(self)@.speed == backward_step(old(self)@.speed),
            final(self)@.x == old(self)@.x,
            final(self)@.y == old(self)@.y,
            final(self)@.orientation == old(self)@.orientation,
    {
        let target = self.speed - BACKWARD_ACCELERATION;
        self.speed = if target < -MAX_BACKWARD_SPEED {
            -MAX_BACKWARD_SPEED
        } else if target < self.speed && self.speed > 0 && (if target < 0 { -target } else { target }) < MIN_BACKWARD_SPEED {
            0
        } else {
            target
        };
    }

    /// Turns left: lowers the heading by the current speed, so a vehicle at
    /// rest does not turn, and turning while reversing goes the other way.
    /// The bound on the heading is the machine limit of its counter.
    pub fn steer_left(&mut self)
        requires
            old(self).wf(),
            i64::MIN <= old(self)@.orientation - old(self)@.speed <= i64::MAX,
        ensures
            final(self).wf(),
            final(self)@.orientation == old(self)@.orientation - old(self)@.speed,
            old(self)@.speed == 0 ==> final(self)@.orientation == old(self)@.orientation,
            final(self)@.speed == old(self)@.speed,
            final(self)@.x == old(self)@.x,
            final(self)@.y == old(self)@.y,
    {
        self.orientation = self.orientation - self.speed as i64;
    }

    /// Turns right: raises the heading by the current speed; otherwise as
    /// `steer_left`.
    pub fn steer_right(&mut self)
        requires
            old(self).wf(),
            i64::MIN <= old(self)@.orientation + old(self)@.speed <= i64::MAX,
        ensures
            final(self).wf(),
            final(self)@.orientation == old(self)@.orientation + old(self)@.speed,
            old(self)@.speed == 0 ==> final(self)@.orientation == old(self)@.orientation,
            final(self)@.speed == old(self)@.speed,
            final(self)@.x == old(self)@.x,
            final(self)@.y == old(self)@.y,
    {
        self.orientation = self.orientation + self.speed as i64;
    }

    /// Integrates one tick: moves the position by exactly `dir * speed`
    /// position units along the heading `(dir_x, dir_y)`, the caller's
    /// `DIR_SCALE`-scaled evaluation of the heading direction. Speed and
    /// heading are untouched; the position is not clamped to the world
    /// square. The position bounds are the machine limits of its counters.
    pub fn update_car_position(&mut self, dir_x: i64, dir_y: i64)
        requires
            old(self).wf(),
            -DIR_SCALE <= dir_x <= DIR_SCALE,
            -DIR_SCALE <= dir_y <= DIR_SCALE,
            i64::MIN <= old(self)@.x + dir_x * old(self)@.speed <= i64::MAX,
            i64::MIN <= old(self)@.y + dir_y * old(self)@.speed <= i64::MAX,
        ensures
            final(self).wf(),
            final(self)@.x == old(self)@.x + dir_x * old(self)@.speed,
            final(self)@.y == old(self)@.y + dir_y * old(self)@.speed,
            final(self)@.speed == old(self)@.speed,
            final(self)@.orientation == old(self)@.orientation,
    {
        proof {
            let ghost s = old(self)@.speed;
            assert(-50_000_000 <= dir_x * s <= 50_000_000) by (nonlinear_arith)
                requires
                    -1_000_000 <= dir_x <= 1_000_000,
                    -30 <= s <= 50,
            ;
            assert(-50_000_000 <= dir_y * s <= 50_000_000) by (nonlinear_arith)
                requires
                    -1_000_000 <= dir_y <= 1_000_000,
                    -30 <= s <= 50,
            ;
        }
        self.y = self.y + dir_y * self.speed as i64;
        self.x = self.x + dir_x * self.speed as i64;
    }

    /// Read-only snapshot of the pose: position and heading, no side effects.
    pub fn get_position(&self) -> (r: (i64, i64, i64))
        ensures
            r.0 == self@.x,
            r.1 == self@.y,
            r.2 == self@.orientation,
    {
        (self.x, self.y, self.orientation)
    }

    /// Applies one driving command: the per-tick dispatch from the input
    /// source to the matching mutator.
    pub fn apply(&mut self, command: Command)
        requires
            old(self).wf(),
            command is SteerLeft ==> i64::MIN <= old(self)@.orientation - old(self)@.speed <= i64::MAX,
            command is SteerRight ==> i64::MIN <= old(self)@.orientation + old(self)@.speed <= i64::MAX,
        ensures
            final(self).wf(),
            final(self)@.x == old(self)@.x,
            final(self)@.y == old(self)@.y,
            (match command {
                Command::Accelerate => final(self)@.speed == forward_step(old(self)@.speed)
                    && final(self)@.orientation == old(self)@.orientation,
                Command::Decelerate => final(self)@.speed == backward_step(old(self)@.speed)
                    && final(self)@.orientation == old(self)@.orientation,
                Command::SteerLeft => final(self)@.orientation == old(self)@.orientation - old(self)@.speed
                    && final(self)@.speed == old(self)@.speed,
                Command::SteerRight => final(self)@.orientation == old(self)@.orientation + old(self)@.speed
                    && final(self)@.speed == old(self)@.speed,
            }),
    {
        match command {
            Command::Accelerate => self.forward_accelerate(),
            Command::Decelerate => self.backward_acceleration(),
            Command::SteerLeft => self.steer_left(),
            Command::SteerRight => self.steer_right(),
        }
    }
}

/// From any speed the model can hold, one forward-accelerate step never
/// lowers the speed — until the step past the forward cap, which wraps the
/// speed to the backward cap. Along any run of forward steps the speed is
/// therefore monotonically non-decreasing up to the wrap.
pub proof fn lemma_forward_monotonic(s: int)
    requires
        speed_wf(s),
    ensures
        (s + FORWARD_ACCELERATION as int) <= MAX_FORWARD_SPEED as int ==> forward_step(s) >= s,
        (s + FORWARD_ACCELERATION as int) > MAX_FORWARD_SPEED as int ==> forward_step(s)
            == MAX_BACKWARD_SPEED as int,
{
}

/// Mirror of `lemma_forward_monotonic`: one backward-accelerate step never
/// raises the speed, and the step past the backward cap clamps the speed at
/// the cap. Along any run of backward steps the speed is monotonically
/// non-increasing.
pub proof fn lemma_backward_monotonic(s: int)
    requires
        speed_wf(s),
    ensures
        backward_step(s) <= s,
        (s - BACKWARD_ACCELERATION as int) < -(MAX_BACKWARD_SPEED as int) ==> backward_step(s)
            == -(MAX_BACKWARD_SPEED as int),
{
}

/// The speed after `n` forward-accelerate steps from speed `s`.
pub open spec fn forward_steps(s: int, n: nat) -> int
    decreases n,
{
    if n == 0 {
        s
    } else {
        forward_step(forward_steps(s, (n - 1) as nat))
    }
}

/// The speed after `n` backward-accelerate steps from speed `s`.
pub open spec fn backward_steps(s: int, n: nat) -> int
    decreases n,
{
    if n == 0 {
        s
    } else {
        backward_step(backward_steps(s, (n - 1) as nat))
    }
}

/// Along any run of forward-accelerate calls from a speed the model can
/// hold — rest included — every speed the run reaches is one the model can
/// hold, and the run is monotonically non-decreasing until the step past the
/// forward cap, which wraps the speed to the backward cap.
pub proof fn lemma_forward_run(s: int, n: nat)
    requires
        speed_wf(s),
    ensures
        speed_wf(forward_steps(s, n)),
        (forward_steps(s, n) + FORWARD_ACCELERATION as int) <= MAX_FORWARD_SPEED as int
            ==> forward_steps(s, n + 1) >= forward_steps(s, n),
        (forward_steps(s, n) + FORWARD_ACCELERATION as int) > MAX_FORWARD_SPEED as int
            ==> forward_steps(s, n + 1) == MAX_BACKWARD_SPEED as int,
    decreases n,
{
    if n > 0 {
        lemma_forward_run(s, (n - 1) as nat);
    }
    lemma_forward_monotonic(forward_steps(s, n));
}

/// Mirror of `lemma_forward_run`: along any run of backward-accelerate
/// calls from a speed the model can hold, every speed the run reaches is one
/// the model can hold, the run is monotonically non-increasing, and the step
/// past the backward cap clamps the speed at the cap.
pub proof fn lemma_backward_run(s: int, n: nat)
    requires
        speed_wf(s),
    ensures
        speed_wf(backward_steps(s, n)),
        backward_steps(s, n + 1) <= backward_steps(s, n),
        (backward_steps(s, n) - BACKWARD_ACCELERATION as int) < -(MAX_BACKWARD_SPEED as int)
            ==> backward_steps(s, n + 1) == -(MAX_BACKWARD_SPEED as int),
    decreases n,
{
    if n > 0 {
        lemma_backward_run(s, (n - 1) as nat);
    }
    lemma_backward_monotonic(backward_steps(s, n));
}

/// Zero-crossing snap: a forward step from a backward speed whose target
/// lands strictly between zero and the minimum forward speed yields exactly
/// zero, not the target.
pub proof fn lemma_zero_crossing_snap(s: int)
    requires
        s < 0,
        0 < (s + FORWARD_ACCELERATION as int) < MIN_FORWARD_SPEED as int,
    ensures
        forward_step(s) == 0,
{
}

} // verus!
