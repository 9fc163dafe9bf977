//! The per-tick control step: from one input snapshot, the tick length and
//! the player's facing to a turn angle and a desired-motion intent.
//!
//! The step is deterministic in `(input, dt, facing)` and keeps no state of
//! its own; the facing is the only per-player state it touches.  Within one
//! tick the order is: turn first, then read the turned facing to build the
//! motion vector, so a turning player's thrust already points the new way.

use crate::fixed::fx_mul;
use crate::fixed::fx_mul_value;
use crate::fixed::FX_ONE;
use crate::input::InputSnapshot;
use crate::input::PlayerAction;
use crate::vec3::Vec3Fx;
use vstd::arithmetic::div_mod::lemma_div_is_ordered;
use vstd::arithmetic::div_mod::lemma_div_pos_is_pos;
use vstd::prelude::*;

verus! {

/// Desired walking speed, in whole world units per second.
pub const WALK_SPEED_UNITS: i64 = 10;

/// Turning speed about the vertical axis, fixed-point radians per second.
pub const TURN_SPEED_FX: i64 = 2_000_000;

/// Height the external controller should keep the character floating at,
/// fixed-point world units.
pub const FLOAT_HEIGHT_FX: i64 = 1_500_000;

/// Height of a jump handed to the external controller, fixed-point world
/// units.
pub const JUMP_HEIGHT_FX: i64 = 4_000_000;

/// Longest tick the control step accepts: one million seconds.
pub const TICK_LIMIT_FX: i64 = 1_000_000_000_000;

/// Net walking direction along the facing: `+1` for Forward alone, `-1` for
/// Backward alone, `0` when neither or both are held.
pub open spec fn walk_sign(forward: bool, backward: bool) -> int {
    (if forward {
        1int
    } else {
        0int
    }) - (if backward {
        1int
    } else {
        0int
    })
}

/// Net turning direction: `+1` for TurnLeft alone (a positive angle about
/// the vertical axis), `-1` for TurnRight alone, `0` when neither or both
/// are held.
pub open spec fn turn_sign(turn_left: bool, turn_right: bool) -> int {
    (if turn_left {
        1int
    } else {
        0int
    }) - (if turn_right {
        1int
    } else {
        0int
    })
}

/// The planar motion accumulator: the facing added for Forward, subtracted
/// for Backward.  With neither or both held the contributions cancel and the
/// accumulator is exactly zero, whatever the facing.
pub fn motion_accumulator(facing: Vec3Fx, input: &InputSnapshot) -> (acc: Vec3Fx)
    requires
        facing.bounded(),
    ensures
        acc.x as int == walk_sign(input.forward, input.backward) * facing.x,
        acc.y as int == walk_sign(input.forward, input.backward) * facing.y,
        acc.z as int == walk_sign(input.forward, input.backward) * facing.z,
        !input.forward && !input.backward ==> acc.is_zero(),
        input.forward && input.backward ==> acc.is_zero(),
        facing.is_zero() ==> acc.is_zero(),
        acc.bounded(),
{
    let mut acc = Vec3Fx::zero();
    if input.forward {
        acc = acc.plus(facing);
    }
    if input.backward {
        acc = acc.minus(facing);
    }
    proof {
        let s = walk_sign(input.forward, input.backward);
        if input.forward == input.backward {
            assert(s == 0);
            assert(s * facing.x == 0 && s * facing.y == 0 && s * facing.z == 0);
        } else if input.forward {
            assert(s == 1);
            assert(s * facing.x == facing.x && s * facing.y == facing.y && s * facing.z
                == facing.z);
        } else {
            assert(s == -1);
            assert(s * facing.x == -facing.x && s * facing.y == -facing.y && s * facing.z
                == -facing.z);
        }
    }
    acc
}

/// The desired planar motion for this tick: the accumulator, brought to
/// walking speed.
///
/// The accumulator is the facing, its negation, or zero.  For a facing of
/// unit length the first two are already unit vectors, so
/// normalise-then-scale is the accumulator scaled by `WALK_SPEED_UNITS` —
/// and a zero accumulator stays exactly zero rather than being normalised,
/// so no degenerate direction can arise.
pub fn desired_motion(facing: Vec3Fx, input: &InputSnapshot) -> (m: Vec3Fx)
    requires
        facing.bounded(),
    ensures
        m.x as int == walk_sign(input.forward, input.backward) * facing.x * (
        WALK_SPEED_UNITS as int),
        m.y as int == walk_sign(input.forward, input.backward) * facing.y * (
        WALK_SPEED_UNITS as int),
        m.z as int == walk_sign(input.forward, input.backward) * facing.z * (
        WALK_SPEED_UNITS as int),
        walk_sign(input.forward, input.backward) == 0 ==> m.is_zero(),
        facing.is_zero() ==> m.is_zero(),
        !input.forward && !input.backward ==> m.is_zero(),
        input.forward && input.backward ==> m.is_zero(),
{
    let acc = motion_accumulator(facing, input);
    acc.scaled_units(WALK_SPEED_UNITS)
}

/// The signed yaw angle this tick turns the player by:
/// `turn_sign * TURN_SPEED_FX * dt`, in fixed-point radians.  Holding both
/// turn actions — or neither — turns by exactly zero.
pub fn turn_delta(input: &InputSnapshot, dt_fx: i64) -> (delta: i64)
    requires
        0 <= dt_fx <= TICK_LIMIT_FX,
    ensures
        delta as int == turn_sign(input.turn_left, input.turn_right) * fx_mul_value(
            TURN_SPEED_FX as int,
            dt_fx as int,
        ),
        input.turn_left == input.turn_right ==> delta == 0,
        -2 * TICK_LIMIT_FX <= delta <= 2 * TICK_LIMIT_FX,
{
    proof {
        lemma_turn_step_bounds(dt_fx as int);
    }
    let step: i64 = fx_mul(TURN_SPEED_FX, dt_fx);
    let mut delta: i64 = 0;
    if input.turn_left {
        delta = delta + step;
    }
    if input.turn_right {
        delta = delta - step;
    }
    proof {
        let s = turn_sign(input.turn_left, input.turn_right);
        let v = fx_mul_value(TURN_SPEED_FX as int, dt_fx as int);
        if input.turn_left == input.turn_right {
            assert(s == 0);
            assert(s * v == 0);
        } else if input.turn_left {
            assert(s == 1);
            assert(s * v == v);
        } else {
            assert(s == -1);
            assert(s * v == -v);
        }
    }
    delta
}

/// The per-tick turn step `TURN_SPEED_FX * dt` stays within twice the tick
/// bound, since the turning speed is two radians per second.
proof fn lemma_turn_step_bounds(dt: int)
    requires
        0 <= dt <= TICK_LIMIT_FX as int,
    ensures
        0 <= fx_mul_value(TURN_SPEED_FX as int, dt) <= 2 * TICK_LIMIT_FX as int,
{
    let s = FX_ONE as int;
    let p = TURN_SPEED_FX as int * dt;
    lemma_div_pos_is_pos(p, s);
    lemma_div_is_ordered(p, 2 * TICK_LIMIT_FX as int * s, s);
    lemma_div_multiples_vanish_for(2 * TICK_LIMIT_FX as int);
}

/// `(FX_ONE * x) / FX_ONE == x`, stated for the one divisor this crate uses.
proof fn lemma_div_multiples_vanish_for(x: int)
    ensures
        (FX_ONE as int * x) / (FX_ONE as int) == x,
{
    vstd::arithmetic::div_mod::lemma_div_multiples_vanish(x, FX_ONE as int);
}

/// A player's facing: a yaw angle about the vertical axis, fixed-point
/// radians, increasing toward the left.
#[derive(Clone, Copy, Debug, PartialEq, Eq, Structural)]
pub struct PlayerFacing {
    pub yaw_fx: i64,
}

/// Largest yaw magnitude `PlayerFacing::turn` accepts; a caller that lets
/// the yaw wind up toward it can wrap the angle at any full turn without
/// changing the direction it stands for.
pub const YAW_LIMIT_FX: i64 = 4_000_000_000_000_000;

impl PlayerFacing {
    /// Turn by this tick's yaw angle: TurnLeft rotates by a positive angle,
    /// TurnRight by its negation, both together exactly cancel.
    pub fn turn(&mut self, input: &InputSnapshot, dt_fx: i64)
        requires
            0 <= dt_fx <= TICK_LIMIT_FX,
            -YAW_LIMIT_FX <= old(self).yaw_fx <= YAW_LIMIT_FX,
        ensures
            final(self).yaw_fx as int == old(self).yaw_fx + turn_sign(
                input.turn_left,
                input.turn_right,
            ) * fx_mul_value(TURN_SPEED_FX as int, dt_fx as int),
            input.turn_left == input.turn_right ==> final(self).yaw_fx == old(self).yaw_fx,
    {
        let delta = turn_delta(input, dt_fx);
        self.yaw_fx = self.yaw_fx + delta;
    }
}

/// What one tick hands to the external character controller: the desired
/// planar velocity and whether a jump is requested this tick.
#[derive(Clone, Copy, Debug, PartialEq, Eq, Structural)]
pub struct ControlIntent {
    pub motion: Vec3Fx,
    pub jump: bool,
}

/// The whole intent for one tick, recomputed from scratch: the desired
/// motion from the (already turned) facing, and a jump flag that is true
/// exactly while Jump is held — level-triggered, re-issued every tick, never
/// remembered from earlier ticks.
pub fn control_intent(input: &InputSnapshot, facing: Vec3Fx) -> (intent: ControlIntent)
    requires
        facing.bounded(),
    ensures
        intent.motion.x as int == walk_sign(input.forward, input.backward) * facing.x * (
        WALK_SPEED_UNITS as int),
        intent.motion.y as int == walk_sign(input.forward, input.backward) * facing.y * (
        WALK_SPEED_UNITS as int),
        intent.motion.z as int == walk_sign(input.forward, input.backward) * facing.z * (
        WALK_SPEED_UNITS as int),
        walk_sign(input.forward, input.backward) == 0 || facing.is_zero()
            ==> intent.motion.is_zero(),
        !input.forward && !input.backward ==> intent.motion.is_zero(),
        input.forward && input.backward ==> intent.motion.is_zero(),
        intent.jump == input.jump,
{
    ControlIntent {
        motion: desired_motion(facing, input),
        jump: input.pressed(PlayerAction::Jump),
    }
}

} // verus!

