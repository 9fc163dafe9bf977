//! Camera follow and split-screen viewports.
//!
//! Each tick a camera's target is recomputed fresh from the player's
//! position and facing — a point behind the player and above it — and the
//! camera position eases toward that target by the saturated factor
//! `min(dt * smoothing, 1)`.  The camera position is the one piece of state
//! here that carries memory from tick to tick.

use crate::fixed::fx_mul;
use crate::fixed::fx_mul_value;
use crate::fixed::FX_ONE;
use crate::vec3::Vec3Fx;
use vstd::arithmetic::div_mod::lemma_div_is_ordered;
use vstd::arithmetic::div_mod::lemma_div_multiples_vanish;
use vstd::arithmetic::div_mod::lemma_div_pos_is_pos;
use vstd::arithmetic::mul::lemma_mul_inequality;
use vstd::arithmetic::mul::lemma_mul_nonnegative;
use vstd::prelude::*;

verus! {

/// How far behind the player the camera aims, whole world units.
pub const CAMERA_DISTANCE_UNITS: i64 = 30;

/// How far above the player the camera aims, whole world units.
pub const CAMERA_HEIGHT_UNITS: i64 = 10;

/// Largest smoothing constant `lerp_factor` accepts: one thousand per
/// second.
pub const SMOOTHING_LIMIT_FX: i64 = 1_000_000_000;

/// Longest tick `lerp_factor` accepts: one million seconds.
pub const FOLLOW_TICK_LIMIT_FX: i64 = 1_000_000_000_000;

/// One coordinate of the camera target: the player's coordinate, backed off
/// along the facing by the camera distance, plus the lift (zero for `x` and
/// `z`, the camera height for `y`).
pub open spec fn camera_target_coord(player: int, facing: int, lift: int) -> int {
    player - facing * (CAMERA_DISTANCE_UNITS as int) + lift
}

/// One coordinate of an interpolation step: `from`, moved toward `to` by
/// the fixed-point fraction `factor`.
pub open spec fn lerp_coord(from: int, to: int, factor: int) -> int {
    from + fx_mul_value(to - from, factor)
}

/// The point the camera steers toward: `player - facing * distance`, lifted
/// by the camera height.  Recomputed fresh each tick.
pub fn camera_target(player_pos: Vec3Fx, facing: Vec3Fx) -> (target: Vec3Fx)
    requires
        player_pos.bounded(),
        facing.unit_range(),
    ensures
        target.x as int == camera_target_coord(player_pos.x as int, facing.x as int, 0),
        target.y as int == camera_target_coord(
            player_pos.y as int,
            facing.y as int,
            CAMERA_HEIGHT_UNITS as int * FX_ONE as int,
        ),
        target.z as int == camera_target_coord(player_pos.z as int, facing.z as int, 0),
{
    let back = facing.scaled_units(CAMERA_DISTANCE_UNITS);
    let lifted = player_pos.plus(
        Vec3Fx { x: 0, y: CAMERA_HEIGHT_UNITS * FX_ONE, z: 0 },
    );
    lifted.minus(back)
}

/// The saturated interpolation factor for one tick: `dt * smoothing`,
/// capped at one.  A cap of exactly one is reached as soon as
/// `dt * smoothing` is, and from there a follow step lands on its target.
pub fn lerp_factor(dt_fx: i64, smoothing_fx: i64) -> (factor: i64)
    requires
        0 <= dt_fx <= FOLLOW_TICK_LIMIT_FX,
        0 <= smoothing_fx <= SMOOTHING_LIMIT_FX,
    ensures
        factor as int == if fx_mul_value(dt_fx as int, smoothing_fx as int) < FX_ONE as int {
            fx_mul_value(dt_fx as int, smoothing_fx as int)
        } else {
            FX_ONE as int
        },
        0 <= factor <= FX_ONE,
        fx_mul_value(dt_fx as int, smoothing_fx as int) >= FX_ONE as int ==> factor == FX_ONE,
{
    proof {
        lemma_lerp_factor_product_bounds(dt_fx as int, smoothing_fx as int);
    }
    let raw: i64 = fx_mul(dt_fx, smoothing_fx);
    if raw < FX_ONE {
        raw
    } else {
        FX_ONE
    }
}

/// `dt * smoothing / FX_ONE` is nonnegative and fits comfortably in `i64`
/// for the accepted ranges of tick length and smoothing constant.
proof fn lemma_lerp_factor_product_bounds(dt: int, smoothing: int)
    requires
        0 <= dt <= FOLLOW_TICK_LIMIT_FX as int,
        0 <= smoothing <= SMOOTHING_LIMIT_FX as int,
    ensures
        0 <= fx_mul_value(dt, smoothing) <= 0x7fff_ffff_ffff_ffff,
{
    let s = FX_ONE as int;
    let cap = FOLLOW_TICK_LIMIT_FX as int * SMOOTHING_LIMIT_FX as int;
    lemma_mul_nonnegative(dt, smoothing);
    lemma_mul_inequality(dt, FOLLOW_TICK_LIMIT_FX as int, smoothing);
    lemma_mul_inequality(smoothing, SMOOTHING_LIMIT_FX as int, FOLLOW_TICK_LIMIT_FX as int);
    assert(dt * smoothing <= cap);
    lemma_div_pos_is_pos(dt * smoothing, s);
    lemma_div_is_ordered(dt * smoothing, cap, s);
    assert(cap == s * 1_000_000_000_000_000int);
    lemma_div_multiples_vanish(1_000_000_000_000_000int, s);
}

/// One interpolation step: each coordinate of `from` moves the fraction
/// `factor` of the way toward `to`.  A factor of one lands exactly on `to`;
/// a factor of zero leaves `from` unchanged; no step overshoots its target.
pub fn lerp_toward(from: Vec3Fx, to: Vec3Fx, factor: i64) -> (r: Vec3Fx)
    requires
        i64::MIN <= to.x - from.x <= i64::MAX,
        i64::MIN <= to.y - from.y <= i64::MAX,
        i64::MIN <= to.z - from.z <= i64::MAX,
        0 <= factor <= FX_ONE,
    ensures
        r.x as int == lerp_coord(from.x as int, to.x as int, factor as int),
        r.y as int == lerp_coord(from.y as int, to.y as int, factor as int),
        r.z as int == lerp_coord(from.z as int, to.z as int, factor as int),
        factor == FX_ONE ==> r == to,
        factor == 0 ==> r == from,
        from.x <= to.x ==> from.x <= r.x <= to.x,
        to.x <= from.x ==> to.x <= r.x <= from.x,
        from.y <= to.y ==> from.y <= r.y <= to.y,
        to.y <= from.y ==> to.y <= r.y <= from.y,
        from.z <= to.z ==> from.z <= r.z <= to.z,
        to.z <= from.z ==> to.z <= r.z <= from.z,
{
    let delta = to.minus(from);
    let step = delta.scaled_fraction(factor);
    let r = from.plus(step);
    proof {
        if factor == FX_ONE {
            assert(r.x == to.x && r.y == to.y && r.z == to.z);
        }
    }
    r
}

/// One whole camera tick: recompute the target from the player, then ease
/// toward it by `min(dt * smoothing, 1)`.  Once `dt * smoothing` reaches
/// one, the step lands exactly on the target.
pub fn follow_camera(
    camera_pos: Vec3Fx,
    player_pos: Vec3Fx,
    facing: Vec3Fx,
    dt_fx: i64,
    smoothing_fx: i64,
) -> (r: Vec3Fx)
    requires
        camera_pos.bounded(),
        player_pos.bounded(),
        facing.unit_range(),
        0 <= dt_fx <= FOLLOW_TICK_LIMIT_FX,
        0 <= smoothing_fx <= SMOOTHING_LIMIT_FX,
    ensures
        ({
            let tx = camera_target_coord(player_pos.x as int, facing.x as int, 0);
            let ty = camera_target_coord(
                player_pos.y as int,
                facing.y as int,
                CAMERA_HEIGHT_UNITS as int * FX_ONE as int,
            );
            let tz = camera_target_coord(player_pos.z as int, facing.z as int, 0);
            let raw = fx_mul_value(dt_fx as int, smoothing_fx as int);
            let factor = if raw < FX_ONE as int {
                raw
            } else {
                FX_ONE as int
            };
            &&& r.x as int == lerp_coord(camera_pos.x as int, tx, factor)
            &&& r.y as int == lerp_coord(camera_pos.y as int, ty, factor)
            &&& r.z as int == lerp_coord(camera_pos.z as int, tz, factor)
            &&& raw >= FX_ONE as int ==> r.x as int == tx && r.y as int == ty && r.z as int == tz
        }),
{
    let target = camera_target(player_pos, facing);
    let factor = lerp_factor(dt_fx, smoothing_fx);
    lerp_toward(camera_pos, target, factor)
}

/// Law: interpolation with the full factor is exact — for any current
/// coordinate `c` and target coordinate `t`, easing by a saturated factor
/// of one gives exactly `t`, so a camera whose `dt * smoothing` has reached
/// one no longer lags its target at all.
pub proof fn lemma_lerp_full_factor_is_target(c: int, t: int)
    ensures
        lerp_coord(c, t, FX_ONE as int) == t,
{
    crate::fixed::lemma_fx_mul_one(t - c);
}

/// Law: interpolation with factor zero stands still — easing by zero gives
/// back exactly the current coordinate.
pub proof fn lemma_lerp_zero_factor_stays(c: int, t: int)
    ensures
        lerp_coord(c, t, 0) == c,
{
    crate::fixed::lemma_fx_mul_zero(t - c);
}

/// One camera's share of the window, in pixels, measured from the top-left
/// corner.
#[derive(Clone, Copy, Debug, PartialEq, Eq, Structural)]
pub struct Viewport {
    pub x: u32,
    pub y: u32,
    pub width: u32,
    pub height: u32,
}

/// The split-screen partition after a window resize: the top and bottom
/// halves of the window, full width each, the first player's view above the
/// second's.  The two halves tile the window exactly — every pixel row
/// belongs to exactly one of them, with the odd row (if any) going to the
/// lower view.
pub fn split_viewports(window_width: u32, window_height: u32) -> (pair: (Viewport, Viewport))
    ensures
        pair.0 == (Viewport { x: 0u32, y: 0u32, width: window_width, height: window_height / 2 }),
        pair.1.x == 0 && pair.1.y == window_height / 2,
        pair.1.width == window_width,
        pair.0.height + pair.1.height == window_height,
        pair.1.y == pair.0.height,
{
    let half: u32 = window_height / 2;
    (
        Viewport { x: 0, y: 0, width: window_width, height: half },
        Viewport { x: 0, y: half, width: window_width, height: window_height - half },
    )
}

} // verus!
