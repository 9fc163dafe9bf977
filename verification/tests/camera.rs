use player_control::camera::camera_target;
use player_control::camera::follow_camera;
use player_control::camera::lerp_factor;
use player_control::camera::lerp_toward;
use player_control::camera::split_viewports;
use player_control::camera::Viewport;
use player_control::camera::CAMERA_DISTANCE_UNITS;
use player_control::camera::CAMERA_HEIGHT_UNITS;
use player_control::fixed::FX_ONE;
use player_control::vec3::Vec3Fx;

#[test]
fn target_sits_behind_and_above_the_player() {
    // Facing +Z: the camera aims 30 units behind (-Z) and 10 above.
    let player = Vec3Fx { x: 0, y: 0, z: 0 };
    let facing = Vec3Fx { x: 0, y: 0, z: FX_ONE };
    let target = camera_target(player, facing);
    assert_eq!(
        target,
        Vec3Fx { x: 0, y: CAMERA_HEIGHT_UNITS * FX_ONE, z: -CAMERA_DISTANCE_UNITS * FX_ONE }
    );
}

#[test]
fn target_follows_the_player_position() {
    let player = Vec3Fx { x: 5 * FX_ONE, y: 2 * FX_ONE, z: -7 * FX_ONE };
    let facing = Vec3Fx { x: -FX_ONE, y: 0, z: 0 };
    let target = camera_target(player, facing);
    assert_eq!(target, Vec3Fx { x: 35 * FX_ONE, y: 12 * FX_ONE, z: -7 * FX_ONE });
}

#[test]
fn lerp_moves_the_saturated_fraction_of_the_gap() {
    // dt = 0.1 s, smoothing = 5.0 /s: factor 0.5, half the gap is closed.
    let factor = lerp_factor(FX_ONE / 10, 5 * FX_ONE);
    assert_eq!(factor, FX_ONE / 2);
    let from = Vec3Fx { x: 0, y: 0, z: 0 };
    let to = Vec3Fx { x: FX_ONE, y: -4 * FX_ONE, z: 2 * FX_ONE };
    let r = lerp_toward(from, to, factor);
    assert_eq!(r, Vec3Fx { x: FX_ONE / 2, y: -2 * FX_ONE, z: FX_ONE });
}

#[test]
fn lerp_factor_saturates_at_one() {
    // dt * smoothing far past one: the factor caps at exactly one.
    assert_eq!(lerp_factor(2 * FX_ONE, 30 * FX_ONE), FX_ONE);
    assert_eq!(lerp_factor(FX_ONE / 5, 5 * FX_ONE), FX_ONE);
}

#[test]
fn saturated_follow_lands_exactly_on_the_target() {
    let camera = Vec3Fx { x: 33 * FX_ONE, y: 1, z: -12_345 };
    let player = Vec3Fx { x: 0, y: 0, z: 0 };
    let facing = Vec3Fx { x: 0, y: 0, z: FX_ONE };
    let r = follow_camera(camera, player, facing, 2 * FX_ONE, 30 * FX_ONE);
    assert_eq!(r, camera_target(player, facing));
}

#[test]
fn zero_dt_leaves_the_camera_still() {
    let camera = Vec3Fx { x: 9 * FX_ONE, y: 8 * FX_ONE, z: 7 * FX_ONE };
    let player = Vec3Fx { x: 1, y: 2, z: 3 };
    let facing = Vec3Fx { x: FX_ONE, y: 0, z: 0 };
    assert_eq!(follow_camera(camera, player, facing, 0, 5 * FX_ONE), camera);
}

#[test]
fn lerp_truncates_toward_zero_on_both_signs() {
    // A gap of 5 steps at factor one half: 2.5 truncates to 2 either way.
    let from = Vec3Fx { x: 0, y: 5, z: 0 };
    let to = Vec3Fx { x: 5, y: 0, z: 0 };
    let r = lerp_toward(from, to, FX_ONE / 2);
    assert_eq!(r, Vec3Fx { x: 2, y: 3, z: 0 });
}

#[test]
fn viewports_split_an_even_window_in_half() {
    let (top, bottom) = split_viewports(800, 600);
    assert_eq!(top, Viewport { x: 0, y: 0, width: 800, height: 300 });
    assert_eq!(bottom, Viewport { x: 0, y: 300, width: 800, height: 300 });
}

#[test]
fn viewports_give_the_odd_row_to_the_lower_half() {
    let (top, bottom) = split_viewports(1024, 601);
    assert_eq!(top, Viewport { x: 0, y: 0, width: 1024, height: 300 });
    assert_eq!(bottom, Viewport { x: 0, y: 300, width: 1024, height: 301 });
    assert_eq!(top.height + bottom.height, 601);
}
