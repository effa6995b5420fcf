use bevy_flycam::camera::{FpsCamera, Key};
use bevy_flycam::fixed::{clamp, div_trunc, fx_mul, FX_ONE};
use bevy_flycam::look::{player_look, sum_motion, MouseDelta};
use bevy_flycam::movement::{
    movement_axes, normalize_or_zero, player_move, NormDir, RoutineOutcome, INV_SQRT2,
};
use bevy_flycam::scroll::{
    scroll, scroll_fov_event, switch_scroll_type, ScrollType, FOV_MAX,
};
use bevy_flycam::transform::{
    wrap_angle, CameraTransform, Vec3Fx, PITCH_LIMIT, TRANSLATION_MAX,
};

fn unit_forward() -> Vec3Fx {
    Vec3Fx { x: 0, y: 0, z: -FX_ONE }
}

fn unit_right() -> Vec3Fx {
    Vec3Fx { x: FX_ONE, y: 0, z: 0 }
}

fn origin_transform() -> CameraTransform {
    CameraTransform {
        translation: Vec3Fx { x: 0, y: 0, z: 0 },
        yaw: 0,
        pitch: 0,
    }
}

#[test]
fn default_camera_record() {
    let cam = FpsCamera::default();
    assert_eq!(cam.sensitivity, 30_000_000);
    assert_eq!(cam.speed, Vec3Fx { x: FX_ONE, y: FX_ONE, z: FX_ONE });
    assert_eq!(cam.move_forward, Key(32));
    assert_eq!(cam.move_backward, Key(28));
    assert_eq!(cam.move_left, Key(10));
    assert_eq!(cam.move_right, Key(13));
}

#[test]
fn fixed_point_helpers_exact() {
    assert_eq!(fx_mul(1_500_000, 2_000_000), 3_000_000);
    assert_eq!(fx_mul(-1_500_000, 2_000_000), -3_000_000);
    assert_eq!(fx_mul(1_500_000, -2_000_000), -3_000_000);
    assert_eq!(div_trunc(-105, 10), -10);
    assert_eq!(div_trunc(105, 10), 10);
    assert_eq!(clamp(7, -5, 5), 5);
    assert_eq!(clamp(-7, -5, 5), -5);
    assert_eq!(clamp(3, -5, 5), 3);
}

#[test]
fn wrap_angle_exact() {
    assert_eq!(wrap_angle(190_000_000), -170_000_000);
    assert_eq!(wrap_angle(-190_000_000), 170_000_000);
    assert_eq!(wrap_angle(360_000_000), 0);
    assert_eq!(wrap_angle(180_000_000), 180_000_000);
    assert_eq!(wrap_angle(0), 0);
}

#[test]
fn axes_single_forward_key() {
    let cam = FpsCamera::default();
    let axes = movement_axes(&cam, &vec![Key(32)]);
    assert_eq!(axes, (1, 0));
}

#[test]
fn axes_opposite_keys_cancel() {
    let cam = FpsCamera::default();
    let axes = movement_axes(&cam, &vec![Key(32), Key(28)]);
    assert_eq!(axes, (0, 0));
    let axes = movement_axes(&cam, &vec![Key(10), Key(13)]);
    assert_eq!(axes, (0, 0));
}

#[test]
fn axes_duplicate_binding_shadowed() {
    // The same key bound forward and backward feeds only the first
    // binding it matches.
    let mut cam = FpsCamera::default();
    cam.move_forward = Key(99);
    cam.move_backward = Key(99);
    let axes = movement_axes(&cam, &vec![Key(99)]);
    assert_eq!(axes, (1, 0));
}

#[test]
fn normalize_zero_and_unit() {
    assert_eq!(normalize_or_zero(0, 0), NormDir::Zero);
    assert_eq!(normalize_or_zero(1, -1), NormDir::Unit { f: 1, r: -1 });
    assert_eq!(normalize_or_zero(0, 1), NormDir::Unit { f: 0, r: 1 });
}

#[test]
fn move_forward_one_second() {
    let cam = FpsCamera::default();
    let mut t = origin_transform();
    let out = player_move(
        &cam, &vec![Key(32)], true, &unit_forward(), &unit_right(), FX_ONE, &mut t);
    assert_eq!(out, RoutineOutcome::Applied);
    assert_eq!(t.translation, Vec3Fx { x: 0, y: 0, z: -FX_ONE });
    assert_eq!(t.yaw, 0);
    assert_eq!(t.pitch, 0);
}

#[test]
fn move_diagonal_is_unit_scaled() {
    // Forward plus right is normalized by the inverse square root of
    // two before speed scaling.
    let cam = FpsCamera::default();
    let mut t = origin_transform();
    player_move(
        &cam, &vec![Key(32), Key(13)], true, &unit_forward(), &unit_right(), FX_ONE, &mut t);
    assert_eq!(t.translation, Vec3Fx { x: INV_SQRT2, y: 0, z: -INV_SQRT2 });
}

#[test]
fn move_no_keys_translation_unchanged() {
    let cam = FpsCamera::default();
    let mut t = origin_transform();
    t.translation = Vec3Fx { x: 7, y: 8, z: 9 };
    let out = player_move(&cam, &vec![], true, &unit_forward(), &unit_right(), FX_ONE, &mut t);
    assert_eq!(out, RoutineOutcome::Applied);
    assert_eq!(t.translation, Vec3Fx { x: 7, y: 8, z: 9 });
}

#[test]
fn move_no_window_is_a_warning_and_no_op() {
    let cam = FpsCamera::default();
    let mut t = origin_transform();
    t.translation = Vec3Fx { x: 1, y: 2, z: 3 };
    let out = player_move(
        &cam, &vec![Key(32)], false, &unit_forward(), &unit_right(), FX_ONE, &mut t);
    assert_eq!(out, RoutineOutcome::NoPrimaryWindow);
    assert_eq!(t.translation, Vec3Fx { x: 1, y: 2, z: 3 });
}

#[test]
fn move_translation_saturates() {
    let cam = FpsCamera::default();
    let mut t = origin_transform();
    t.translation.x = TRANSLATION_MAX;
    // Forward along +x pushes past the representable range and stays
    // at the bound.
    let fwd = Vec3Fx { x: FX_ONE, y: 0, z: 0 };
    player_move(&cam, &vec![Key(32)], true, &fwd, &unit_right(), FX_ONE, &mut t);
    assert_eq!(t.translation.x, TRANSLATION_MAX);
}

#[test]
fn sum_motion_exact() {
    let events = vec![MouseDelta { x: 1, y: 2 }, MouseDelta { x: 3, y: 4 }];
    assert_eq!(sum_motion(&events), (4, 6));
}

#[test]
fn look_exact_rotation() {
    // Sensitivity 30 degrees over a 600-pixel smaller dimension gives
    // 50_000 micro-degrees per count.
    let cam = FpsCamera::default();
    let mut t = origin_transform();
    let events = vec![MouseDelta { x: 100, y: 50 }];
    let out = player_look(&cam, &events, Some((800, 600)), &mut t);
    assert_eq!(out, RoutineOutcome::Applied);
    assert_eq!(t.yaw, -5_000_000);
    assert_eq!(t.pitch, -2_500_000);
    assert_eq!(t.translation, Vec3Fx { x: 0, y: 0, z: 0 });
}

#[test]
fn look_pitch_clamps_regardless_of_magnitude() {
    let cam = FpsCamera::default();
    let mut t = origin_transform();
    let events = vec![MouseDelta { x: 0, y: 10_000 }];
    player_look(&cam, &events, Some((800, 600)), &mut t);
    assert_eq!(t.pitch, -PITCH_LIMIT);
    let mut t2 = origin_transform();
    let events = vec![MouseDelta { x: 0, y: -10_000 }];
    player_look(&cam, &events, Some((800, 600)), &mut t2);
    assert_eq!(t2.pitch, PITCH_LIMIT);
}

#[test]
fn look_negative_sensitivity_inverts() {
    let mut cam = FpsCamera::default();
    cam.sensitivity = -30_000_000;
    let mut t = origin_transform();
    let events = vec![MouseDelta { x: 100, y: 50 }];
    player_look(&cam, &events, Some((800, 600)), &mut t);
    assert_eq!(t.yaw, 5_000_000);
    assert_eq!(t.pitch, 2_500_000);
}

#[test]
fn look_yaw_wraps_around() {
    let cam = FpsCamera::default();
    let mut t = origin_transform();
    t.yaw = 179_000_000;
    let events = vec![MouseDelta { x: -100, y: 0 }];
    player_look(&cam, &events, Some((800, 600)), &mut t);
    assert_eq!(t.yaw, -176_000_000);
}

#[test]
fn look_zero_motion_rotation_unchanged() {
    let cam = FpsCamera::default();
    let mut t = origin_transform();
    t.yaw = 10_000_000;
    t.pitch = 5_000_000;
    let out = player_look(&cam, &vec![], Some((800, 600)), &mut t);
    assert_eq!(out, RoutineOutcome::Applied);
    assert_eq!(t.yaw, 10_000_000);
    assert_eq!(t.pitch, 5_000_000);
}

#[test]
fn look_no_window_is_a_warning_and_no_op() {
    let cam = FpsCamera::default();
    let mut t = origin_transform();
    t.yaw = 10_000_000;
    let events = vec![MouseDelta { x: 100, y: 100 }];
    let out = player_look(&cam, &events, None, &mut t);
    assert_eq!(out, RoutineOutcome::NoPrimaryWindow);
    assert_eq!(t.yaw, 10_000_000);
    assert_eq!(t.pitch, 0);
}

#[test]
fn toggle_parity_even_and_odd() {
    let start = ScrollType::MovementSpeed;
    let mut mode = start;
    for _ in 0..4 {
        mode = switch_scroll_type(mode, true);
    }
    assert_eq!(mode, start);
    for _ in 0..7 {
        mode = switch_scroll_type(mode, true);
    }
    assert_eq!(mode, ScrollType::Zoom);
    // Without a key-press edge the mode stays put.
    assert_eq!(switch_scroll_type(ScrollType::Zoom, false), ScrollType::Zoom);
    assert_eq!(ScrollType::default(), ScrollType::MovementSpeed);
}

#[test]
fn scroll_zoom_mode_adjusts_fov_only() {
    let mut cam = FpsCamera::default();
    let mut fov: i64 = 780_000;
    scroll(ScrollType::Zoom, &vec![1_000_000], &mut cam, &mut fov);
    assert_eq!(fov, 770_000);
    assert_eq!(cam.speed, Vec3Fx { x: FX_ONE, y: FX_ONE, z: FX_ONE });
}

#[test]
fn scroll_speed_mode_additionally_rescales_speed() {
    let mut cam = FpsCamera::default();
    let mut fov: i64 = 780_000;
    scroll(ScrollType::MovementSpeed, &vec![2_000_000], &mut cam, &mut fov);
    assert_eq!(fov, 760_000);
    // Two scroll lines rescale the speed by two tenths, on every axis.
    assert_eq!(cam.speed, Vec3Fx { x: 200_000, y: 200_000, z: 200_000 });
    assert_eq!(cam.sensitivity, 30_000_000);
}

#[test]
fn scroll_fov_monotonic_in_wheel_sign() {
    let fov: i64 = 780_000;
    let up = scroll_fov_event(fov, 1_000_000);
    let down = scroll_fov_event(fov, -1_000_000);
    let still = scroll_fov_event(fov, 0);
    assert!(up < fov);
    assert!(down > fov);
    assert_eq!(still, fov);
}

#[test]
fn scroll_fov_clamps_at_zero() {
    // A wheel delta past the whole field of view stops at zero: a
    // positive delta never raises the field of view.
    assert_eq!(scroll_fov_event(10_000, 100_000_000), 0);
}

#[test]
fn scroll_fov_saturates_at_range() {
    assert_eq!(scroll_fov_event(FOV_MAX, -1_000_000_000), FOV_MAX);
}

#[test]
fn scroll_speed_saturates_at_range() {
    let mut cam = FpsCamera::default();
    cam.speed = Vec3Fx { x: 1_000_000_000, y: 1_000_000_000, z: 1_000_000_000 };
    let mut fov: i64 = 780_000;
    scroll(ScrollType::MovementSpeed, &vec![1_000_000_000], &mut cam, &mut fov);
    assert_eq!(cam.speed.x, 1_000_000_000);
    assert_eq!(cam.speed.y, 1_000_000_000);
    assert_eq!(cam.speed.z, 1_000_000_000);
}

#[test]
fn scroll_many_events_fold_in_order() {
    let mut cam = FpsCamera::default();
    let mut fov: i64 = 780_000;
    scroll(ScrollType::Zoom, &vec![1_000_000, 1_000_000, -1_000_000], &mut cam, &mut fov);
    assert_eq!(fov, 770_000);
}

#[test]
fn move_backward_and_left() {
    let cam = FpsCamera::default();
    let mut t = origin_transform();
    player_move(&cam, &vec![Key(28)], true, &unit_forward(), &unit_right(), FX_ONE, &mut t);
    assert_eq!(t.translation, Vec3Fx { x: 0, y: 0, z: FX_ONE });
    let mut t2 = origin_transform();
    player_move(&cam, &vec![Key(10)], true, &unit_forward(), &unit_right(), FX_ONE, &mut t2);
    assert_eq!(t2.translation, Vec3Fx { x: -FX_ONE, y: 0, z: 0 });
}

#[test]
fn move_speed_scales_translation() {
    let mut cam = FpsCamera::default();
    cam.speed = Vec3Fx { x: 2 * FX_ONE, y: 2 * FX_ONE, z: 2 * FX_ONE };
    let mut t = origin_transform();
    player_move(&cam, &vec![Key(32)], true, &unit_forward(), &unit_right(), 500_000, &mut t);
    // Two units per second for half a second is one unit.
    assert_eq!(t.translation.z, -FX_ONE);
}

#[test]
fn move_non_uniform_speed_scales_per_axis() {
    let mut cam = FpsCamera::default();
    cam.speed = Vec3Fx { x: FX_ONE, y: FX_ONE, z: 3 * FX_ONE };
    let mut t = origin_transform();
    player_move(&cam, &vec![Key(32)], true, &unit_forward(), &unit_right(), FX_ONE, &mut t);
    assert_eq!(t.translation, Vec3Fx { x: 0, y: 0, z: -3 * FX_ONE });
}
