use cloudcam::camera::{Camera, TrigSample, ANGLE_SAT, DEFAULT_SENSITIVITY, PITCH_LIMIT};
use cloudcam::vecmath::{Vec3I, TRIG_ONE};
use cloudcam::TestThing;

/// Fixed-point trigonometric sample for angles given in microdegrees,
/// rounded the way a caller of the library would round.
fn trig_for(yaw_udeg: i64, pitch_udeg: i64) -> TrigSample {
    let yr = (yaw_udeg as f64 / 1_000_000.0).to_radians();
    let pr = (pitch_udeg as f64 / 1_000_000.0).to_radians();
    let s = TRIG_ONE as f64;
    TrigSample {
        sin_yaw: (yr.sin() * s).round() as i64,
        cos_yaw: (yr.cos() * s).round() as i64,
        sin_pitch: (pr.sin() * s).round() as i64,
        cos_pitch: (pr.cos() * s).round() as i64,
    }
}

fn dot(a: &Vec3I, b: &Vec3I) -> i128 {
    a.x as i128 * b.x as i128 + a.y as i128 * b.y as i128 + a.z as i128 * b.z as i128
}

fn norm_scaled(v: &Vec3I) -> f64 {
    let x = v.x as f64;
    let y = v.y as f64;
    let z = v.z as f64;
    (x * x + y * y + z * z).sqrt()
}

#[test]
fn default_camera_looks_down_positive_x() {
    let c = Camera::new();
    assert_eq!(c.yaw, 0);
    assert_eq!(c.pitch, 0);
    assert_eq!(c.sensitivity, DEFAULT_SENSITIVITY);
    // Scaled (1, 0, 0): the zero-orientation convention.
    assert_eq!(c.direction, Vec3I { x: 1_000_000, y: 0, z: 0 });
    assert_eq!(c.right, Vec3I { x: 0, y: 0, z: -1_000_000 });
    assert_eq!(c.up, Vec3I { x: 0, y: 1_000_000_000_000, z: 0 });
}

#[test]
fn basis_stays_orthogonal_across_orientations() {
    let samples = [
        (0i64, 0i64),
        (30_000_000, 45_000_000),
        (123_000_000, -67_000_000),
        (-200_000_000, 89_000_000),
        (359_000_000, -89_000_000),
    ];
    for (yaw, pitch) in samples {
        let mut c = Camera::new();
        let t = trig_for(yaw, pitch);
        c.set_basis(&t);
        assert_eq!(dot(&c.direction, &c.right), 0);
        assert_eq!(dot(&c.direction, &c.up), 0);
        assert_eq!(dot(&c.right, &c.up), 0);
        // Unit length within fixed-point tolerance, once the scales divide out.
        let dir_unit = norm_scaled(&c.direction) / 1.0e6;
        assert!((dir_unit - 1.0).abs() < 0.01, "direction norm {dir_unit}");
        // Even at the clamped pitch extremes the basis stays non-degenerate.
        assert_ne!(c.right, Vec3I { x: 0, y: 0, z: 0 });
    }
}

#[test]
fn exact_samples_give_exact_unit_lengths() {
    // 600^2 + 800^2 = 1000^2: a sample exactly on the fixed-point unit circle.
    let t = TrigSample { sin_yaw: 600, cos_yaw: 800, sin_pitch: 0, cos_pitch: 1000 };
    let mut c = Camera::new();
    c.set_basis(&t);
    assert_eq!(c.direction, Vec3I { x: 800_000, y: 0, z: 600_000 });
    // Squared lengths: TRIG_ONE^4 for the direction, cos_pitch^2 * TRIG_ONE^2
    // for the right vector.
    assert_eq!(dot(&c.direction, &c.direction), 1_000_000_000_000);
    assert_eq!(dot(&c.right, &c.right), 1_000_000_000_000);
}

#[test]
fn recalculate_is_idempotent() {
    let mut c = Camera::new();
    c.set_basis(&trig_for(42_000_000, -13_000_000));
    c.set_position(Vec3I { x: 1000, y: -2000, z: 3000 });
    c.recalculate();
    let view1 = c.view_mat.duplicate();
    let proj1 = c.projection.duplicate();
    let mvp1 = c.mvp.duplicate();
    c.recalculate();
    assert_eq!(c.view_mat.m, view1.m);
    assert_eq!(c.projection.m, proj1.m);
    assert_eq!(c.mvp.m, mvp1.m);
}

#[test]
fn view_matrix_holds_basis_rows_and_translation() {
    let mut c = Camera::new();
    c.recalculate();
    // Zero orientation at the origin: rows are the basis, no translation.
    let m = &c.view_mat.m;
    assert_eq!(&m[0..3], &[0, 0, -1_000_000]);
    assert_eq!(m[3], 0);
    assert_eq!(&m[4..7], &[0, 1_000_000_000_000, 0]);
    assert_eq!(m[7], 0);
    assert_eq!(&m[8..11], &[-1_000_000, 0, 0]);
    assert_eq!(m[11], 0);
    assert_eq!(&m[12..16], &[0, 0, 0, 1]);
}

#[test]
fn mvp_is_projection_times_view() {
    let mut c = Camera::new();
    c.recalculate();
    // Row 0 of the projection is (1333, 0, 0, 0), so row 0 of the mvp is
    // 1333 times row 0 of the view.
    assert_eq!(c.mvp.m[0], 0);
    assert_eq!(c.mvp.m[1], 0);
    assert_eq!(c.mvp.m[2], 1333 * -1_000_000);
    assert_eq!(c.mvp.m[3], 0);
    // Row 1 is 1000 times row 1 of the view.
    assert_eq!(c.mvp.m[5], 1000 * 1_000_000_000_000);
    // Bottom row: (0, 0, -1000, 0) against the view's columns.
    assert_eq!(c.mvp.m[12], -1000 * -1_000_000);
    assert_eq!(c.mvp.m[15], 0);
}

#[test]
fn snapshot_copies_the_render_inputs() {
    let mut c = Camera::new();
    c.set_basis(&trig_for(77_000_000, 11_000_000));
    c.recalculate();
    let snap = c.snapshot();
    assert_eq!(snap.direction, c.direction);
    assert_eq!(snap.position, c.position);
    assert_eq!(snap.mvp.m, c.mvp.m);
}

#[test]
fn pitch_is_clamped_to_89_degrees() {
    let mut t = TestThing::new();
    t.set_mouse_focused(true);
    t.cursor_pos(0, 0);
    // A huge upward mouse move: pitch stops at +89 degrees.
    t.cursor_pos(0, -100_000_000);
    assert_eq!(t.camera.pitch, PITCH_LIMIT);
    // A huge downward move: pitch stops at -89 degrees.
    t.cursor_pos(0, 1_000_000_000);
    assert_eq!(t.camera.pitch, -PITCH_LIMIT);
    assert!(t.camera.yaw.abs() <= ANGLE_SAT);
}

#[test]
fn activation_reset_applies_no_rotation_on_first_sample() {
    let mut t = TestThing::new();
    t.set_mouse_focused(true);
    // First sample after activation: baseline only.
    t.cursor_pos(100_000, 100_000);
    assert_eq!(t.camera.yaw, 0);
    assert_eq!(t.camera.pitch, 0);
    // Second sample: a (10, 5)-pixel move at 5 degrees per pixel.
    t.cursor_pos(110_000, 105_000);
    assert_eq!(t.camera.yaw, 50_000_000);
    assert_eq!(t.camera.pitch, -25_000_000);
}

#[test]
fn reactivation_suppresses_the_stale_delta() {
    let mut t = TestThing::new();
    t.set_mouse_focused(true);
    t.cursor_pos(0, 0);
    t.cursor_pos(1_000, 0);
    let yaw_after_move = t.camera.yaw;
    assert_eq!(yaw_after_move, 5_000_000);
    t.set_mouse_focused(false);
    assert!(t.vars.first_mouse);
    t.set_mouse_focused(true);
    // Far away from the last sample, but the first event is a baseline.
    t.cursor_pos(900_000, 900_000);
    assert_eq!(t.camera.yaw, yaw_after_move);
    assert_eq!(t.camera.pitch, 0);
}

#[test]
fn cursor_events_are_noops_while_unfocused() {
    let mut t = TestThing::new();
    t.cursor_pos(123_000, 456_000);
    t.cursor_pos(-55_000, 7_000);
    assert_eq!(t.camera.yaw, 0);
    assert_eq!(t.camera.pitch, 0);
    assert_eq!(t.camera.direction, Vec3I { x: 1_000_000, y: 0, z: 0 });
    assert!(t.vars.first_mouse);
    assert!(!t.vars.mouse_focused);
    assert_eq!(t.vars.last_x, 0);
    assert_eq!(t.vars.last_y, 0);
}
