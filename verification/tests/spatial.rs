use simcore::fixed::{isqrt, scaled_unit, Vec3, FP_ONE};
use simcore::transform::BodyLocation;
use simcore::render::Camera;
use simcore::trig::{cos_fp, sin_fp};

#[test]
fn rotation_stays_canonical() {
    let mut loc = BodyLocation::zero();
    loc.rotate(190_000, -200_000);
    assert_eq!(loc.yaw, -170_000);
    assert_eq!(loc.pitch, 160_000);
    for _ in 0..10 {
        loc.rotate(123_456, -654_321);
        assert!(-180_000 <= loc.yaw && loc.yaw < 180_000);
        assert!(-180_000 <= loc.pitch && loc.pitch < 180_000);
    }
    let mut edge = BodyLocation::zero();
    edge.rotate(180_000, -180_000);
    assert_eq!(edge.yaw, -180_000);
    assert_eq!(edge.pitch, -180_000);
}

#[test]
fn trig_exact_values() {
    assert_eq!(sin_fp(0), 0);
    assert_eq!(cos_fp(0), FP_ONE);
    assert_eq!(sin_fp(90_000), FP_ONE);
    assert_eq!(sin_fp(-90_000), -FP_ONE);
    assert_eq!(sin_fp(30_000), 500);
    assert_eq!(sin_fp(180_000), 0);
}

#[test]
fn integer_square_root() {
    assert_eq!(isqrt(0), 0);
    assert_eq!(isqrt(1), 1);
    assert_eq!(isqrt(999_999), 999);
    assert_eq!(isqrt(1_000_000), 1000);
    assert_eq!(isqrt(2_000_000), 1414);
}

#[test]
fn forward_with_identity_orientation_moves_exactly() {
    let mut loc = BodyLocation::zero();
    loc.forward(Vec3 { x: 10, y: 20, z: -30 });
    assert_eq!(loc.position, Vec3 { x: 10, y: 20, z: -30 });
    assert_eq!(loc.yaw, 0);
    assert_eq!(loc.pitch, 0);
}

#[test]
fn forward_respects_yaw() {
    // Facing a quarter turn to the right, a step down the local negative Z
    // axis moves down the world positive X axis.
    let mut loc = BodyLocation::zero();
    loc.rotate(90_000, 0);
    loc.forward(Vec3 { x: 0, y: 0, z: -1000 });
    assert_eq!(loc.position, Vec3 { x: 1000, y: 0, z: 0 });
}

#[test]
fn translate_saturates_at_machine_range() {
    let mut loc = BodyLocation::at_pos(Vec3 { x: i64::MAX - 1, y: 0, z: 0 });
    loc.translate(Vec3 { x: 100, y: 0, z: 0 });
    assert_eq!(loc.position.x, i64::MAX);
}

#[test]
fn scaled_unit_keeps_axis_steps_exact() {
    let v = scaled_unit(Vec3 { x: 0, y: 0, z: -1000 }, 100);
    assert_eq!(v, Vec3 { x: 0, y: 0, z: -100 });
    let diag = scaled_unit(Vec3 { x: 1000, y: 0, z: -1000 }, 100);
    assert_eq!(diag, Vec3 { x: 70, y: 0, z: -70 });
    let zero = scaled_unit(Vec3 { x: 0, y: 0, z: 0 }, 100);
    assert_eq!(zero, Vec3 { x: 0, y: 0, z: 0 });
}

#[test]
fn look_at_straight_axes() {
    let mut loc = BodyLocation::zero();
    loc.look_at(Vec3 { x: 1000, y: 0, z: 0 });
    assert_eq!(loc.yaw, 90_000);
    // A level direction pitches within the sine's fixed-point grain.
    assert!(loc.pitch.abs() <= 60, "pitch: {}", loc.pitch);
    assert_eq!(loc.position, Vec3 { x: 0, y: 0, z: 0 });

    let mut up = BodyLocation::zero();
    up.look_at(Vec3 { x: 0, y: 1000, z: 0 });
    assert_eq!(up.yaw, 0);
    assert_eq!(up.pitch, 90_000);
}

#[test]
fn look_at_round_trips_the_direction() {
    // Derive yaw/pitch from a direction, rebuild the facing vector from
    // them, and compare against the normalized direction.
    let targets = [
        Vec3 { x: 1000, y: 0, z: 1000 },
        Vec3 { x: -500, y: 300, z: 800 },
        Vec3 { x: 200, y: -900, z: -400 },
    ];
    for target in targets {
        let mut loc = BodyLocation::zero();
        loc.look_at(target);
        let unit = scaled_unit(target, 1000);
        let cp = cos_fp(loc.pitch);
        let fx = (sin_fp(loc.yaw) as i128 * cp as i128 / 1000) as i64;
        let fy = sin_fp(loc.pitch);
        let fz = (cos_fp(loc.yaw) as i128 * cp as i128 / 1000) as i64;
        let tol = 15;
        assert!((fx - unit.x).abs() <= tol, "x: {} vs {}", fx, unit.x);
        assert!((fy - unit.y).abs() <= tol, "y: {} vs {}", fy, unit.y);
        assert!((fz - unit.z).abs() <= tol, "z: {} vs {}", fz, unit.z);
    }
}

#[test]
fn projection_entries_for_square_surface() {
    // A 90-degree field of view over a square surface: the focal scale is
    // exactly one, and the depth row carries the near/far constants.
    let cam = Camera::new(90_000, 1000);
    let m = cam.projection_matrix;
    assert_eq!(m.m00, 1000);
    assert_eq!(m.m11, 1000);
    assert_eq!(m.m22, -1002);
    assert_eq!(m.m23, -200);
    assert_eq!(m.m32, -1000);
    assert_eq!(m.m33, 0);
}

#[test]
fn model_to_world_translates_by_negated_position() {
    let loc = BodyLocation::at_pos(Vec3 { x: 1000, y: 2000, z: -3000 });
    let m = loc.model_to_world_matrix();
    assert_eq!(m.m00, 1000);
    assert_eq!(m.m11, 1000);
    assert_eq!(m.m22, 1000);
    assert_eq!(m.m03, -1000);
    assert_eq!(m.m13, -2000);
    assert_eq!(m.m23, 3000);
}
