use xr_utils::fixed::{
    dist_sq, isqrt_u64, norm_sq, quat_rotate, tdiv_i64, PoseFx, QuatFx, Vec3Fx,
};
use xr_utils::gravity_grab::compute_launch_velocity;

fn pose_at(x: i64, y: i64, z: i64) -> PoseFx {
    PoseFx {
        position: Vec3Fx { x, y, z },
        orientation: QuatFx { x: 0, y: 0, z: 0, w: 1000 },
    }
}

#[test]
fn isqrt_small_values() {
    assert_eq!(isqrt_u64(0), 0);
    assert_eq!(isqrt_u64(1), 1);
    assert_eq!(isqrt_u64(3), 1);
    assert_eq!(isqrt_u64(4), 2);
    assert_eq!(isqrt_u64(999_999), 999);
    assert_eq!(isqrt_u64(1_000_000), 1000);
}

#[test]
fn isqrt_largest_input() {
    assert_eq!(isqrt_u64(u64::MAX), 4_294_967_295);
}

#[test]
fn tdiv_truncates_toward_zero() {
    assert_eq!(tdiv_i64(7, 2), 3);
    assert_eq!(tdiv_i64(-7, 2), -3);
    assert_eq!(tdiv_i64(7, -2), -3);
    assert_eq!(tdiv_i64(-7, -2), 3);
    assert_eq!(tdiv_i64(0, 5), 0);
}

#[test]
fn norms_and_distances() {
    let v = Vec3Fx { x: 300, y: -400, z: 0 };
    assert_eq!(norm_sq(&v), 250_000);
    let a = Vec3Fx { x: 0, y: 0, z: 0 };
    let b = Vec3Fx { x: 2000, y: 0, z: 0 };
    assert_eq!(dist_sq(&a, &b), 4_000_000);
}

#[test]
fn identity_rotation_keeps_the_vector() {
    let q = QuatFx { x: 0, y: 0, z: 0, w: 1000 };
    let v = Vec3Fx { x: 123, y: -456, z: 789 };
    assert_eq!(quat_rotate(&q, &v), v);
}

#[test]
fn half_turn_about_y_flips_x_and_z() {
    let q = QuatFx { x: 0, y: 1000, z: 0, w: 0 };
    let v = Vec3Fx { x: 100, y: 40, z: -60 };
    let r = quat_rotate(&q, &v);
    assert_eq!(r, Vec3Fx { x: -100, y: 40, z: 60 });
}

#[test]
fn flat_ground_launch_matches_the_range_formula() {
    // hand at the origin, object two units away on the x axis
    let hand = pose_at(0, 0, 0);
    let obj = pose_at(2000, 0, 0);
    let v = compute_launch_velocity(&hand, &obj);
    // v^2 = g * d / sin(120 deg): 9_810_000 * 2000 / 866 = 22_655_889
    // speed = 4759 milli-units/s, split at 60 degrees toward the hand
    assert_eq!(v, Vec3Fx { x: -2379, y: 4121, z: 0 });
}

#[test]
fn infeasible_geometry_keeps_the_sign_and_stays_finite() {
    // hand five units above and almost directly over the object: the
    // denominator turns negative, and so does the returned speed
    let hand = pose_at(0, 5000, 0);
    let obj = pose_at(100, 0, 0);
    let v = compute_launch_velocity(&hand, &obj);
    assert_eq!(v, Vec3Fx { x: 100, y: -174, z: 0 });
    assert!(v.y < 0);
}

#[test]
fn object_directly_below_gets_no_horizontal_speed() {
    let hand = pose_at(0, 2000, 0);
    let obj = pose_at(0, 0, 0);
    let v = compute_launch_velocity(&hand, &obj);
    assert_eq!(v, Vec3Fx { x: 0, y: 0, z: 0 });
}

#[test]
fn launch_is_symmetric_in_the_horizontal_plane() {
    let hand = pose_at(0, 0, 0);
    let vx = compute_launch_velocity(&hand, &pose_at(2000, 0, 0));
    let vz = compute_launch_velocity(&hand, &pose_at(0, 0, 2000));
    assert_eq!(vx.y, vz.y);
    assert_eq!(vx.x, vz.z);
    assert_eq!(vx.z, 0);
    assert_eq!(vz.x, 0);
}
