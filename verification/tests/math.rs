use ciri::transform::{sat_add, Transform};
use ciri::vec3::{isqrt, milli_mul, Vec3};

#[test]
fn vec3_distance_three_four_five() {
    let a = Vec3::new(3000, 4000, 0);
    let b = Vec3::zero();
    assert_eq!(a.distance(b), 5000);
}

#[test]
fn vec3_length_exact() {
    let v = Vec3::new(1000, 2000, 2000);
    assert_eq!(v.length(), 3000);
}

#[test]
fn isqrt_edges() {
    assert_eq!(isqrt(0), 0);
    assert_eq!(isqrt(1), 1);
    assert_eq!(isqrt(15), 3);
    assert_eq!(isqrt(16), 4);
    assert_eq!(isqrt(17), 4);
    let big = (u64::MAX as u128) * (u64::MAX as u128);
    assert_eq!(isqrt(big), u64::MAX);
    assert_eq!(isqrt(u128::MAX), u64::MAX);
}

#[test]
fn vec3_dot_and_cross() {
    let x = Vec3::new(1000, 0, 0);
    let y = Vec3::new(0, 1000, 0);
    assert_eq!(x.dot(y), 0);
    let c = x.cross(y);
    assert_eq!((c.x, c.y, c.z), (0, 0, 1000));
    let a = Vec3::new(2000, 3000, 1000);
    let b = Vec3::new(1000, 1000, 1000);
    assert_eq!(a.dot(b), 6000);
}

#[test]
fn vec3_lerp_midpoint() {
    let a = Vec3::zero();
    let b = Vec3::new(1000, 2000, -2000);
    let m = a.lerp(b, 500);
    assert_eq!((m.x, m.y, m.z), (500, 1000, -1000));
}

#[test]
fn vec3_min_max_componentwise() {
    let a = Vec3::new(1, -5, 10);
    let b = Vec3::new(0, 7, 10);
    let lo = a.min(b);
    let hi = a.max(b);
    assert_eq!((lo.x, lo.y, lo.z), (0, -5, 10));
    assert_eq!((hi.x, hi.y, hi.z), (1, 7, 10));
}

#[test]
fn milli_mul_rounds_toward_zero() {
    assert_eq!(milli_mul(1500, 999), 1498);
    assert_eq!(milli_mul(-1500, 999), -1498);
    assert_eq!(milli_mul(1500, -999), -1498);
    assert_eq!(milli_mul(-1500, -999), 1498);
    assert_eq!(milli_mul(2000, 3000), 6000);
}

#[test]
fn sat_add_saturates() {
    assert_eq!(sat_add(i64::MAX, 1), i64::MAX);
    assert_eq!(sat_add(i64::MIN, -1), i64::MIN);
    assert_eq!(sat_add(40, 2), 42);
}

#[test]
fn transform_rotate_y_accumulates_and_saturates() {
    let t = Transform::identity().rotate_y(250).rotate_y(250);
    assert_eq!(t.rotation.y, 500);
    let s = Transform::identity().rotate_y(i64::MAX).rotate_y(1);
    assert_eq!(s.rotation.y, i64::MAX);
}

#[test]
fn transform_rotate_x_and_z() {
    let t = Transform::identity().rotate_x(100).rotate_z(-200);
    assert_eq!(t.rotation.x, 100);
    assert_eq!(t.rotation.z, -200);
    assert_eq!(t.rotation.y, 0);
}

#[test]
fn transform_scaling() {
    let t = Transform::from_scale(Vec3::new(2000, 2000, 2000)).uniform_scale(500);
    assert_eq!((t.scale.x, t.scale.y, t.scale.z), (1000, 1000, 1000));
}

#[test]
fn transform_translate_moves() {
    let t = Transform::identity()
        .translate(Vec3::new(10, 20, 30))
        .translate(Vec3::new(-5, 0, 5));
    assert_eq!((t.translation.x, t.translation.y, t.translation.z), (5, 20, 35));
}
