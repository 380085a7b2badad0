use raytrace::fixed::{Fixed, SCALE};
use raytrace::math::vec2::{UnitVec2, Vec2};
use raytrace::math::vec3::{UnitVec3, Vec3};
use raytrace::math::vec4::{UnitVec4, Vec4};

fn fi(v: i64) -> Fixed {
    Fixed::from_int(v)
}

fn v3(x: i64, y: i64, z: i64) -> Vec3 {
    Vec3::new(fi(x), fi(y), fi(z))
}

#[test]
fn vec3_arithmetic() {
    let a = v3(1, 2, 3);
    let b = v3(4, -5, 6);
    assert_eq!(a.add(b), v3(5, -3, 9));
    assert_eq!(a.sub(b), v3(-3, 7, -3));
    assert_eq!(a.neg(), v3(-1, -2, -3));
    assert_eq!(a.wide_mul(b), v3(4, -10, 18));
    assert_eq!(a.scale(fi(3)), v3(3, 6, 9));
    assert_eq!(v3(8, 6, 4).wide_div(v3(2, 3, 4)), v3(4, 2, 1));
}

#[test]
fn lane_sums() {
    assert_eq!(v3(1, 2, 3).reduce_add(), fi(6));
    assert_eq!(Vec2::new(fi(3), fi(-5)).reduce_add(), fi(-2));
    assert_eq!(Vec4::new(fi(1), fi(2), fi(3), fi(4)).reduce_add(), fi(10));
}

#[test]
fn vec3_dot_is_symmetric() {
    let a = v3(1, 2, 3);
    let b = v3(4, 5, 6);
    assert_eq!(a.dot(b), fi(32));
    assert_eq!(b.dot(a), fi(32));
    assert_eq!(a.sq_norm(), fi(14));
}

#[test]
fn vec3_cross_is_antisymmetric() {
    let a = v3(1, 2, 3);
    let b = v3(4, 5, 6);
    assert_eq!(a.cross(b), v3(-3, 6, -3));
    assert_eq!(b.cross(a), a.cross(b).neg());
    // a degenerate pair still flips sign exactly
    let c = v3(2, 4, 6);
    assert_eq!(a.cross(c), c.cross(a).neg());
}

#[test]
fn vec3_norm_and_distance() {
    assert_eq!(v3(3, 4, 0).norm(), fi(5));
    assert_eq!(v3(0, 0, 0).distance(v3(0, 3, 4)), fi(5));
    assert_eq!(v3(2, 3, 6).norm(), fi(7));
}

#[test]
fn unit_vec3_accepts_only_unit_length() {
    assert!(UnitVec3::from_vec(v3(0, 0, 1)).is_some());
    assert!(UnitVec3::from_vec(v3(1, 1, 0)).is_none());
    assert!(UnitVec3::from_vec(v3(0, 0, 0)).is_none());
    assert!(UnitVec3::from_vec(v3(0, 0, 2)).is_none());
    let u = UnitVec3::from_vec(v3(0, -1, 0)).unwrap();
    assert_eq!(u.to_vec(), v3(0, -1, 0));
}

#[test]
fn vec3_normalize_results_pass_the_unit_check() {
    let d = v3(3, 4, 0).normalize().unwrap();
    let v = d.to_vec();
    // 0.6 and 0.8, truncated to raw units
    assert_eq!(v.x.raw, 3 * SCALE * SCALE / (5 * SCALE));
    assert_eq!(v.y.raw, 4 * SCALE * SCALE / (5 * SCALE));
    assert_eq!(v.z.raw, 0);
    assert!(v3(0, 0, 0).normalize().is_none());
}

#[test]
fn vec3_classification() {
    assert!(v3(1, 2, 3).is_finite());
    assert!(!v3(1, 2, 3).is_infinite());
    let sat = Vec3::new(fi(i64::MAX), fi(0), fi(0));
    assert!(!sat.is_finite());
    assert!(sat.is_infinite());
    assert!(v3(1, 1, 1).is_normal());
    assert!(!v3(1, 0, 1).is_normal());
    let m = v3(1, 0, -2).is_normal_mask();
    assert!(m.x && !m.y && m.z);
    assert!(m.any());
    assert!(!m.all());
}

#[test]
fn vec2_ops_and_unit() {
    let a = Vec2::new(fi(3), fi(4));
    assert_eq!(a.dot(a), fi(25));
    assert_eq!(a.norm(), fi(5));
    assert_eq!(a.wide_mul(Vec2::new(fi(2), fi(2))), Vec2::new(fi(6), fi(8)));
    assert_eq!(a.wide_div(Vec2::new(fi(3), fi(2))), Vec2::new(fi(1), fi(2)));
    assert!(Vec2::new(fi(1), fi(0)).unit().is_some());
    assert!(Vec2::new(fi(0), fi(0)).unit().is_none());
    assert!(UnitVec2::from_vec(Vec2::new(fi(1), fi(1))).is_none());
    let u = UnitVec2::from_vec(Vec2::new(fi(0), fi(1))).unwrap();
    assert_eq!(u.to_vec(), Vec2::new(fi(0), fi(1)));
}

#[test]
fn vec4_ops_and_swizzle() {
    let a = Vec4::new(fi(1), fi(2), fi(3), fi(4));
    let b = Vec4::new(fi(5), fi(6), fi(7), fi(8));
    assert_eq!(a.dot(b), fi(70));
    assert_eq!(a.add(b), Vec4::new(fi(6), fi(8), fi(10), fi(12)));
    assert_eq!(a.wide_mul(b), Vec4::new(fi(5), fi(12), fi(21), fi(32)));
    assert_eq!(a.swizzle::<3, 2, 1, 0>(), Vec4::new(fi(4), fi(3), fi(2), fi(1)));
    assert_eq!(a.swizzle::<0, 0, 2, 2>(), Vec4::new(fi(1), fi(1), fi(3), fi(3)));
    assert_eq!(Vec4::new(fi(2), fi(3), fi(6), fi(0)).norm(), fi(7));
    assert!(UnitVec4::from_vec(Vec4::new(fi(0), fi(0), fi(0), fi(1))).is_some());
    assert!(UnitVec4::from_vec(a).is_none());
    assert!(Vec4::new(fi(0), fi(2), fi(0), fi(0)).unit().is_some());
    let xy = Vec2::new(fi(1), fi(2));
    let zw = Vec2::new(fi(3), fi(4));
    assert_eq!(Vec4::from_vec2(xy, zw), a);
}
