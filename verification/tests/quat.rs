use raytrace::fixed::{Fixed, SCALE};
use raytrace::math::euler::EulerAngles;
use raytrace::math::quat::{Quaternion, Versor};
use raytrace::math::vec3::Vec3;
use raytrace::math::vec4::Vec4;

fn fi(v: i64) -> Fixed {
    Fixed::from_int(v)
}

fn q(r: i64, i: i64, j: i64, k: i64) -> Quaternion {
    Quaternion::new(fi(r), fi(i), fi(j), fi(k))
}

#[test]
fn identity_is_two_sided() {
    let one = q(1, 0, 0, 0);
    let a = q(3, -2, 5, 7);
    assert_eq!(one.mul(a), a);
    assert_eq!(a.mul(one), a);
}

#[test]
fn multiplication_is_not_commutative() {
    let i = q(0, 1, 0, 0);
    let j = q(0, 0, 1, 0);
    let k = q(0, 0, 0, 1);
    assert_eq!(i.mul(j), k);
    assert_eq!(j.mul(i), k.conjugate());
    assert_ne!(i.mul(j), j.mul(i));
}

#[test]
fn multiplication_is_associative_on_whole_values() {
    let a = q(1, 2, 3, 4);
    let b = q(5, -6, 7, -8);
    let c = q(-9, 10, -11, 12);
    assert_eq!(a.mul(b).mul(c), a.mul(b.mul(c)));
}

#[test]
fn conjugate_and_inverse() {
    let a = q(1, 2, 3, 4);
    assert_eq!(a.conjugate(), q(1, -2, -3, -4));
    assert_eq!(a.sq_norm(), fi(30));
    // inverse of a unit basis quaternion is its conjugate
    let i = q(0, 1, 0, 0);
    assert_eq!(i.inverse(), q(0, -1, 0, 0));
    assert_eq!(i.mul(i.inverse()), q(1, 0, 0, 0));
}

#[test]
fn quaternion_unit_scales_to_unit_norm() {
    let a = q(3, 0, 4, 0);
    let u = a.unit();
    assert_eq!(u.to_inner().x.raw, 3 * SCALE * SCALE / (5 * SCALE));
    assert_eq!(u.to_inner().z.raw, 4 * SCALE * SCALE / (5 * SCALE));
}

#[test]
fn versor_checks_unit_norm() {
    assert!(Versor::new(q(1, 0, 0, 0)).is_some());
    assert!(Versor::new(q(1, 1, 0, 0)).is_none());
    assert!(Versor::from_quaternion(q(3, 0, 4, 0)).is_some());
    assert!(Versor::from_quaternion(q(0, 0, 0, 0)).is_none());
    let v = Versor::default();
    assert_eq!(v.to_inner(), q(1, 0, 0, 0));
    assert_eq!(v.inverse().to_inner(), q(1, 0, 0, 0));
}

#[test]
fn versor_from_euler_of_zero_is_identity() {
    let e = EulerAngles::from_radians(Fixed::zero(), Fixed::zero(), Fixed::zero());
    let v = e.to_versor().unwrap();
    assert_eq!(v.to_inner(), q(1, 0, 0, 0));
}

#[test]
fn quaternion_from_euler_of_zero_is_identity() {
    let e = EulerAngles::from_radians(Fixed::zero(), Fixed::zero(), Fixed::zero());
    assert_eq!(Quaternion::from_euler(e), q(1, 0, 0, 0));
}

#[test]
fn identity_rotation_fixes_vectors() {
    let v = Versor::default();
    let p = Vec3::new(fi(1), fi(2), fi(3));
    assert_eq!(v.apply(p), p);
}

#[test]
fn composing_with_identity_keeps_rotation() {
    let id = Versor::default();
    let r = Versor::new(q(0, 1, 0, 0)).unwrap();
    let composed = r.mul(id).unwrap();
    assert_eq!(composed.to_inner(), r.to_inner());
}

#[test]
fn quaternion_accessors() {
    let a = q(1, 2, 3, 4);
    assert_eq!(a.r(), fi(1));
    assert_eq!(a.i(), fi(2));
    assert_eq!(a.j(), fi(3));
    assert_eq!(a.k(), fi(4));
    assert_eq!(a.to_inner(), Vec4::new(fi(1), fi(2), fi(3), fi(4)));
    assert_eq!(Quaternion::from_vec(a.to_inner()), a);
}
