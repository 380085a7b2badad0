use raytrace::fixed::{Fixed, SCALE};
use raytrace::math::euler::EulerAngles;
use raytrace::math::transform::Transform;
use raytrace::math::vec3::Vec3;
use raytrace::math::quat::Versor;

fn fi(v: i64) -> Fixed {
    Fixed::from_int(v)
}

fn v3(x: i64, y: i64, z: i64) -> Vec3 {
    Vec3::new(fi(x), fi(y), fi(z))
}

#[test]
fn test() {
    let half = Fixed::from_raw(SCALE / 2);
    let t = Transform::new(
        v3(1, 1, 0),
        EulerAngles::from_radians(fi(1), fi(2), fi(3)).to_versor().unwrap(),
        Vec3::splat(half),
    );

    println!("{t:?}");
    let v = t.apply(v3(1, 2, 3));
    println!("{:?} --> {v:?}", v3(1, 2, 3));
}

#[test]
fn identity_transform_fixes_points() {
    let t = Transform::default();
    let p = v3(4, -5, 6);
    assert_eq!(t.apply(p), p);
}

#[test]
fn translate_moves_the_position() {
    let mut t = Transform::default();
    t.translate(v3(1, 2, 3));
    t.translate(v3(-1, 0, 1));
    assert_eq!(t.position, v3(0, 2, 4));
    assert_eq!(t.apply(v3(1, 1, 1)), v3(1, 3, 5));
}

#[test]
fn scaling_multiplies_lane_by_lane() {
    let mut t = Transform::default();
    t.scale(v3(2, 3, 4));
    assert_eq!(t.scale, v3(2, 3, 4));
    assert_eq!(t.apply(v3(1, 1, 1)), v3(2, 3, 4));
}

#[test]
fn rotating_by_identity_keeps_rotation() {
    let mut t = Transform::default();
    t.rotate(Versor::default());
    assert_eq!(t.rotation.to_inner(), Versor::default().to_inner());
}

#[test]
fn euler_angle_conversions() {
    let e = EulerAngles::from_degrees(fi(180), fi(0), fi(0));
    // pi in raw units, through the degree factor
    assert_eq!(e.roll().raw, 180 * 1144);
    assert_eq!(e.pitch().raw, 0);
    let r = EulerAngles::from_radians_vec(v3(1, 2, 3));
    assert_eq!(r.to_radians(), v3(1, 2, 3));
    assert_eq!(r.to_inner(), v3(1, 2, 3));
    assert_eq!(r.yaw(), fi(3));
}
