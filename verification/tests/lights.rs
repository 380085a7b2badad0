use raytrace::fixed::{Fixed, SCALE};
use raytrace::light::ambient::Ambient;
use raytrace::light::point::Point;
use raytrace::light::{Light, SceneLight};
use raytrace::math::vec3::Vec3;

fn fi(v: i64) -> Fixed {
    Fixed::from_int(v)
}

fn v3(x: i64, y: i64, z: i64) -> Vec3 {
    Vec3::new(fi(x), fi(y), fi(z))
}

fn white() -> Vec3 {
    v3(1, 1, 1)
}

#[test]
fn ambient_contributes_everywhere() {
    let light = Ambient::new(white());
    assert_eq!(light.hits(v3(0, 0, 0)), Some(white()));
    assert_eq!(light.hits(v3(100, -3, 7)), Some(white()));
}

#[test]
fn point_falloff_is_inverse_square() {
    let light = Point::new(Vec3::zero(), white(), fi(1));
    // at distance 2 the contribution is a quarter of white
    let quarter = SCALE / 4;
    assert_eq!(
        light.hits(v3(0, 0, 2)),
        Some(Vec3::new(
            Fixed::from_raw(quarter),
            Fixed::from_raw(quarter),
            Fixed::from_raw(quarter),
        ))
    );
    // at distance 1 the contribution is white itself
    assert_eq!(light.hits(v3(1, 0, 0)), Some(white()));
}

#[test]
fn point_falloff_vanishes_far_away() {
    let light = Point::new(Vec3::zero(), white(), fi(1));
    assert_eq!(light.hits(v3(0, 0, 4096)), None);
}

#[test]
fn point_light_ignores_coincident_points() {
    let light = Point::new(v3(1, 2, 3), white(), fi(1));
    assert_eq!(light.hits(v3(1, 2, 3)), None);
}

#[test]
fn scene_light_dispatches() {
    let a = Ambient::new_unsize(white());
    let p = Point::new_unsize(Vec3::zero(), white(), fi(1));
    assert_eq!(a.hits(v3(5, 5, 5)), Some(white()));
    assert_eq!(p.hits(v3(0, 2, 0)).unwrap().x.raw, SCALE / 4);
    match a {
        SceneLight::Ambient(inner) => assert_eq!(inner.color, white()),
        SceneLight::Point(_) => panic!("wrong variant"),
    }
}
