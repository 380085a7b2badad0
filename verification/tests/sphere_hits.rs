use raytrace::fixed::Fixed;
use raytrace::math::vec3::{UnitVec3, Vec3};
use raytrace::object::sphere::Sphere;
use raytrace::object::{Object, Ray};

fn fi(v: i64) -> Fixed {
    Fixed::from_int(v)
}

fn v3(x: i64, y: i64, z: i64) -> Vec3 {
    Vec3::new(fi(x), fi(y), fi(z))
}

#[test]
fn mod_test_sphere_hit() {
    let center = Vec3::zero();
    let sphere = Sphere::new(center, fi(1));
    let ray = Ray::new(
        v3(0, 0, -5),
        UnitVec3::new_unchecked(fi(0), fi(0), fi(1)),
    );
    let hit = sphere.is_hit_by(ray);
    assert_eq!(hit.unwrap(), fi(4));
}

#[test]
fn sphere_test_sphere_hit() {
    let center = v3(0, 0, 0);
    let sphere = Sphere::new(center, fi(1));
    let direction = UnitVec3::from_vec(v3(0, 0, 1).unit()).unwrap();
    let ray = Ray::new(v3(0, 0, -5), direction);
    let hit = sphere.is_hit_by(ray);

    println!("{hit:?}");
    assert_eq!(hit.unwrap(), fi(4));
}

#[test]
fn sphere_miss_sideways() {
    let sphere = Sphere::new(Vec3::zero(), fi(1));
    let ray = Ray::new(
        v3(0, 0, -5),
        UnitVec3::new_unchecked(fi(1), fi(0), fi(0)),
    );
    assert!(sphere.is_hit_by(ray).is_none());
}

#[test]
fn sphere_hit_from_inside_takes_radius() {
    let sphere = Sphere::new(Vec3::zero(), fi(5));
    let dirs = [
        UnitVec3::new_unchecked(fi(0), fi(0), fi(1)),
        UnitVec3::new_unchecked(fi(0), fi(-1), fi(0)),
        UnitVec3::new_unchecked(fi(1), fi(0), fi(0)),
        UnitVec3::from_vec(v3(3, 0, 4).unit()).unwrap(),
    ];
    for d in dirs {
        let ray = Ray::new(Vec3::zero(), d);
        let t = sphere.is_hit_by(ray).unwrap();
        assert!(t.raw >= 0);
        assert_eq!(t, fi(5));
    }
}

#[test]
fn sphere_behind_origin_is_a_miss() {
    let sphere = Sphere::new(v3(0, 0, -5), fi(1));
    let ray = Ray::new(
        Vec3::zero(),
        UnitVec3::new_unchecked(fi(0), fi(0), fi(1)),
    );
    assert!(sphere.is_hit_by(ray).is_none());
}

#[test]
fn sphere_normal_points_outward() {
    let sphere = Sphere::new(Vec3::zero(), fi(1));
    let n = sphere.normal(v3(0, 0, -1)).unwrap();
    assert_eq!(n.to_vec(), v3(0, 0, -1));
    // at the center the direction is degenerate
    assert!(sphere.normal(Vec3::zero()).is_none());
}

#[test]
fn ray_position_and_hits() {
    let ray = Ray::new(
        v3(0, 0, -5),
        UnitVec3::new_unchecked(fi(0), fi(0), fi(1)),
    );
    assert_eq!(ray.position_at(fi(4)), v3(0, 0, -1));
    let sphere = Sphere::new(Vec3::zero(), fi(1));
    assert_eq!(ray.hits(&sphere), Some(fi(4)));
}

#[test]
fn reflection_straight_on_reverses() {
    let sphere = Sphere::new(Vec3::zero(), fi(1));
    let ray = Ray::new(
        v3(0, 0, -5),
        UnitVec3::new_unchecked(fi(0), fi(0), fi(1)),
    );
    let t = sphere.is_hit_by(ray).unwrap();
    let pos = ray.position_at(t);
    assert_eq!(pos, v3(0, 0, -1));
    let normal = sphere.normal(pos).unwrap();
    assert_eq!(normal.to_vec(), v3(0, 0, -1));
    let reflected = ray.reflect(normal).unwrap();
    assert_eq!(reflected.to_vec(), ray.direction.to_vec().neg());
    // reflecting back across the same normal restores the direction
    let back = Ray::new(pos, reflected);
    let again = back.reflect(normal).unwrap();
    assert_eq!(again.to_vec(), ray.direction.to_vec());
}
