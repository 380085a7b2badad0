use raytrace::display::{Camera, Framebuffer, Rgb};
use raytrace::element::{Element, Material};
use raytrace::fixed::Fixed;
use raytrace::light::ambient::Ambient;
use raytrace::light::point::Point;
use raytrace::math::vec3::Vec3;
use raytrace::object::sphere::Sphere;
use raytrace::renderer::Renderer;

fn fi(v: i64) -> Fixed {
    Fixed::from_int(v)
}

fn v3(x: i64, y: i64, z: i64) -> Vec3 {
    Vec3::new(fi(x), fi(y), fi(z))
}

fn tenth() -> Fixed {
    Fixed::from_raw(6554)
}

fn red_scene() -> Renderer<Sphere> {
    let frame = Framebuffer::new(15, 15, Camera::default());
    let material = Material::new(v3(1, 0, 0), v3(1, 1, 1));
    let elements = vec![Element::new(Sphere::new(v3(0, 0, -4), fi(2)), material)];
    let lights = vec![
        Point::new_unsize(Vec3::zero(), v3(1, 1, 1), fi(1)),
        Ambient::new_unsize(Vec3::new(tenth(), tenth(), tenth())),
    ];
    Renderer::new(frame, elements, lights)
}

#[test]
fn lit_red_disc_on_black_background() {
    let mut renderer = red_scene();
    renderer.render(1);
    let frame = &renderer.frame;
    // the disc center is lit red; the other channels stay dark
    assert_eq!(frame.pixel_at(7, 7), Rgb { r: 86, g: 0, b: 0 });
    // outside the disc the background color stands
    assert_eq!(frame.pixel_at(0, 0), Rgb { r: 0, g: 0, b: 0 });
    assert_eq!(frame.pixel_at(14, 7), Rgb { r: 0, g: 0, b: 0 });
    assert_eq!(frame.pixel_at(4, 7), Rgb { r: 0, g: 0, b: 0 });
    // brightness falls off monotonically away from the light's direction
    let center = frame.pixel_at(7, 7).r;
    let mid = frame.pixel_at(6, 7).r;
    let rim = frame.pixel_at(5, 7).r;
    assert_eq!(mid, 74);
    assert_eq!(rim, 47);
    assert!(center > mid && mid > rim && rim > 0);
    // the disc is symmetric across its center rows
    assert_eq!(frame.pixel_at(6, 7), frame.pixel_at(9, 7));
    assert_eq!(frame.pixel_at(5, 7), frame.pixel_at(10, 7));
}

#[test]
fn render_then_clear_restores_background() {
    let mut renderer = red_scene();
    renderer.render(1);
    assert_ne!(renderer.frame.pixel_at(7, 7), Rgb { r: 0, g: 0, b: 0 });
    renderer.frame.clear();
    for y in 0..15 {
        for x in 0..15 {
            assert_eq!(renderer.frame.pixel_at(x, y), Rgb { r: 0, g: 0, b: 0 });
        }
    }
}

#[test]
fn deeper_traces_keep_the_first_bounce_color_shape() {
    // with a fully absorbing second bounce the image still shows the disc
    let mut renderer = red_scene();
    renderer.render(2);
    let lit = renderer.frame.pixel_at(7, 7);
    assert!(lit.r > 0);
    assert_eq!(renderer.frame.pixel_at(0, 0), Rgb { r: 0, g: 0, b: 0 });
}
