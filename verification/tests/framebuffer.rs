use raytrace::display::{quantize, quantize_channel, Camera, Framebuffer, Rgb};
use raytrace::fixed::{Fixed, SCALE};
use raytrace::math::vec3::Vec3;

fn fi(v: i64) -> Fixed {
    Fixed::from_int(v)
}

fn black() -> Rgb {
    Rgb { r: 0, g: 0, b: 0 }
}

#[test]
fn new_buffer_is_background() {
    let fb = Framebuffer::new(4, 3, Camera::default());
    assert_eq!(fb.width(), 4);
    assert_eq!(fb.height(), 3);
    for y in 0..3 {
        for x in 0..4 {
            assert_eq!(fb.pixel_at(x, y), black());
        }
    }
}

#[test]
fn set_pixel_overwrites_one_cell() {
    let mut fb = Framebuffer::new(4, 3, Camera::default());
    let red = Rgb { r: 255, g: 0, b: 0 };
    fb.set_pixel(2, 1, red);
    assert_eq!(fb.pixel_at(2, 1), red);
    assert_eq!(fb.pixel_at(1, 2), black());
}

#[test]
fn update_clamps_the_region_and_keeps_absent_cells() {
    let mut fb = Framebuffer::new(4, 3, Camera::default());
    let red = Rgb { r: 9, g: 0, b: 0 };
    fb.set_pixel(0, 0, red);
    // region reaches past the buffer; the function skips even columns
    fb.update(0, 100, 0, 100, &|r: usize, c: usize| {
        if c % 2 == 0 {
            None
        } else {
            Some(Rgb { r: r as u8, g: c as u8, b: 7 })
        }
    });
    assert_eq!(fb.pixel_at(0, 0), red);
    assert_eq!(fb.pixel_at(2, 2), black());
    assert_eq!(fb.pixel_at(1, 2), Rgb { r: 2, g: 1, b: 7 });
    assert_eq!(fb.pixel_at(3, 1), Rgb { r: 1, g: 3, b: 7 });
}

#[test]
fn update_of_empty_region_changes_nothing() {
    let mut fb = Framebuffer::new(4, 3, Camera::default());
    fb.set_pixel(3, 2, Rgb { r: 1, g: 2, b: 3 });
    fb.update(2, 2, 0, 3, &|_r: usize, _c: usize| Some(Rgb { r: 255, g: 255, b: 255 }));
    fb.update(0, 4, 3, 1, &|_r: usize, _c: usize| Some(Rgb { r: 255, g: 255, b: 255 }));
    assert_eq!(fb.pixel_at(3, 2), Rgb { r: 1, g: 2, b: 3 });
    assert_eq!(fb.pixel_at(0, 0), black());
}

#[test]
fn clear_after_update_restores_background() {
    let mut fb = Framebuffer::new(5, 5, Camera::default());
    fb.update(0, 5, 0, 5, &|r: usize, c: usize| {
        Some(Rgb { r: (r * 5 + c) as u8, g: 1, b: 2 })
    });
    assert_ne!(fb.pixel_at(3, 3), black());
    fb.clear();
    for y in 0..5 {
        for x in 0..5 {
            assert_eq!(fb.pixel_at(x, y), black());
        }
    }
}

#[test]
fn quantization_clamps_scales_and_truncates() {
    assert_eq!(quantize_channel(Fixed::from_raw(SCALE / 2)), 127);
    assert_eq!(quantize_channel(fi(1)), 255);
    assert_eq!(quantize_channel(fi(2)), 255);
    assert_eq!(quantize_channel(fi(-1)), 0);
    assert_eq!(quantize_channel(Fixed::from_raw(0)), 0);
    assert_eq!(
        quantize(Vec3::new(Fixed::from_raw(SCALE / 4), fi(1), fi(0))),
        Rgb { r: 63, g: 255, b: 0 }
    );
}

#[test]
fn camera_projection_requires_valid_planes() {
    let good = Camera::new(Fixed::from_raw(68629), Fixed::from_raw(655), fi(1000));
    assert!(good.projection(fi(1)).is_some());
    let flat = Camera { fov: Fixed::from_raw(68629), z_near: fi(5), z_far: fi(5) };
    assert!(flat.projection(fi(1)).is_none());
    assert!(good.projection(fi(0)).is_none());
}
