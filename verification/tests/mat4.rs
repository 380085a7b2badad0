use raytrace::fixed::Fixed;
use raytrace::math::mat4::Mat4;
use raytrace::math::vec4::Vec4;

fn fi(v: i64) -> Fixed {
    Fixed::from_int(v)
}

fn v4(x: i64, y: i64, z: i64, w: i64) -> Vec4 {
    Vec4::new(fi(x), fi(y), fi(z), fi(w))
}

fn lhs() -> Mat4 {
    Mat4::from_rows(
        v4(1, 2, 3, 4),
        v4(5, 6, 7, 8),
        v4(9, 10, 11, 12),
        v4(13, 14, 15, 16),
    )
}

#[test]
fn transpose() {
    assert_eq!(
        lhs().transpose(),
        Mat4::from_rows(
            v4(1, 5, 9, 13),
            v4(2, 6, 10, 14),
            v4(3, 7, 11, 15),
            v4(4, 8, 12, 16),
        )
    );
}

#[test]
fn mul_vec() {
    let vec = v4(1, 5, 2, 6);
    assert_eq!(lhs().mul_vec(vec), v4(41, 97, 153, 209));
}

#[test]
fn mul_mat() {
    assert_eq!(
        lhs().mul_mat(lhs()),
        Mat4::from_rows(
            v4(45, 50, 55, 60),
            v4(101, 114, 127, 140),
            v4(157, 178, 199, 220),
            v4(213, 242, 271, 300),
        )
        .scale(fi(2))
    );
}

#[test]
fn transpose_twice_restores() {
    let m = lhs();
    assert_eq!(m.transpose().transpose(), m);
    let d = Mat4::from_diagonal(v4(1, 2, 3, 4));
    assert_eq!(d.transpose(), d);
}

#[test]
fn add_sub_scale() {
    let m = lhs();
    let z = m.sub(m);
    assert_eq!(z, Mat4::from_rows(v4(0, 0, 0, 0), v4(0, 0, 0, 0), v4(0, 0, 0, 0), v4(0, 0, 0, 0)));
    assert_eq!(m.add(m), m.scale(fi(2)));
}
