use raytrace::fixed::{Fixed, RAW_MAX, SCALE};
use raytrace::trig::{cos_fx, sin_fx, HALF_PI_RAW, PI_RAW};

fn fi(v: i64) -> Fixed {
    Fixed::from_int(v)
}

#[test]
fn from_int_is_scaled() {
    assert_eq!(fi(3).raw, 3 * SCALE);
    assert_eq!(fi(-7).raw, -7 * SCALE);
    assert_eq!(Fixed::one().raw, SCALE);
    assert_eq!(Fixed::zero().raw, 0);
}

#[test]
fn from_int_saturates() {
    assert_eq!(fi(i64::MAX).raw, RAW_MAX);
    assert_eq!(fi(i64::MIN).raw, -RAW_MAX);
}

#[test]
fn add_sub_neg_exact() {
    assert_eq!(fi(2).add(fi(3)), fi(5));
    assert_eq!(fi(2).sub(fi(3)), fi(-1));
    assert_eq!(fi(4).neg(), fi(-4));
    assert_eq!(fi(-4).abs(), fi(4));
}

#[test]
fn add_saturates_at_rim() {
    let top = Fixed::from_raw(RAW_MAX);
    assert_eq!(top.add(fi(1)).raw, RAW_MAX);
    assert_eq!(top.neg().sub(fi(1)).raw, -RAW_MAX);
}

#[test]
fn mul_rounds_toward_zero() {
    assert_eq!(fi(6).mul(fi(7)), fi(42));
    assert_eq!(fi(-6).mul(fi(7)), fi(-42));
    // 0.5 * 0.5 == 0.25 exactly
    let half = Fixed::from_raw(SCALE / 2);
    assert_eq!(half.mul(half).raw, SCALE / 4);
    // 1/3 truncated: (1/3 in raw units) squared rounds toward zero
    let third = fi(1).div(fi(3));
    assert_eq!(third.raw, 21845);
    assert_eq!(third.mul(third).raw, 21845 * 21845 / 65536);
}

#[test]
fn div_exact_quarters() {
    assert_eq!(fi(1).div(fi(4)).raw, SCALE / 4);
    assert_eq!(fi(-1).div(fi(4)).raw, -SCALE / 4);
    assert_eq!(fi(10).div(fi(-2)), fi(-5));
}

#[test]
fn div_int_truncates() {
    assert_eq!(fi(7).div_int(2).raw, 7 * SCALE / 2);
    assert_eq!(Fixed::from_raw(-7).div_int(2).raw, -3);
}

#[test]
fn sqrt_of_squares() {
    assert_eq!(fi(4).sqrt(), fi(2));
    assert_eq!(fi(25).sqrt(), fi(5));
    assert_eq!(fi(0).sqrt(), fi(0));
    // sqrt(2) rounds down to the raw unit
    assert_eq!(fi(2).sqrt().raw, 92681);
}

#[test]
fn sine_and_cosine_anchor_values() {
    assert_eq!(sin_fx(Fixed::zero()).raw, 0);
    assert_eq!(cos_fx(Fixed::zero()).raw, SCALE);
    assert_eq!(sin_fx(Fixed::from_raw(HALF_PI_RAW)).raw, 65527);
    assert_eq!(cos_fx(Fixed::from_raw(HALF_PI_RAW)).raw, -2);
    assert_eq!(cos_fx(Fixed::from_raw(PI_RAW)).raw, -SCALE);
    // the sine is odd and the cosine even
    let x = Fixed::from_raw(50000);
    assert_eq!(sin_fx(x.neg()).raw, -sin_fx(x).raw);
    assert_eq!(cos_fx(x.neg()).raw, cos_fx(x).raw);
}
