//! Fixed-point sine and cosine.
//!
//! Angles are radians in fixed-point raw units.  An angle is first wrapped
//! into `(-PI_RAW, PI_RAW]` and folded into the quarter-turn band by the
//! half-turn symmetries; the sine is then a degree-seven odd polynomial and
//! the cosine a degree-eight even one, both in fixed-point arithmetic.  The
//! even form keeps the algebraic anchor `cos(0) == 1` exact.  The
//! specification mirrors the computation step for step, so the result of
//! either function is pinned exactly for every input.

use vstd::prelude::*;
use vstd::arithmetic::div_mod::lemma_fundamental_div_mod;
use vstd::arithmetic::div_mod::lemma_fundamental_div_mod_converse;
use crate::fixed::{
    add_val, clip, fx, iabs, in_range, int_quot, lemma_clip_in_range, mul_val, sub_val, Fixed,
    SCALE,
};

verus! {

/// One half turn: `floor(pi * SCALE)`.
pub const PI_RAW: i64 = 205887;

/// One full turn, kept at exactly twice `PI_RAW`.
pub const TAU_RAW: i64 = 411774;

/// One quarter turn: `round(pi / 2 * SCALE)`.
pub const HALF_PI_RAW: i64 = 102944;

/// Remainder of an angle in `[0, TAU_RAW)`.
pub open spec fn wrap_tau(x: int) -> int {
    x % (TAU_RAW as int)
}

/// An angle wrapped into the half-open turn `(-PI_RAW, PI_RAW]`.
pub open spec fn reduce_to_pi(x: int) -> int {
    if wrap_tau(x) > PI_RAW {
        wrap_tau(x) - TAU_RAW
    } else {
        wrap_tau(x)
    }
}

/// Fold a wrapped angle into the quarter-turn band around zero, using
/// `sin(pi - t) == sin(t)`.
pub open spec fn fold_half(t: int) -> int {
    if 2 * t > PI_RAW {
        PI_RAW - t
    } else if 2 * t < -(PI_RAW as int) {
        -(PI_RAW as int) - t
    } else {
        t
    }
}

/// Degree-seven sine polynomial evaluated in fixed-point arithmetic.
pub open spec fn sin_poly(u: int) -> int {
    let u2 = mul_val(u, u);
    let u3 = mul_val(u2, u);
    let u5 = mul_val(u3, u2);
    let u7 = mul_val(u5, u2);
    sub_val(add_val(sub_val(u, clip(int_quot(u3, 6))), clip(int_quot(u5, 120))), clip(
        int_quot(u7, 5040),
    ))
}

/// Raw sine of a raw angle.
pub open spec fn sin_val(x: int) -> int {
    sin_poly(fold_half(reduce_to_pi(x)))
}

/// Degree-eight cosine polynomial evaluated in fixed-point arithmetic.
pub open spec fn cos_poly(u: int) -> int {
    let u2 = mul_val(u, u);
    let u4 = mul_val(u2, u2);
    let u6 = mul_val(u4, u2);
    let u8 = mul_val(u6, u2);
    add_val(
        sub_val(
            add_val(sub_val(SCALE as int, clip(int_quot(u2, 2))), clip(int_quot(u4, 24))),
            clip(int_quot(u6, 720)),
        ),
        clip(int_quot(u8, 40320)),
    )
}

/// Raw cosine of a raw angle: the even polynomial on the magnitude of the
/// wrapped angle, negated beyond the quarter turn.  At an angle of zero
/// the value is exactly one.
pub open spec fn cos_val(x: int) -> int {
    let a = iabs(reduce_to_pi(x));
    if 2 * a > PI_RAW {
        clip(-cos_poly(PI_RAW - a))
    } else {
        cos_poly(a)
    }
}

/// Wrap a wide raw angle into `[0, TAU_RAW)`.
fn wrap_tau_exec(x: i128) -> (r: i64)
    requires
        -0x8000000000020000 <= x <= 0x8000000000020000,
    ensures
        r == wrap_tau(x as int),
        0 <= r < TAU_RAW,
{
    let m: u64 = if x < 0 {
        (-x) as u64
    } else {
        x as u64
    };
    let rm: u64 = m % (TAU_RAW as u64);
    if x >= 0 {
        proof {
            lemma_fundamental_div_mod(m as int, TAU_RAW as int);
            lemma_fundamental_div_mod_converse(
                x as int,
                TAU_RAW as int,
                (m as int) / (TAU_RAW as int),
                rm as int,
            );
        }
        rm as i64
    } else if rm == 0 {
        proof {
            lemma_fundamental_div_mod(m as int, TAU_RAW as int);
            lemma_fundamental_div_mod_converse(
                x as int,
                TAU_RAW as int,
                -((m as int) / (TAU_RAW as int)),
                0,
            );
        }
        0
    } else {
        proof {
            lemma_fundamental_div_mod(m as int, TAU_RAW as int);
            lemma_fundamental_div_mod_converse(
                x as int,
                TAU_RAW as int,
                -((m as int) / (TAU_RAW as int)) - 1,
                TAU_RAW - rm,
            );
        }
        TAU_RAW - (rm as i64)
    }
}

/// Sine of a wide raw angle.
fn sin_core(x: i128) -> (r: Fixed)
    requires
        -0x8000000000020000 <= x <= 0x8000000000020000,
    ensures
        r == fx(sin_val(x as int)),
{
    let w: i64 = wrap_tau_exec(x);
    let t: i64 = if w > PI_RAW {
        w - TAU_RAW
    } else {
        w
    };
    let u: Fixed = if 2 * t > PI_RAW {
        Fixed { raw: PI_RAW - t }
    } else if 2 * t < -PI_RAW {
        Fixed { raw: -PI_RAW - t }
    } else {
        Fixed { raw: t }
    };
    let u2 = u.mul(u);
    let u3 = u2.mul(u);
    let u5 = u3.mul(u2);
    let u7 = u5.mul(u2);
    u.sub(u3.div_int(6)).add(u5.div_int(120)).sub(u7.div_int(5040))
}

/// Sine of a fixed-point angle in radians.
pub fn sin_fx(x: Fixed) -> (r: Fixed)
    ensures
        r == fx(sin_val(x.raw as int)),
{
    sin_core(x.raw as i128)
}

/// Cosine of a wide raw angle.
fn cos_core(x: i128) -> (r: Fixed)
    requires
        -0x8000000000020000 <= x <= 0x8000000000020000,
    ensures
        r == fx(cos_val(x as int)),
{
    let w: i64 = wrap_tau_exec(x);
    let t: i64 = if w > PI_RAW {
        w - TAU_RAW
    } else {
        w
    };
    let a: i64 = if t < 0 {
        -t
    } else {
        t
    };
    let u: Fixed = if 2 * a > PI_RAW {
        Fixed { raw: PI_RAW - a }
    } else {
        Fixed { raw: a }
    };
    let u2 = u.mul(u);
    let u4 = u2.mul(u2);
    let u6 = u4.mul(u2);
    let u8 = u6.mul(u2);
    let c = Fixed { raw: SCALE }.sub(u2.div_int(2)).add(u4.div_int(24)).sub(u6.div_int(720)).add(
        u8.div_int(40320),
    );
    if 2 * a > PI_RAW {
        c.neg()
    } else {
        c
    }
}

/// Cosine of a fixed-point angle in radians.
pub fn cos_fx(x: Fixed) -> (r: Fixed)
    ensures
        r == fx(cos_val(x.raw as int)),
{
    cos_core(x.raw as i128)
}

/// The sine specification always yields a representable raw value.
pub proof fn lemma_sin_val_in_range(x: int)
    ensures
        in_range(sin_val(x)),
{
    let u = fold_half(reduce_to_pi(x));
    let u2 = mul_val(u, u);
    let u3 = mul_val(u2, u);
    let u5 = mul_val(u3, u2);
    let u7 = mul_val(u5, u2);
    lemma_clip_in_range(
        add_val(sub_val(u, clip(int_quot(u3, 6))), clip(int_quot(u5, 120))) - clip(
            int_quot(u7, 5040),
        ),
    );
}

/// The cosine specification always yields a representable raw value.
pub proof fn lemma_cos_val_in_range(x: int)
    ensures
        in_range(cos_val(x)),
{
    let a = iabs(reduce_to_pi(x));
    if 2 * a > PI_RAW {
        lemma_clip_in_range(-cos_poly(PI_RAW - a));
    } else {
        let u2 = mul_val(a, a);
        let u4 = mul_val(u2, u2);
        let u6 = mul_val(u4, u2);
        let u8 = mul_val(u6, u2);
        lemma_clip_in_range(
            sub_val(
                add_val(sub_val(SCALE as int, clip(int_quot(u2, 2))), clip(int_quot(u4, 24))),
                clip(int_quot(u6, 720)),
            ) + clip(int_quot(u8, 40320)),
        );
    }
}

} // verus!
