//! Two-lane vectors with their unit-length refinement.

use vstd::prelude::*;
use crate::fixed::{
    add_val, clip, div_val, finite_val, from_signed_mag, fx, iabs, in_range, isqrt, isqrt_u128,
    is_isqrt, lemma_isqrt_pos, lemma_isqrt_unique, mag, mul_val, normal_val, sub_val, Fixed,
    RAW_MAX, SCALE, UNIT_EPS,
};

verus! {

/// A two-lane fixed-point vector.
#[derive(Clone, Copy, PartialEq, Eq, Structural, Debug, Default)]
pub struct Vec2 {
    pub x: Fixed,
    pub y: Fixed,
}

/// One boolean per lane, the result of the lane-wise classification tests.
#[derive(Clone, Copy, PartialEq, Eq, Structural, Debug, Default)]
pub struct Mask2 {
    pub x: bool,
    pub y: bool,
}

/// A two-lane vector whose squared norm is one, within `UNIT_EPS` raw units.
#[derive(Clone, Copy, PartialEq, Eq, Structural, Debug)]
pub struct UnitVec2 {
    vec: Vec2,
}

/// Spec-level vector from raw lane values known to fit in `i64`.
pub open spec fn v2(x: int, y: int) -> Vec2 {
    Vec2 { x: fx(x), y: fx(y) }
}

/// The squared norm of `v` is one, within `UNIT_EPS` raw units.
pub open spec fn near_unit2(v: Vec2) -> bool {
    iabs(Vec2::sq_norm_val(v) - SCALE) <= UNIT_EPS
}

impl Vec2 {
    pub open spec fn wf(self) -> bool {
        in_range(self.x.raw as int) && in_range(self.y.raw as int)
    }

    pub open spec fn is_zero_spec(self) -> bool {
        self.x.raw == 0 && self.y.raw == 0
    }

    pub open spec fn add_spec(self, rhs: Vec2) -> Vec2 {
        v2(add_val(self.x.raw as int, rhs.x.raw as int), add_val(self.y.raw as int, rhs.y.raw as int))
    }

    pub open spec fn sub_spec(self, rhs: Vec2) -> Vec2 {
        v2(sub_val(self.x.raw as int, rhs.x.raw as int), sub_val(self.y.raw as int, rhs.y.raw as int))
    }

    pub open spec fn wide_mul_spec(self, rhs: Vec2) -> Vec2 {
        v2(mul_val(self.x.raw as int, rhs.x.raw as int), mul_val(self.y.raw as int, rhs.y.raw as int))
    }

    pub open spec fn wide_div_spec(self, rhs: Vec2) -> Vec2 {
        v2(div_val(self.x.raw as int, rhs.x.raw as int), div_val(self.y.raw as int, rhs.y.raw as int))
    }

    pub open spec fn scale_spec(self, k: int) -> Vec2 {
        v2(mul_val(self.x.raw as int, k), mul_val(self.y.raw as int, k))
    }

    pub open spec fn dot_val(a: Vec2, b: Vec2) -> int {
        add_val(mul_val(a.x.raw as int, b.x.raw as int), mul_val(a.y.raw as int, b.y.raw as int))
    }

    pub open spec fn sq_norm_val(v: Vec2) -> int {
        Vec2::dot_val(v, v)
    }

    pub open spec fn norm_val(v: Vec2) -> int {
        clip(isqrt((v.x.raw as int) * (v.x.raw as int) + (v.y.raw as int) * (v.y.raw as int)))
    }

    pub open spec fn unit_spec(v: Vec2) -> Vec2 {
        v2(div_val(v.x.raw as int, Vec2::norm_val(v)), div_val(v.y.raw as int, Vec2::norm_val(v)))
    }
}

impl Vec2 {
    pub fn new(x: Fixed, y: Fixed) -> (r: Vec2)
        ensures
            r == (Vec2 { x, y }),
    {
        Vec2 { x, y }
    }

    pub fn splat(v: Fixed) -> (r: Vec2)
        ensures
            r == (Vec2 { x: v, y: v }),
    {
        Vec2 { x: v, y: v }
    }

    /// The lanes as a pair.
    pub fn to_inner(self) -> (r: (Fixed, Fixed))
        ensures
            r.0 == self.x,
            r.1 == self.y,
    {
        (self.x, self.y)
    }

    pub fn add(self, rhs: Vec2) -> (r: Vec2)
        ensures
            r == self.add_spec(rhs),
            r.wf(),
    {
        Vec2 { x: self.x.add(rhs.x), y: self.y.add(rhs.y) }
    }

    pub fn sub(self, rhs: Vec2) -> (r: Vec2)
        ensures
            r == self.sub_spec(rhs),
            r.wf(),
    {
        Vec2 { x: self.x.sub(rhs.x), y: self.y.sub(rhs.y) }
    }

    /// Lane-wise product.
    pub fn wide_mul(self, rhs: Vec2) -> (r: Vec2)
        ensures
            r == self.wide_mul_spec(rhs),
            r.wf(),
    {
        Vec2 { x: self.x.mul(rhs.x), y: self.y.mul(rhs.y) }
    }

    /// Lane-wise quotient.
    pub fn wide_div(self, rhs: Vec2) -> (r: Vec2)
        requires
            rhs.x.raw != 0,
            rhs.y.raw != 0,
        ensures
            r == self.wide_div_spec(rhs),
            r.wf(),
    {
        Vec2 { x: self.x.div(rhs.x), y: self.y.div(rhs.y) }
    }

    /// Product with a scalar.
    pub fn scale(self, k: Fixed) -> (r: Vec2)
        ensures
            r == self.scale_spec(k.raw as int),
            r.wf(),
    {
        Vec2 { x: self.x.mul(k), y: self.y.mul(k) }
    }

    /// Sum of the lanes.
    pub fn reduce_add(self) -> (r: Fixed)
        ensures
            r == fx(add_val(self.x.raw as int, self.y.raw as int)),
    {
        self.x.add(self.y)
    }

    /// Dot product.
    pub fn dot(self, rhs: Vec2) -> (r: Fixed)
        ensures
            r == fx(Vec2::dot_val(self, rhs)),
    {
        self.x.mul(rhs.x).add(self.y.mul(rhs.y))
    }

    /// Squared norm.
    pub fn sq_norm(self) -> (r: Fixed)
        ensures
            r == fx(Vec2::sq_norm_val(self)),
    {
        self.dot(self)
    }

    /// Norm, exact on the raw lanes up to the rounding of the square root.
    pub fn norm(self) -> (r: Fixed)
        requires
            self.wf(),
        ensures
            r == fx(Vec2::norm_val(self)),
            r.raw >= 0,
    {
        let mx = mag(self.x.raw);
        let my = mag(self.y.raw);
        proof {
            assert(mx * mx == (self.x.raw as int) * (self.x.raw as int) && mx * mx
                <= 0x400000000000u128 * 0x400000000000u128) by (nonlinear_arith)
                requires
                    mx == iabs(self.x.raw as int),
                    mx <= 0x400000000000u128,
            ;
            assert(my * my == (self.y.raw as int) * (self.y.raw as int) && my * my
                <= 0x400000000000u128 * 0x400000000000u128) by (nonlinear_arith)
                requires
                    my == iabs(self.y.raw as int),
                    my <= 0x400000000000u128,
            ;
        }
        let s: u128 = mx * mx + my * my;
        let n = isqrt_u128(s);
        proof {
            lemma_isqrt_unique(s as int, n as int);
        }
        from_signed_mag(false, n)
    }

    /// Distance between two points.
    pub fn distance(self, rhs: Vec2) -> (r: Fixed)
        ensures
            r == fx(Vec2::norm_val(self.sub_spec(rhs))),
            r.raw >= 0,
    {
        self.sub(rhs).norm()
    }

    /// Normalize, then admit the result only if it passes the unit check.
    pub fn unit(self) -> (r: Option<UnitVec2>)
        requires
            self.wf(),
        ensures
            r == if !self.is_zero_spec() && near_unit2(Vec2::unit_spec(self)) {
                Some(UnitVec2::spec_new(Vec2::unit_spec(self)))
            } else {
                None::<UnitVec2>
            },
    {
        if self.x.raw == 0 && self.y.raw == 0 {
            return None;
        }
        let n = self.norm();
        proof {
            let s = (self.x.raw as int) * (self.x.raw as int) + (self.y.raw as int) * (
            self.y.raw as int);
            assert(s >= 1) by (nonlinear_arith)
                requires
                    !(self.x.raw == 0 && self.y.raw == 0),
                    s == (self.x.raw as int) * (self.x.raw as int) + (self.y.raw as int) * (
                    self.y.raw as int),
            ;
            lemma_isqrt_pos(s);
        }
        let w = Vec2 { x: self.x.div(n), y: self.y.div(n) };
        UnitVec2::from_vec(w)
    }
}

impl Vec2 {
    /// No lane saturated.
    pub fn is_finite(self) -> (r: bool)
        ensures
            r == (finite_val(self.x.raw as int) && finite_val(self.y.raw as int)),
    {
        self.is_finite_mask().all()
    }

    /// Some lane saturated.
    pub fn is_infinite(self) -> (r: bool)
        ensures
            r == (!finite_val(self.x.raw as int) || !finite_val(self.y.raw as int)),
    {
        self.is_infinite_mask().any()
    }

    /// Every lane neither zero nor saturated.
    pub fn is_normal(self) -> (r: bool)
        ensures
            r == (normal_val(self.x.raw as int) && normal_val(self.y.raw as int)),
    {
        self.is_normal_mask().all()
    }

    pub fn is_finite_mask(self) -> (r: Mask2)
        ensures
            r.x == finite_val(self.x.raw as int),
            r.y == finite_val(self.y.raw as int),
    {
        Mask2 {
            x: -RAW_MAX < self.x.raw && self.x.raw < RAW_MAX,
            y: -RAW_MAX < self.y.raw && self.y.raw < RAW_MAX,
        }
    }

    pub fn is_infinite_mask(self) -> (r: Mask2)
        ensures
            r.x == !finite_val(self.x.raw as int),
            r.y == !finite_val(self.y.raw as int),
    {
        Mask2 {
            x: self.x.raw <= -RAW_MAX || RAW_MAX <= self.x.raw,
            y: self.y.raw <= -RAW_MAX || RAW_MAX <= self.y.raw,
        }
    }

    pub fn is_normal_mask(self) -> (r: Mask2)
        ensures
            r.x == normal_val(self.x.raw as int),
            r.y == normal_val(self.y.raw as int),
    {
        Mask2 {
            x: self.x.raw != 0 && -RAW_MAX < self.x.raw && self.x.raw < RAW_MAX,
            y: self.y.raw != 0 && -RAW_MAX < self.y.raw && self.y.raw < RAW_MAX,
        }
    }

    pub fn is_sign_positive_mask(self) -> (r: Mask2)
        ensures
            r.x == (self.x.raw >= 0),
            r.y == (self.y.raw >= 0),
    {
        Mask2 { x: self.x.raw >= 0, y: self.y.raw >= 0 }
    }

    pub fn is_sign_negative_mask(self) -> (r: Mask2)
        ensures
            r.x == (self.x.raw < 0),
            r.y == (self.y.raw < 0),
    {
        Mask2 { x: self.x.raw < 0, y: self.y.raw < 0 }
    }
}

impl Mask2 {
    pub fn any(self) -> (r: bool)
        ensures
            r == (self.x || self.y),
    {
        self.x || self.y
    }

    pub fn all(self) -> (r: bool)
        ensures
            r == (self.x && self.y),
    {
        self.x && self.y
    }
}

impl View for UnitVec2 {
    type V = Vec2;

    closed spec fn view(&self) -> Vec2 {
        self.vec
    }
}

impl UnitVec2 {
    #[verifier::type_invariant]
    spec fn inv(self) -> bool {
        near_unit2(self.vec)
    }

    /// Spec-level constructor; meaningful when `near_unit2(v)` holds.
    pub closed spec fn spec_new(v: Vec2) -> UnitVec2 {
        UnitVec2 { vec: v }
    }

    /// The checked constructor: succeeds exactly on vectors whose squared
    /// norm is one within `UNIT_EPS` raw units.
    pub fn from_vec(vec: Vec2) -> (r: Option<UnitVec2>)
        ensures
            r == if near_unit2(vec) {
                Some(UnitVec2::spec_new(vec))
            } else {
                None::<UnitVec2>
            },
    {
        let sq = vec.sq_norm();
        let dev = sq.sub(Fixed { raw: SCALE }).abs();
        if dev.raw <= UNIT_EPS {
            Some(UnitVec2 { vec })
        } else {
            None
        }
    }

    /// The unchecked constructor; the caller owes the unit-length bound.
    pub fn from_vec_unchecked(vec: Vec2) -> (r: UnitVec2)
        requires
            near_unit2(vec),
        ensures
            r == UnitVec2::spec_new(vec),
    {
        UnitVec2 { vec }
    }

    /// The carried vector, together with the bound the refinement holds.
    pub fn to_vec(self) -> (r: Vec2)
        ensures
            r == self@,
            near_unit2(r),
    {
        proof {
            use_type_invariant(self);
        }
        self.vec
    }
}

/// The view of a spec-constructed unit vector is the carried vector, so
/// client modules can reason about concrete refinement values.
pub proof fn lemma_unit_vec2_view(v: Vec2)
    ensures
        UnitVec2::spec_new(v)@ == v,
{
}

} // verus!
