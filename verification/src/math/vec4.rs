//! Four-lane vectors, their unit-length refinement, and lane swizzles.

use vstd::prelude::*;
use crate::fixed::{
    add_val, clip, div_val, finite_val, from_signed_mag, fx, iabs, in_range, isqrt, isqrt_u128,
    is_isqrt, lemma_isqrt_pos, lemma_isqrt_unique, mag, mul_val, normal_val, sub_val, Fixed,
    RAW_MAX, SCALE, UNIT_EPS,
};
use crate::math::vec2::Vec2;
use crate::math::vec3::Vec3;

verus! {

/// A four-lane fixed-point vector.
#[derive(Clone, Copy, PartialEq, Eq, Structural, Debug, Default)]
pub struct Vec4 {
    pub x: Fixed,
    pub y: Fixed,
    pub z: Fixed,
    pub w: Fixed,
}

/// One boolean per lane, the result of the lane-wise classification tests.
#[derive(Clone, Copy, PartialEq, Eq, Structural, Debug, Default)]
pub struct Mask4 {
    pub x: bool,
    pub y: bool,
    pub z: bool,
    pub w: bool,
}

/// A four-lane vector whose squared norm is one, within `UNIT_EPS` raw units.
#[derive(Clone, Copy, PartialEq, Eq, Structural, Debug)]
pub struct UnitVec4 {
    vec: Vec4,
}

/// Spec-level vector from raw lane values known to fit in `i64`.
pub open spec fn v4(x: int, y: int, z: int, w: int) -> Vec4 {
    Vec4 { x: fx(x), y: fx(y), z: fx(z), w: fx(w) }
}

/// The squared norm of `v` is one, within `UNIT_EPS` raw units.
pub open spec fn near_unit4(v: Vec4) -> bool {
    iabs(Vec4::sq_norm_val(v) - SCALE) <= UNIT_EPS
}

impl Vec4 {
    pub open spec fn wf(self) -> bool {
        in_range(self.x.raw as int) && in_range(self.y.raw as int) && in_range(self.z.raw as int)
            && in_range(self.w.raw as int)
    }

    pub open spec fn is_zero_spec(self) -> bool {
        self.x.raw == 0 && self.y.raw == 0 && self.z.raw == 0 && self.w.raw == 0
    }

    /// The lane at index `i`, counted `x`, `y`, `z`, `w`.
    pub open spec fn lane(self, i: int) -> Fixed {
        if i == 0 {
            self.x
        } else if i == 1 {
            self.y
        } else if i == 2 {
            self.z
        } else {
            self.w
        }
    }

    pub open spec fn add_spec(self, rhs: Vec4) -> Vec4 {
        v4(
            add_val(self.x.raw as int, rhs.x.raw as int),
            add_val(self.y.raw as int, rhs.y.raw as int),
            add_val(self.z.raw as int, rhs.z.raw as int),
            add_val(self.w.raw as int, rhs.w.raw as int),
        )
    }

    pub open spec fn sub_spec(self, rhs: Vec4) -> Vec4 {
        v4(
            sub_val(self.x.raw as int, rhs.x.raw as int),
            sub_val(self.y.raw as int, rhs.y.raw as int),
            sub_val(self.z.raw as int, rhs.z.raw as int),
            sub_val(self.w.raw as int, rhs.w.raw as int),
        )
    }

    pub open spec fn neg_spec(self) -> Vec4 {
        v4(
            clip(-(self.x.raw as int)),
            clip(-(self.y.raw as int)),
            clip(-(self.z.raw as int)),
            clip(-(self.w.raw as int)),
        )
    }

    pub open spec fn wide_mul_spec(self, rhs: Vec4) -> Vec4 {
        v4(
            mul_val(self.x.raw as int, rhs.x.raw as int),
            mul_val(self.y.raw as int, rhs.y.raw as int),
            mul_val(self.z.raw as int, rhs.z.raw as int),
            mul_val(self.w.raw as int, rhs.w.raw as int),
        )
    }

    pub open spec fn wide_div_spec(self, rhs: Vec4) -> Vec4 {
        v4(
            div_val(self.x.raw as int, rhs.x.raw as int),
            div_val(self.y.raw as int, rhs.y.raw as int),
            div_val(self.z.raw as int, rhs.z.raw as int),
            div_val(self.w.raw as int, rhs.w.raw as int),
        )
    }

    pub open spec fn scale_spec(self, k: int) -> Vec4 {
        v4(
            mul_val(self.x.raw as int, k),
            mul_val(self.y.raw as int, k),
            mul_val(self.z.raw as int, k),
            mul_val(self.w.raw as int, k),
        )
    }

    pub open spec fn dot_val(a: Vec4, b: Vec4) -> int {
        add_val(
            add_val(
                add_val(
                    mul_val(a.x.raw as int, b.x.raw as int),
                    mul_val(a.y.raw as int, b.y.raw as int),
                ),
                mul_val(a.z.raw as int, b.z.raw as int),
            ),
            mul_val(a.w.raw as int, b.w.raw as int),
        )
    }

    pub open spec fn sq_norm_val(v: Vec4) -> int {
        Vec4::dot_val(v, v)
    }

    pub open spec fn norm_val(v: Vec4) -> int {
        clip(
            isqrt(
                (v.x.raw as int) * (v.x.raw as int) + (v.y.raw as int) * (v.y.raw as int) + (
                v.z.raw as int) * (v.z.raw as int) + (v.w.raw as int) * (v.w.raw as int),
            ),
        )
    }

    pub open spec fn unit_spec(v: Vec4) -> Vec4 {
        v4(
            div_val(v.x.raw as int, Vec4::norm_val(v)),
            div_val(v.y.raw as int, Vec4::norm_val(v)),
            div_val(v.z.raw as int, Vec4::norm_val(v)),
            div_val(v.w.raw as int, Vec4::norm_val(v)),
        )
    }
}

impl Vec4 {
    pub fn new(x: Fixed, y: Fixed, z: Fixed, w: Fixed) -> (r: Vec4)
        ensures
            r == (Vec4 { x, y, z, w }),
    {
        Vec4 { x, y, z, w }
    }

    pub fn splat(v: Fixed) -> (r: Vec4)
        ensures
            r == (Vec4 { x: v, y: v, z: v, w: v }),
    {
        Vec4 { x: v, y: v, z: v, w: v }
    }

    pub fn zero() -> (r: Vec4)
        ensures
            r == v4(0, 0, 0, 0),
    {
        Vec4 {
            x: Fixed { raw: 0 },
            y: Fixed { raw: 0 },
            z: Fixed { raw: 0 },
            w: Fixed { raw: 0 },
        }
    }

    /// A vector from two two-lane halves.
    pub fn from_vec2(xy: Vec2, zw: Vec2) -> (r: Vec4)
        ensures
            r == (Vec4 { x: xy.x, y: xy.y, z: zw.x, w: zw.y }),
    {
        Vec4 { x: xy.x, y: xy.y, z: zw.x, w: zw.y }
    }

    /// A vector from a three-lane vector and a fourth lane.
    pub fn from_vec3(xyz: Vec3, w: Fixed) -> (r: Vec4)
        ensures
            r == (Vec4 { x: xyz.x, y: xyz.y, z: xyz.z, w }),
    {
        Vec4 { x: xyz.x, y: xyz.y, z: xyz.z, w }
    }

    /// The lanes as a tuple.
    pub fn to_inner(self) -> (r: (Fixed, Fixed, Fixed, Fixed))
        ensures
            r.0 == self.x,
            r.1 == self.y,
            r.2 == self.z,
            r.3 == self.w,
    {
        (self.x, self.y, self.z, self.w)
    }

    pub fn add(self, rhs: Vec4) -> (r: Vec4)
        ensures
            r == self.add_spec(rhs),
            r.wf(),
    {
        Vec4 {
            x: self.x.add(rhs.x),
            y: self.y.add(rhs.y),
            z: self.z.add(rhs.z),
            w: self.w.add(rhs.w),
        }
    }

    pub fn sub(self, rhs: Vec4) -> (r: Vec4)
        ensures
            r == self.sub_spec(rhs),
            r.wf(),
    {
        Vec4 {
            x: self.x.sub(rhs.x),
            y: self.y.sub(rhs.y),
            z: self.z.sub(rhs.z),
            w: self.w.sub(rhs.w),
        }
    }

    pub fn neg(self) -> (r: Vec4)
        ensures
            r == self.neg_spec(),
            r.wf(),
    {
        Vec4 { x: self.x.neg(), y: self.y.neg(), z: self.z.neg(), w: self.w.neg() }
    }

    /// Lane-wise product.
    pub fn wide_mul(self, rhs: Vec4) -> (r: Vec4)
        ensures
            r == self.wide_mul_spec(rhs),
            r.wf(),
    {
        Vec4 {
            x: self.x.mul(rhs.x),
            y: self.y.mul(rhs.y),
            z: self.z.mul(rhs.z),
            w: self.w.mul(rhs.w),
        }
    }

    /// Lane-wise quotient.
    pub fn wide_div(self, rhs: Vec4) -> (r: Vec4)
        requires
            rhs.x.raw != 0,
            rhs.y.raw != 0,
            rhs.z.raw != 0,
            rhs.w.raw != 0,
        ensures
            r == self.wide_div_spec(rhs),
            r.wf(),
    {
        Vec4 {
            x: self.x.div(rhs.x),
            y: self.y.div(rhs.y),
            z: self.z.div(rhs.z),
            w: self.w.div(rhs.w),
        }
    }

    /// Product with a scalar.
    pub fn scale(self, k: Fixed) -> (r: Vec4)
        ensures
            r == self.scale_spec(k.raw as int),
            r.wf(),
    {
        Vec4 { x: self.x.mul(k), y: self.y.mul(k), z: self.z.mul(k), w: self.w.mul(k) }
    }

    /// Sum of the lanes.
    pub fn reduce_add(self) -> (r: Fixed)
        ensures
            r == fx(
                add_val(
                    add_val(add_val(self.x.raw as int, self.y.raw as int), self.z.raw as int),
                    self.w.raw as int,
                ),
            ),
    {
        self.x.add(self.y).add(self.z).add(self.w)
    }

    /// Dot product.
    pub fn dot(self, rhs: Vec4) -> (r: Fixed)
        ensures
            r == fx(Vec4::dot_val(self, rhs)),
            in_range(Vec4::dot_val(self, rhs)),
            r.raw == Vec4::dot_val(self, rhs),
    {
        proof {
            crate::fixed::lemma_clip_in_range(
                add_val(
                    add_val(
                        mul_val(self.x.raw as int, rhs.x.raw as int),
                        mul_val(self.y.raw as int, rhs.y.raw as int),
                    ),
                    mul_val(self.z.raw as int, rhs.z.raw as int),
                ) + mul_val(self.w.raw as int, rhs.w.raw as int),
            );
        }
        self.x.mul(rhs.x).add(self.y.mul(rhs.y)).add(self.z.mul(rhs.z)).add(self.w.mul(rhs.w))
    }

    /// Squared norm.
    pub fn sq_norm(self) -> (r: Fixed)
        ensures
            r == fx(Vec4::sq_norm_val(self)),
    {
        self.dot(self)
    }

    /// Norm, exact on the raw lanes up to the rounding of the square root.
    pub fn norm(self) -> (r: Fixed)
        requires
            self.wf(),
        ensures
            r == fx(Vec4::norm_val(self)),
            r.raw >= 0,
    {
        let mx = mag(self.x.raw);
        let my = mag(self.y.raw);
        let mz = mag(self.z.raw);
        let mw = mag(self.w.raw);
        proof {
            assert(mx * mx == (self.x.raw as int) * (self.x.raw as int) && mx * mx
                <= 0x400000000000u128 * 0x400000000000u128) by (nonlinear_arith)
                requires
                    mx == iabs(self.x.raw as int),
                    mx <= 0x400000000000u128,
            ;
            assert(my * my == (self.y.raw as int) * (self.y.raw as int) && my * my
                <= 0x400000000000u128 * 0x400000000000u128) by (nonlinear_arith)
                requires
                    my == iabs(self.y.raw as int),
                    my <= 0x400000000000u128,
            ;
            assert(mz * mz == (self.z.raw as int) * (self.z.raw as int) && mz * mz
                <= 0x400000000000u128 * 0x400000000000u128) by (nonlinear_arith)
                requires
                    mz == iabs(self.z.raw as int),
                    mz <= 0x400000000000u128,
            ;
            assert(mw * mw == (self.w.raw as int) * (self.w.raw as int) && mw * mw
                <= 0x400000000000u128 * 0x400000000000u128) by (nonlinear_arith)
                requires
                    mw == iabs(self.w.raw as int),
                    mw <= 0x400000000000u128,
            ;
        }
        let s: u128 = mx * mx + my * my + mz * mz + mw * mw;
        let n = isqrt_u128(s);
        proof {
            lemma_isqrt_unique(s as int, n as int);
        }
        from_signed_mag(false, n)
    }

    /// Distance between two points.
    pub fn distance(self, rhs: Vec4) -> (r: Fixed)
        ensures
            r == fx(Vec4::norm_val(self.sub_spec(rhs))),
            r.raw >= 0,
    {
        self.sub(rhs).norm()
    }

    /// Normalize, then admit the result only if it passes the unit check.
    pub fn unit(self) -> (r: Option<UnitVec4>)
        requires
            self.wf(),
        ensures
            r == if !self.is_zero_spec() && near_unit4(Vec4::unit_spec(self)) {
                Some(UnitVec4::spec_new(Vec4::unit_spec(self)))
            } else {
                None::<UnitVec4>
            },
    {
        if self.x.raw == 0 && self.y.raw == 0 && self.z.raw == 0 && self.w.raw == 0 {
            return None;
        }
        let n = self.norm();
        proof {
            let s = (self.x.raw as int) * (self.x.raw as int) + (self.y.raw as int) * (
            self.y.raw as int) + (self.z.raw as int) * (self.z.raw as int) + (self.w.raw as int) * (
            self.w.raw as int);
            assert(s >= 1) by (nonlinear_arith)
                requires
                    !(self.x.raw == 0 && self.y.raw == 0 && self.z.raw == 0 && self.w.raw == 0),
                    s == (self.x.raw as int) * (self.x.raw as int) + (self.y.raw as int) * (
                    self.y.raw as int) + (self.z.raw as int) * (self.z.raw as int) + (
                    self.w.raw as int) * (self.w.raw as int),
            ;
            lemma_isqrt_pos(s);
        }
        let w = Vec4 {
            x: self.x.div(n),
            y: self.y.div(n),
            z: self.z.div(n),
            w: self.w.div(n),
        };
        UnitVec4::from_vec(w)
    }

    /// Rearrange the lanes by compile-time indices.
    pub fn swizzle<const X: usize, const Y: usize, const Z: usize, const W: usize>(self) -> (r:
        Vec4)
        requires
            X < 4,
            Y < 4,
            Z < 4,
            W < 4,
        ensures
            r.x == self.lane(X as int),
            r.y == self.lane(Y as int),
            r.z == self.lane(Z as int),
            r.w == self.lane(W as int),
    {
        Vec4 {
            x: self.lane_at(X),
            y: self.lane_at(Y),
            z: self.lane_at(Z),
            w: self.lane_at(W),
        }
    }

    /// The lane at a runtime index.
    pub fn lane_at(self, i: usize) -> (r: Fixed)
        requires
            i < 4,
        ensures
            r == self.lane(i as int),
    {
        if i == 0 {
            self.x
        } else if i == 1 {
            self.y
        } else if i == 2 {
            self.z
        } else {
            self.w
        }
    }
}

impl Vec4 {
    /// No lane saturated.
    pub fn is_finite(self) -> (r: bool)
        ensures
            r == (finite_val(self.x.raw as int) && finite_val(self.y.raw as int) && finite_val(
                self.z.raw as int,
            ) && finite_val(self.w.raw as int)),
    {
        self.is_finite_mask().all()
    }

    /// Some lane saturated.
    pub fn is_infinite(self) -> (r: bool)
        ensures
            r == (!finite_val(self.x.raw as int) || !finite_val(self.y.raw as int) || !finite_val(
                self.z.raw as int,
            ) || !finite_val(self.w.raw as int)),
    {
        self.is_infinite_mask().any()
    }

    /// Every lane neither zero nor saturated.
    pub fn is_normal(self) -> (r: bool)
        ensures
            r == (normal_val(self.x.raw as int) && normal_val(self.y.raw as int) && normal_val(
                self.z.raw as int,
            ) && normal_val(self.w.raw as int)),
    {
        self.is_normal_mask().all()
    }

    pub fn is_finite_mask(self) -> (r: Mask4)
        ensures
            r.x == finite_val(self.x.raw as int),
            r.y == finite_val(self.y.raw as int),
            r.z == finite_val(self.z.raw as int),
            r.w == finite_val(self.w.raw as int),
    {
        Mask4 {
            x: -RAW_MAX < self.x.raw && self.x.raw < RAW_MAX,
            y: -RAW_MAX < self.y.raw && self.y.raw < RAW_MAX,
            z: -RAW_MAX < self.z.raw && self.z.raw < RAW_MAX,
            w: -RAW_MAX < self.w.raw && self.w.raw < RAW_MAX,
        }
    }

    pub fn is_infinite_mask(self) -> (r: Mask4)
        ensures
            r.x == !finite_val(self.x.raw as int),
            r.y == !finite_val(self.y.raw as int),
            r.z == !finite_val(self.z.raw as int),
            r.w == !finite_val(self.w.raw as int),
    {
        Mask4 {
            x: self.x.raw <= -RAW_MAX || RAW_MAX <= self.x.raw,
            y: self.y.raw <= -RAW_MAX || RAW_MAX <= self.y.raw,
            z: self.z.raw <= -RAW_MAX || RAW_MAX <= self.z.raw,
            w: self.w.raw <= -RAW_MAX || RAW_MAX <= self.w.raw,
        }
    }

    pub fn is_normal_mask(self) -> (r: Mask4)
        ensures
            r.x == normal_val(self.x.raw as int),
            r.y == normal_val(self.y.raw as int),
            r.z == normal_val(self.z.raw as int),
            r.w == normal_val(self.w.raw as int),
    {
        Mask4 {
            x: self.x.raw != 0 && -RAW_MAX < self.x.raw && self.x.raw < RAW_MAX,
            y: self.y.raw != 0 && -RAW_MAX < self.y.raw && self.y.raw < RAW_MAX,
            z: self.z.raw != 0 && -RAW_MAX < self.z.raw && self.z.raw < RAW_MAX,
            w: self.w.raw != 0 && -RAW_MAX < self.w.raw && self.w.raw < RAW_MAX,
        }
    }

    pub fn is_sign_positive_mask(self) -> (r: Mask4)
        ensures
            r.x == (self.x.raw >= 0),
            r.y == (self.y.raw >= 0),
            r.z == (self.z.raw >= 0),
            r.w == (self.w.raw >= 0),
    {
        Mask4 {
            x: self.x.raw >= 0,
            y: self.y.raw >= 0,
            z: self.z.raw >= 0,
            w: self.w.raw >= 0,
        }
    }

    pub fn is_sign_negative_mask(self) -> (r: Mask4)
        ensures
            r.x == (self.x.raw < 0),
            r.y == (self.y.raw < 0),
            r.z == (self.z.raw < 0),
            r.w == (self.w.raw < 0),
    {
        Mask4 {
            x: self.x.raw < 0,
            y: self.y.raw < 0,
            z: self.z.raw < 0,
            w: self.w.raw < 0,
        }
    }
}

impl Mask4 {
    pub fn any(self) -> (r: bool)
        ensures
            r == (self.x || self.y || self.z || self.w),
    {
        self.x || self.y || self.z || self.w
    }

    pub fn all(self) -> (r: bool)
        ensures
            r == (self.x && self.y && self.z && self.w),
    {
        self.x && self.y && self.z && self.w
    }
}

impl View for UnitVec4 {
    type V = Vec4;

    closed spec fn view(&self) -> Vec4 {
        self.vec
    }
}

impl UnitVec4 {
    #[verifier::type_invariant]
    spec fn inv(self) -> bool {
        near_unit4(self.vec)
    }

    /// Spec-level constructor; meaningful when `near_unit4(v)` holds.
    pub closed spec fn spec_new(v: Vec4) -> UnitVec4 {
        UnitVec4 { vec: v }
    }

    /// The checked constructor: succeeds exactly on vectors whose squared
    /// norm is one within `UNIT_EPS` raw units.
    pub fn from_vec(vec: Vec4) -> (r: Option<UnitVec4>)
        ensures
            r == if near_unit4(vec) {
                Some(UnitVec4::spec_new(vec))
            } else {
                None::<UnitVec4>
            },
    {
        let sq = vec.sq_norm();
        let dev = sq.sub(Fixed { raw: SCALE }).abs();
        if dev.raw <= UNIT_EPS {
            Some(UnitVec4 { vec })
        } else {
            None
        }
    }

    /// The unchecked constructor; the caller owes the unit-length bound.
    pub fn from_vec_unchecked(vec: Vec4) -> (r: UnitVec4)
        requires
            near_unit4(vec),
        ensures
            r == UnitVec4::spec_new(vec),
    {
        UnitVec4 { vec }
    }

    /// The carried vector, together with the bound the refinement holds.
    pub fn to_vec(self) -> (r: Vec4)
        ensures
            r == self@,
            near_unit4(r),
    {
        proof {
            use_type_invariant(self);
        }
        self.vec
    }
}

/// The view of a spec-constructed unit vector is the carried vector, so
/// client modules can reason about concrete refinement values.
pub proof fn lemma_unit_vec4_view(v: Vec4)
    ensures
        UnitVec4::spec_new(v)@ == v,
{
}

} // verus!
