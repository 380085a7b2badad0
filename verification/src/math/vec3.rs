//! Three-lane vectors and the unit-length refinement used for directions.

use vstd::prelude::*;
use crate::fixed::{
    add_val, clip, div_val, finite_val, fx, iabs, in_range, isqrt, lemma_isqrt_pos,
    lemma_isqrt_unique, mag, mul_val, normal_val, sub_val, from_signed_mag, isqrt_u128, is_isqrt,
    Fixed, RAW_MAX, SCALE, UNIT_EPS,
};

verus! {

/// A three-lane fixed-point vector.
#[derive(Clone, Copy, PartialEq, Eq, Structural, Debug, Default)]
pub struct Vec3 {
    pub x: Fixed,
    pub y: Fixed,
    pub z: Fixed,
}

/// One boolean per lane, the result of the lane-wise classification tests.
#[derive(Clone, Copy, PartialEq, Eq, Structural, Debug, Default)]
pub struct Mask3 {
    pub x: bool,
    pub y: bool,
    pub z: bool,
}

/// A vector whose squared norm is one, within `UNIT_EPS` raw units.
#[derive(Clone, Copy, PartialEq, Eq, Structural, Debug)]
pub struct UnitVec3 {
    vec: Vec3,
}

/// Spec-level vector from raw lane values known to fit in `i64`.
pub open spec fn v3(x: int, y: int, z: int) -> Vec3 {
    Vec3 { x: fx(x), y: fx(y), z: fx(z) }
}

/// The squared norm of `v` is one, within `UNIT_EPS` raw units.
pub open spec fn near_unit(v: Vec3) -> bool {
    iabs(Vec3::sq_norm_val(v) - SCALE) <= UNIT_EPS
}

impl Vec3 {
    /// All lanes within the representable range; every vector this module
    /// produces satisfies this.
    pub open spec fn wf(self) -> bool {
        in_range(self.x.raw as int) && in_range(self.y.raw as int) && in_range(self.z.raw as int)
    }

    pub open spec fn is_zero_spec(self) -> bool {
        self.x.raw == 0 && self.y.raw == 0 && self.z.raw == 0
    }

    pub open spec fn add_spec(self, rhs: Vec3) -> Vec3 {
        v3(
            add_val(self.x.raw as int, rhs.x.raw as int),
            add_val(self.y.raw as int, rhs.y.raw as int),
            add_val(self.z.raw as int, rhs.z.raw as int),
        )
    }

    pub open spec fn sub_spec(self, rhs: Vec3) -> Vec3 {
        v3(
            sub_val(self.x.raw as int, rhs.x.raw as int),
            sub_val(self.y.raw as int, rhs.y.raw as int),
            sub_val(self.z.raw as int, rhs.z.raw as int),
        )
    }

    pub open spec fn neg_spec(self) -> Vec3 {
        v3(
            clip(-(self.x.raw as int)),
            clip(-(self.y.raw as int)),
            clip(-(self.z.raw as int)),
        )
    }

    pub open spec fn wide_mul_spec(self, rhs: Vec3) -> Vec3 {
        v3(
            mul_val(self.x.raw as int, rhs.x.raw as int),
            mul_val(self.y.raw as int, rhs.y.raw as int),
            mul_val(self.z.raw as int, rhs.z.raw as int),
        )
    }

    pub open spec fn wide_div_spec(self, rhs: Vec3) -> Vec3 {
        v3(
            div_val(self.x.raw as int, rhs.x.raw as int),
            div_val(self.y.raw as int, rhs.y.raw as int),
            div_val(self.z.raw as int, rhs.z.raw as int),
        )
    }

    pub open spec fn scale_spec(self, k: int) -> Vec3 {
        v3(
            mul_val(self.x.raw as int, k),
            mul_val(self.y.raw as int, k),
            mul_val(self.z.raw as int, k),
        )
    }

    /// Raw value of the dot product.
    pub open spec fn dot_val(a: Vec3, b: Vec3) -> int {
        add_val(
            add_val(
                mul_val(a.x.raw as int, b.x.raw as int),
                mul_val(a.y.raw as int, b.y.raw as int),
            ),
            mul_val(a.z.raw as int, b.z.raw as int),
        )
    }

    /// Raw value of the squared norm as the dot product of `v` with itself.
    pub open spec fn sq_norm_val(v: Vec3) -> int {
        Vec3::dot_val(v, v)
    }

    /// Raw value of the norm, computed from the exact sum of squared raw
    /// lanes so that no precision is lost before the square root.
    pub open spec fn norm_val(v: Vec3) -> int {
        clip(
            isqrt(
                (v.x.raw as int) * (v.x.raw as int) + (v.y.raw as int) * (v.y.raw as int) + (
                v.z.raw as int) * (v.z.raw as int),
            ),
        )
    }

    pub open spec fn cross_spec(a: Vec3, b: Vec3) -> Vec3 {
        v3(
            sub_val(
                mul_val(a.y.raw as int, b.z.raw as int),
                mul_val(a.z.raw as int, b.y.raw as int),
            ),
            sub_val(
                mul_val(a.z.raw as int, b.x.raw as int),
                mul_val(a.x.raw as int, b.z.raw as int),
            ),
            sub_val(
                mul_val(a.x.raw as int, b.y.raw as int),
                mul_val(a.y.raw as int, b.x.raw as int),
            ),
        )
    }

    /// The lane-wise quotient of `v` by its own norm.
    pub open spec fn unit_spec(v: Vec3) -> Vec3 {
        v3(
            div_val(v.x.raw as int, Vec3::norm_val(v)),
            div_val(v.y.raw as int, Vec3::norm_val(v)),
            div_val(v.z.raw as int, Vec3::norm_val(v)),
        )
    }
}

impl Vec3 {
    pub fn new(x: Fixed, y: Fixed, z: Fixed) -> (r: Vec3)
        ensures
            r == (Vec3 { x, y, z }),
    {
        Vec3 { x, y, z }
    }

    pub fn splat(v: Fixed) -> (r: Vec3)
        ensures
            r == (Vec3 { x: v, y: v, z: v }),
    {
        Vec3 { x: v, y: v, z: v }
    }

    pub fn zero() -> (r: Vec3)
        ensures
            r == v3(0, 0, 0),
    {
        Vec3 { x: Fixed { raw: 0 }, y: Fixed { raw: 0 }, z: Fixed { raw: 0 } }
    }

    /// The lanes as a tuple.
    pub fn into_inner(self) -> (r: (Fixed, Fixed, Fixed))
        ensures
            r.0 == self.x,
            r.1 == self.y,
            r.2 == self.z,
    {
        (self.x, self.y, self.z)
    }

    pub fn add(self, rhs: Vec3) -> (r: Vec3)
        ensures
            r == self.add_spec(rhs),
            r.wf(),
    {
        Vec3 { x: self.x.add(rhs.x), y: self.y.add(rhs.y), z: self.z.add(rhs.z) }
    }

    pub fn sub(self, rhs: Vec3) -> (r: Vec3)
        ensures
            r == self.sub_spec(rhs),
            r.wf(),
    {
        Vec3 { x: self.x.sub(rhs.x), y: self.y.sub(rhs.y), z: self.z.sub(rhs.z) }
    }

    pub fn neg(self) -> (r: Vec3)
        ensures
            r == self.neg_spec(),
            r.wf(),
    {
        Vec3 { x: self.x.neg(), y: self.y.neg(), z: self.z.neg() }
    }

    /// Lane-wise product.
    pub fn wide_mul(self, rhs: Vec3) -> (r: Vec3)
        ensures
            r == self.wide_mul_spec(rhs),
            r.wf(),
    {
        Vec3 { x: self.x.mul(rhs.x), y: self.y.mul(rhs.y), z: self.z.mul(rhs.z) }
    }

    /// Lane-wise quotient.
    pub fn wide_div(self, rhs: Vec3) -> (r: Vec3)
        requires
            rhs.x.raw != 0,
            rhs.y.raw != 0,
            rhs.z.raw != 0,
        ensures
            r == self.wide_div_spec(rhs),
            r.wf(),
    {
        Vec3 { x: self.x.div(rhs.x), y: self.y.div(rhs.y), z: self.z.div(rhs.z) }
    }

    /// Product with a scalar.
    pub fn scale(self, k: Fixed) -> (r: Vec3)
        ensures
            r == self.scale_spec(k.raw as int),
            r.wf(),
    {
        Vec3 { x: self.x.mul(k), y: self.y.mul(k), z: self.z.mul(k) }
    }

    /// Sum of the lanes.
    pub fn reduce_add(self) -> (r: Fixed)
        ensures
            r == fx(
                add_val(add_val(self.x.raw as int, self.y.raw as int), self.z.raw as int),
            ),
    {
        self.x.add(self.y).add(self.z)
    }

    /// Dot product.
    pub fn dot(self, rhs: Vec3) -> (r: Fixed)
        ensures
            r == fx(Vec3::dot_val(self, rhs)),
            in_range(Vec3::dot_val(self, rhs)),
            r.raw == Vec3::dot_val(self, rhs),
    {
        proof {
            crate::fixed::lemma_clip_in_range(
                add_val(
                    mul_val(self.x.raw as int, rhs.x.raw as int),
                    mul_val(self.y.raw as int, rhs.y.raw as int),
                ) + mul_val(self.z.raw as int, rhs.z.raw as int),
            );
        }
        self.x.mul(rhs.x).add(self.y.mul(rhs.y)).add(self.z.mul(rhs.z))
    }

    /// Squared norm.
    pub fn sq_norm(self) -> (r: Fixed)
        ensures
            r == fx(Vec3::sq_norm_val(self)),
    {
        self.dot(self)
    }

    /// Norm, exact on the raw lanes up to the rounding of the square root.
    pub fn norm(self) -> (r: Fixed)
        requires
            self.wf(),
        ensures
            r == fx(Vec3::norm_val(self)),
            r.raw >= 0,
    {
        let mx = mag(self.x.raw);
        let my = mag(self.y.raw);
        let mz = mag(self.z.raw);
        proof {
            assert(mx * mx == (self.x.raw as int) * (self.x.raw as int) && mx * mx
                <= 0x400000000000u128 * 0x400000000000u128) by (nonlinear_arith)
                requires
                    mx == iabs(self.x.raw as int),
                    mx <= 0x400000000000u128,
            ;
            assert(my * my == (self.y.raw as int) * (self.y.raw as int) && my * my
                <= 0x400000000000u128 * 0x400000000000u128) by (nonlinear_arith)
                requires
                    my == iabs(self.y.raw as int),
                    my <= 0x400000000000u128,
            ;
            assert(mz * mz == (self.z.raw as int) * (self.z.raw as int) && mz * mz
                <= 0x400000000000u128 * 0x400000000000u128) by (nonlinear_arith)
                requires
                    mz == iabs(self.z.raw as int),
                    mz <= 0x400000000000u128,
            ;
        }
        let s: u128 = mx * mx + my * my + mz * mz;
        let n = isqrt_u128(s);
        proof {
            lemma_isqrt_unique(s as int, n as int);
        }
        from_signed_mag(false, n)
    }

    /// Distance between two points.
    pub fn distance(self, rhs: Vec3) -> (r: Fixed)
        ensures
            r == fx(Vec3::norm_val(self.sub_spec(rhs))),
            r.raw >= 0,
    {
        self.sub(rhs).norm()
    }

    /// The vector scaled to unit length: every lane divided by the norm.
    pub fn unit(self) -> (r: Vec3)
        requires
            self.wf(),
            !self.is_zero_spec(),
        ensures
            r == Vec3::unit_spec(self),
            r.wf(),
    {
        let n = self.norm();
        proof {
            let s = (self.x.raw as int) * (self.x.raw as int) + (self.y.raw as int) * (
            self.y.raw as int) + (self.z.raw as int) * (self.z.raw as int);
            assert(s >= 1) by (nonlinear_arith)
                requires
                    !(self.x.raw == 0 && self.y.raw == 0 && self.z.raw == 0),
                    s == (self.x.raw as int) * (self.x.raw as int) + (self.y.raw as int) * (
                    self.y.raw as int) + (self.z.raw as int) * (self.z.raw as int),
            ;
            lemma_isqrt_pos(s);
        }
        Vec3 { x: self.x.div(n), y: self.y.div(n), z: self.z.div(n) }
    }

    /// Normalize, then admit the result only if it passes the unit check.
    pub fn normalize(self) -> (r: Option<UnitVec3>)
        requires
            self.wf(),
        ensures
            r == if !self.is_zero_spec() && near_unit(Vec3::unit_spec(self)) {
                Some(UnitVec3::spec_new(Vec3::unit_spec(self)))
            } else {
                None::<UnitVec3>
            },
    {
        if self.x.raw == 0 && self.y.raw == 0 && self.z.raw == 0 {
            return None;
        }
        let w = self.unit();
        UnitVec3::from_vec(w)
    }

    /// Cross product, right-hand rule.
    pub fn cross(self, rhs: Vec3) -> (r: Vec3)
        ensures
            r == Vec3::cross_spec(self, rhs),
            r.wf(),
    {
        Vec3 {
            x: self.y.mul(rhs.z).sub(self.z.mul(rhs.y)),
            y: self.z.mul(rhs.x).sub(self.x.mul(rhs.z)),
            z: self.x.mul(rhs.y).sub(self.y.mul(rhs.x)),
        }
    }
}

impl Vec3 {
    /// No lane saturated.
    pub fn is_finite(self) -> (r: bool)
        ensures
            r == (finite_val(self.x.raw as int) && finite_val(self.y.raw as int) && finite_val(
                self.z.raw as int,
            )),
    {
        self.is_finite_mask().all()
    }

    /// Some lane saturated.
    pub fn is_infinite(self) -> (r: bool)
        ensures
            r == (!finite_val(self.x.raw as int) || !finite_val(self.y.raw as int) || !finite_val(
                self.z.raw as int,
            )),
    {
        self.is_infinite_mask().any()
    }

    /// Every lane neither zero nor saturated.
    pub fn is_normal(self) -> (r: bool)
        ensures
            r == (normal_val(self.x.raw as int) && normal_val(self.y.raw as int) && normal_val(
                self.z.raw as int,
            )),
    {
        self.is_normal_mask().all()
    }

    pub fn is_finite_mask(self) -> (r: Mask3)
        ensures
            r.x == finite_val(self.x.raw as int),
            r.y == finite_val(self.y.raw as int),
            r.z == finite_val(self.z.raw as int),
    {
        Mask3 {
            x: -RAW_MAX < self.x.raw && self.x.raw < RAW_MAX,
            y: -RAW_MAX < self.y.raw && self.y.raw < RAW_MAX,
            z: -RAW_MAX < self.z.raw && self.z.raw < RAW_MAX,
        }
    }

    pub fn is_infinite_mask(self) -> (r: Mask3)
        ensures
            r.x == !finite_val(self.x.raw as int),
            r.y == !finite_val(self.y.raw as int),
            r.z == !finite_val(self.z.raw as int),
    {
        Mask3 {
            x: self.x.raw <= -RAW_MAX || RAW_MAX <= self.x.raw,
            y: self.y.raw <= -RAW_MAX || RAW_MAX <= self.y.raw,
            z: self.z.raw <= -RAW_MAX || RAW_MAX <= self.z.raw,
        }
    }

    pub fn is_normal_mask(self) -> (r: Mask3)
        ensures
            r.x == normal_val(self.x.raw as int),
            r.y == normal_val(self.y.raw as int),
            r.z == normal_val(self.z.raw as int),
    {
        Mask3 {
            x: self.x.raw != 0 && -RAW_MAX < self.x.raw && self.x.raw < RAW_MAX,
            y: self.y.raw != 0 && -RAW_MAX < self.y.raw && self.y.raw < RAW_MAX,
            z: self.z.raw != 0 && -RAW_MAX < self.z.raw && self.z.raw < RAW_MAX,
        }
    }
}

impl Mask3 {
    pub fn any(self) -> (r: bool)
        ensures
            r == (self.x || self.y || self.z),
    {
        self.x || self.y || self.z
    }

    pub fn all(self) -> (r: bool)
        ensures
            r == (self.x && self.y && self.z),
    {
        self.x && self.y && self.z
    }
}

impl View for UnitVec3 {
    type V = Vec3;

    closed spec fn view(&self) -> Vec3 {
        self.vec
    }
}

impl UnitVec3 {
    #[verifier::type_invariant]
    spec fn inv(self) -> bool {
        near_unit(self.vec)
    }

    /// Spec-level constructor; meaningful when `near_unit(v)` holds.
    pub closed spec fn spec_new(v: Vec3) -> UnitVec3 {
        UnitVec3 { vec: v }
    }

    /// The checked constructor: succeeds exactly on vectors whose squared
    /// norm is one within `UNIT_EPS` raw units.
    pub fn from_vec(vec: Vec3) -> (r: Option<UnitVec3>)
        ensures
            r == if near_unit(vec) {
                Some(UnitVec3::spec_new(vec))
            } else {
                None::<UnitVec3>
            },
    {
        let sq = vec.sq_norm();
        let dev = sq.sub(Fixed { raw: SCALE }).abs();
        if dev.raw <= UNIT_EPS {
            Some(UnitVec3 { vec })
        } else {
            None
        }
    }

    /// The unchecked constructor; the caller owes the unit-length bound.
    pub fn from_vec_unchecked(vec: Vec3) -> (r: UnitVec3)
        requires
            near_unit(vec),
        ensures
            r == UnitVec3::spec_new(vec),
    {
        UnitVec3 { vec }
    }

    /// Unchecked constructor from lanes; the caller owes the bound.
    pub fn new_unchecked(x: Fixed, y: Fixed, z: Fixed) -> (r: UnitVec3)
        requires
            near_unit(Vec3 { x, y, z }),
        ensures
            r == UnitVec3::spec_new(Vec3 { x, y, z }),
    {
        UnitVec3 { vec: Vec3 { x, y, z } }
    }

    /// The carried vector.  Every unit vector holds a squared norm of one
    /// within `UNIT_EPS` raw units — the refinement cannot be built any
    /// other way, so the bound comes out with the vector.
    pub fn to_vec(self) -> (r: Vec3)
        ensures
            r == self@,
            near_unit(r),
    {
        proof {
            use_type_invariant(self);
        }
        self.vec
    }
}

/// The view of a spec-constructed unit vector is the carried vector, so
/// client modules can reason about concrete refinement values.
pub proof fn lemma_unit_vec3_view(v: Vec3)
    ensures
        UnitVec3::spec_new(v)@ == v,
{
}

/// The cross product is antisymmetric: swapping the arguments negates it
/// exactly, lane for lane, for all vectors.
pub proof fn lemma_cross_antisymmetric(a: Vec3, b: Vec3)
    ensures
        Vec3::cross_spec(a, b) == Vec3::cross_spec(b, a).neg_spec(),
{
    lemma_mul_val_comm(a.y.raw as int, b.z.raw as int);
    lemma_mul_val_comm(a.z.raw as int, b.y.raw as int);
    lemma_mul_val_comm(a.z.raw as int, b.x.raw as int);
    lemma_mul_val_comm(a.x.raw as int, b.z.raw as int);
    lemma_mul_val_comm(a.x.raw as int, b.y.raw as int);
    lemma_mul_val_comm(a.y.raw as int, b.x.raw as int);
}

/// The dot product is symmetric in its arguments.
pub proof fn lemma_dot_symmetric(a: Vec3, b: Vec3)
    ensures
        Vec3::dot_val(a, b) == Vec3::dot_val(b, a),
{
    lemma_mul_val_comm(a.x.raw as int, b.x.raw as int);
    lemma_mul_val_comm(a.y.raw as int, b.y.raw as int);
    lemma_mul_val_comm(a.z.raw as int, b.z.raw as int);
}

/// Fixed-point multiplication of raw values is commutative.
pub proof fn lemma_mul_val_comm(a: int, b: int)
    ensures
        mul_val(a, b) == mul_val(b, a),
{
    assert(iabs(a) * iabs(b) == iabs(b) * iabs(a)) by (nonlinear_arith);
}

} // verus!
