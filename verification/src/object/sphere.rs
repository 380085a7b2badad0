//! Ray-sphere intersection, the concrete scene primitive.

use vstd::prelude::*;
use crate::fixed::{
    add_val, fx, is_isqrt, isqrt, lemma_isqrt_unique, mul_val, neg_val, sqrt_val, sub_val, Fixed,
    SCALE,
};
use crate::math::vec3::{UnitVec3, Vec3};
use crate::object::{Object, Ray};

verus! {

/// A sphere, the concrete hittable primitive.
#[derive(Clone, Copy, PartialEq, Eq, Structural, Debug, Default)]
pub struct Sphere {
    pub center: Vec3,
    pub radius: Fixed,
}

impl Sphere {
    pub fn new(center: Vec3, radius: Fixed) -> (r: Sphere)
        ensures
            r == (Sphere { center, radius }),
    {
        Sphere { center, radius }
    }

    /// The line-sphere intersection policy: solve for the discriminant and
    /// pick the nearest non-negative root; a negative discriminant or a
    /// sphere entirely behind the origin is a miss.
    pub open spec fn hit_time_of(s: Sphere, ray: Ray) -> Option<Fixed> {
        let d = ray.origin.sub_spec(s.center);
        let alpha = Vec3::dot_val(ray.direction@, d);
        let delta = sub_val(
            mul_val(alpha, alpha),
            sub_val(Vec3::sq_norm_val(d), mul_val(s.radius.raw as int, s.radius.raw as int)),
        );
        if delta < 0 {
            None
        } else {
            let na = neg_val(alpha);
            let beta = sqrt_val(delta);
            if na == beta {
                Some(fx(0))
            } else if na > beta {
                Some(fx(sub_val(na, beta)))
            } else if add_val(na, beta) < 0 {
                None
            } else {
                Some(fx(add_val(na, beta)))
            }
        }
    }

    /// The outward normal direction: from the center through the point.
    pub open spec fn normal_of(s: Sphere, at: Vec3) -> Option<UnitVec3> {
        let d = at.sub_spec(s.center);
        if !d.is_zero_spec() && crate::math::vec3::near_unit(Vec3::unit_spec(d)) {
            Some(UnitVec3::spec_new(Vec3::unit_spec(d)))
        } else {
            None
        }
    }
}

impl Object for Sphere {
    open spec fn hit_time(&self, ray: Ray) -> Option<Fixed> {
        Sphere::hit_time_of(*self, ray)
    }

    open spec fn normal_spec(&self, at: Vec3) -> Option<UnitVec3> {
        Sphere::normal_of(*self, at)
    }

    fn is_hit_by(&self, ray: Ray) -> (r: Option<Fixed>) {
        let d = ray.origin.sub(self.center);
        let alpha = ray.direction.to_vec().dot(d);
        let delta = alpha.mul(alpha).sub(d.sq_norm().sub(self.radius.mul(self.radius)));
        if delta.raw < 0 {
            return None;
        }
        let na = alpha.neg();
        let beta = delta.sqrt();
        if na.raw == beta.raw {
            Some(Fixed { raw: 0 })
        } else if na.raw > beta.raw {
            Some(na.sub(beta))
        } else {
            let t = na.add(beta);
            if t.raw < 0 {
                None
            } else {
                Some(t)
            }
        }
    }

    fn normal(&self, at: Vec3) -> (r: Option<UnitVec3>) {
        at.sub(self.center).normalize()
    }
}

/// A ray cast from the center of a sphere whose squared radius is exact in
/// fixed point hits it at a time equal to the radius, whatever the
/// direction, and never at a negative time.
pub proof fn lemma_hit_from_center(s: Sphere, ray: Ray)
    requires
        ray.origin == s.center,
        0 <= s.radius.raw < 0x80000000,
        ((s.radius.raw as int) * (s.radius.raw as int)) % (SCALE as int) == 0,
    ensures
        s.hit_time(ray) == Some(s.radius),
        s.radius.raw >= 0,
{
    let sc = SCALE as int;
    let r = s.radius.raw as int;
    let d = ray.origin.sub_spec(s.center);
    assert(d.is_zero_spec());
    lemma_zero_dot(ray.direction@, d);
    assert(Vec3::sq_norm_val(d) == 0) by {
        lemma_zero_dot(d, d);
    };
    let m = (r * r) / sc;
    vstd::arithmetic::div_mod::lemma_fundamental_div_mod(r * r, sc);
    assert(r * r == sc * m);
    assert(iabs_sq_facts(r, m, sc)) by (nonlinear_arith)
        requires
            r * r == sc * m,
            0 <= r < 0x80000000,
            sc == 65536,
    ;
    vstd::arithmetic::div_mod::lemma_div_multiples_vanish(m, sc);
    assert(mul_val(r, r) == m);
    let delta = sub_val(mul_val(0, 0), sub_val(0, mul_val(r, r)));
    assert(mul_val(0, 0) == 0) by {
        assert(crate::fixed::iabs(0) * crate::fixed::iabs(0) == 0) by (nonlinear_arith);
    };
    assert(delta == m);
    assert(is_isqrt(m * sc, r)) by (nonlinear_arith)
        requires
            r * r == sc * m,
            0 <= r,
            sc == 65536,
    ;
    lemma_isqrt_unique(m * sc, r);
    assert(sqrt_val(delta) == r);
}

/// Facts about an exact squared radius, bundled for the nonlinear prover:
/// the scaled-down square is in range and its magnitudes agree.
pub open spec fn iabs_sq_facts(r: int, m: int, sc: int) -> bool {
    0 <= m <= crate::fixed::RAW_MAX && crate::fixed::iabs(r) * crate::fixed::iabs(r) == sc * m
}

/// The dot product with the zero vector is exactly zero.
proof fn lemma_zero_dot(a: Vec3, b: Vec3)
    requires
        b.is_zero_spec(),
    ensures
        Vec3::dot_val(a, b) == 0,
{
    assert(crate::fixed::iabs(a.x.raw as int) * crate::fixed::iabs(0) == 0) by (nonlinear_arith);
    assert(crate::fixed::iabs(a.y.raw as int) * crate::fixed::iabs(0) == 0) by (nonlinear_arith);
    assert(crate::fixed::iabs(a.z.raw as int) * crate::fixed::iabs(0) == 0) by (nonlinear_arith);
}

} // verus!
