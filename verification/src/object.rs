//! Hittable objects and the rays cast at them.

pub mod sphere;

use vstd::prelude::*;
use crate::fixed::{
    add_val, clip, fx, iabs, in_range, is_isqrt, isqrt, lemma_isqrt_unique, mul_val, sub_val,
    Fixed, SCALE,
};
use crate::math::vec3::{near_unit, UnitVec3, Vec3};

verus! {

/// A capability of scene geometry: an intersection test and a surface
/// normal.  Implementations fix both behaviours as spec functions that the
/// executable methods are held to.
pub trait Object {
    /// The ray parameter at the first surface contact, when there is one.
    spec fn hit_time(&self, ray: Ray) -> Option<Fixed>;

    /// The outward unit normal at a surface point, when the direction can
    /// be normalized and passes the unit check.
    spec fn normal_spec(&self, at: Vec3) -> Option<UnitVec3>;

    fn is_hit_by(&self, ray: Ray) -> (r: Option<Fixed>)
        ensures
            r == self.hit_time(ray),
    ;

    fn normal(&self, at: Vec3) -> (r: Option<UnitVec3>)
        ensures
            r == self.normal_spec(at),
    ;
}

/// A half-line: an origin and a unit-length direction.
#[derive(Clone, Copy, PartialEq, Eq, Structural, Debug)]
pub struct Ray {
    pub origin: Vec3,
    pub direction: UnitVec3,
}

impl Ray {
    /// The point at parameter `t` along the ray.
    pub open spec fn position_at_spec(self, t: Fixed) -> Vec3 {
        self.origin.add_spec(self.direction@.scale_spec(t.raw as int))
    }

    /// What reflecting the direction about a normal yields: the mirrored
    /// vector, normalized, admitted only if it passes the unit check.
    pub open spec fn reflect_spec(self, normal: UnitVec3) -> Option<UnitVec3> {
        let d = self.direction@;
        let n = normal@;
        let k = mul_val(2 * SCALE, Vec3::dot_val(d, n));
        let w = d.sub_spec(n.scale_spec(k));
        if !w.is_zero_spec() && near_unit(Vec3::unit_spec(w)) {
            Some(UnitVec3::spec_new(Vec3::unit_spec(w)))
        } else {
            None
        }
    }

    pub fn new(origin: Vec3, direction: UnitVec3) -> (r: Ray)
        ensures
            r == (Ray { origin, direction }),
    {
        Ray { origin, direction }
    }

    /// The point at parameter `t` along the ray.
    pub fn position_at(self, t: Fixed) -> (r: Vec3)
        ensures
            r == self.position_at_spec(t),
            r.wf(),
    {
        self.origin.add(self.direction.to_vec().scale(t))
    }

    /// Ask a target whether this ray hits it.
    pub fn hits<T: Object>(self, target: &T) -> (r: Option<Fixed>)
        ensures
            r == target.hit_time(self),
    {
        target.is_hit_by(self)
    }

    /// The direction mirrored about the outward normal, renormalized.
    pub fn reflect(self, normal: UnitVec3) -> (r: Option<UnitVec3>)
        ensures
            r == self.reflect_spec(normal),
    {
        let d = self.direction.to_vec();
        let n = normal.to_vec();
        let k = Fixed::from_int(2).mul(d.dot(n));
        let w = d.sub(n.scale(k));
        w.normalize()
    }
}

/// A ray that meets the surface head on — the direction is the exact
/// opposite of an exactly unit-length outward normal — reflects to the
/// exact opposite of its direction.
pub proof fn lemma_reflect_head_on(ray: Ray, normal: UnitVec3)
    requires
        ray.direction@ == normal@.neg_spec(),
        normal@.wf(),
        Vec3::sq_norm_val(normal@) == SCALE,
        (normal@.x.raw as int) * (normal@.x.raw as int) + (normal@.y.raw as int) * (
        normal@.y.raw as int) + (normal@.z.raw as int) * (normal@.z.raw as int) == (SCALE as int)
            * (SCALE as int),
    ensures
        ray.reflect_spec(normal) == Some(UnitVec3::spec_new(normal@)),
{
    let s = SCALE as int;
    let n = normal@;
    let d = ray.direction@;
    assert(iabs(n.x.raw as int) <= s && iabs(n.y.raw as int) <= s && iabs(n.z.raw as int) <= s)
        by (nonlinear_arith)
        requires
            (n.x.raw as int) * (n.x.raw as int) + (n.y.raw as int) * (n.y.raw as int) + (
            n.z.raw as int) * (n.z.raw as int) == s * s,
            s == 65536,
    ;
    lemma_neg_square(n.x.raw as int);
    lemma_neg_square(n.y.raw as int);
    lemma_neg_square(n.z.raw as int);
    assert(Vec3::dot_val(d, n) == clip(-(SCALE as int)));
    let k = mul_val(2 * s, -s);
    assert(k == -2 * s) by {
        lemma_mul_val_double_one();
    };
    lemma_scale_neg_two(n.x.raw as int);
    lemma_scale_neg_two(n.y.raw as int);
    lemma_scale_neg_two(n.z.raw as int);
    let w = d.sub_spec(n.scale_spec(k));
    assert(w == n);
    assert(is_isqrt(s * s, s)) by (nonlinear_arith)
        requires
            s == 65536,
    ;
    lemma_isqrt_unique(s * s, s);
    assert(Vec3::norm_val(w) == s);
    lemma_div_by_scale(n.x.raw as int);
    lemma_div_by_scale(n.y.raw as int);
    lemma_div_by_scale(n.z.raw as int);
    assert(Vec3::unit_spec(w) == n);
}

/// Reflecting the head-on reflection across the same normal returns a
/// direction that views as the original one: the two mirrored rays are
/// each other's images.
pub proof fn lemma_reflect_head_on_involution(ray: Ray, normal: UnitVec3)
    requires
        ray.direction@ == normal@.neg_spec(),
        normal@.wf(),
        Vec3::sq_norm_val(normal@) == SCALE,
        (normal@.x.raw as int) * (normal@.x.raw as int) + (normal@.y.raw as int) * (
        normal@.y.raw as int) + (normal@.z.raw as int) * (normal@.z.raw as int) == (SCALE as int)
            * (SCALE as int),
    ensures
        ray.reflect_spec(normal) == Some(UnitVec3::spec_new(normal@)),
        (Ray { origin: ray.origin, direction: UnitVec3::spec_new(normal@) }).reflect_spec(normal)
            == Some(UnitVec3::spec_new(ray.direction@)),
{
    lemma_reflect_head_on(ray, normal);
    let s = SCALE as int;
    let n = normal@;
    let nx = n.x.raw as int;
    let ny = n.y.raw as int;
    let nz = n.z.raw as int;
    crate::math::vec3::lemma_unit_vec3_view(n);
    let back = Ray { origin: ray.origin, direction: UnitVec3::spec_new(n) };
    assert(back.direction@ == n);
    assert(iabs(nx) <= s && iabs(ny) <= s && iabs(nz) <= s) by (nonlinear_arith)
        requires
            nx * nx + ny * ny + nz * nz == s * s,
            s == 65536,
    ;
    let k = mul_val(2 * s, Vec3::dot_val(n, n));
    assert(k == 2 * s) by {
        lemma_mul_val_double_one();
    };
    lemma_scale_two(nx);
    lemma_scale_two(ny);
    lemma_scale_two(nz);
    let w = n.sub_spec(n.scale_spec(k));
    assert(w == n.neg_spec());
    assert(w == ray.direction@);
    assert((w.x.raw as int) * (w.x.raw as int) + (w.y.raw as int) * (w.y.raw as int) + (
    w.z.raw as int) * (w.z.raw as int) == s * s) by (nonlinear_arith)
        requires
            w.x.raw as int == -nx,
            w.y.raw as int == -ny,
            w.z.raw as int == -nz,
            nx * nx + ny * ny + nz * nz == s * s,
    ;
    assert(is_isqrt(s * s, s)) by (nonlinear_arith)
        requires
            s == 65536,
    ;
    lemma_isqrt_unique(s * s, s);
    assert(Vec3::norm_val(w) == s);
    lemma_div_by_scale(w.x.raw as int);
    lemma_div_by_scale(w.y.raw as int);
    lemma_div_by_scale(w.z.raw as int);
    assert(Vec3::unit_spec(w) == w);
    lemma_neg_lane_square(nx);
    lemma_neg_lane_square(ny);
    lemma_neg_lane_square(nz);
    assert(Vec3::sq_norm_val(w) == Vec3::sq_norm_val(n));
    assert(!w.is_zero_spec()) by {
        if w.is_zero_spec() {
            assert(nx == 0 && ny == 0 && nz == 0);
            assert(nx * nx + ny * ny + nz * nz == 0) by (nonlinear_arith)
                requires
                    nx == 0 && ny == 0 && nz == 0,
            ;
        }
    };
}

/// Scaling an in-range lane by exactly two doubles it, and subtracting
/// the double mirrors it.
proof fn lemma_scale_two(x: int)
    requires
        in_range(x),
        iabs(x) <= 2 * (SCALE as int),
    ensures
        mul_val(x, 2 * (SCALE as int)) == 2 * x,
        sub_val(x, 2 * x) == clip(-x),
{
    let s = SCALE as int;
    assert(iabs(x) * iabs(2 * s) == s * (2 * iabs(x))) by (nonlinear_arith)
        requires
            s == 65536,
    ;
    vstd::arithmetic::div_mod::lemma_div_multiples_vanish(2 * iabs(x), s);
    assert(iabs(x) * iabs(2 * s) / s == 2 * iabs(x));
}

/// The square of a negated in-range lane equals the square of the lane.
proof fn lemma_neg_lane_square(x: int)
    requires
        in_range(x),
    ensures
        mul_val(clip(-x), clip(-x)) == mul_val(x, x),
{
    assert(iabs(clip(-x)) == iabs(x));
}

/// The square of a negated in-range lane equals the square of the lane,
/// and the dot-product term follows the sign.
proof fn lemma_neg_square(x: int)
    requires
        in_range(x),
    ensures
        mul_val(clip(-x), x) == -mul_val(x, x),
        mul_val(x, x) >= 0,
{
    let y = clip(-x);
    assert(iabs(y) == iabs(x));
    assert(iabs(x) * iabs(x) >= 0) by (nonlinear_arith);
    if x == 0 {
        assert(iabs(0int) * iabs(0int) == 0) by (nonlinear_arith);
    } else if x > 0 {
        assert(y < 0);
    } else {
        assert(y > 0);
    }
}

/// Two times plus or minus one is exactly plus or minus two, in fixed
/// point.
proof fn lemma_mul_val_double_one()
    ensures
        mul_val(2 * (SCALE as int), -(SCALE as int)) == -2 * (SCALE as int),
        mul_val(2 * (SCALE as int), SCALE as int) == 2 * (SCALE as int),
{
    let s = SCALE as int;
    assert(iabs(2 * s) * iabs(-s) == s * (2 * s)) by (nonlinear_arith)
        requires
            s == 65536,
    ;
    assert(iabs(2 * s) * iabs(s) == s * (2 * s)) by (nonlinear_arith)
        requires
            s == 65536,
    ;
    vstd::arithmetic::div_mod::lemma_div_multiples_vanish(2 * s, s);
}

/// Scaling an in-range lane by exactly minus two doubles and negates it.
proof fn lemma_scale_neg_two(x: int)
    requires
        in_range(x),
        iabs(x) <= 2 * (SCALE as int),
    ensures
        mul_val(x, -2 * (SCALE as int)) == -2 * x,
        sub_val(clip(-x), -2 * x) == x,
{
    let s = SCALE as int;
    assert(iabs(x) * iabs(-2 * s) == s * (2 * iabs(x))) by (nonlinear_arith)
        requires
            s == 65536,
    ;
    vstd::arithmetic::div_mod::lemma_div_multiples_vanish(2 * iabs(x), s);
    assert(iabs(x) * iabs(-2 * s) / s == 2 * iabs(x));
}

/// Dividing an in-range lane by the unit norm returns the lane.
proof fn lemma_div_by_scale(x: int)
    requires
        in_range(x),
    ensures
        crate::fixed::div_val(x, SCALE as int) == x,
{
    let s = SCALE as int;
    assert(iabs(x) * s == s * iabs(x)) by (nonlinear_arith);
    vstd::arithmetic::div_mod::lemma_div_multiples_vanish(iabs(x), s);
}

} // verus!
