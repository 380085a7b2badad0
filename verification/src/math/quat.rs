//! Quaternions and the unit-norm refinement used for rotations.

use vstd::prelude::*;
use crate::fixed::{
    add_val, clip, fx, iabs, in_range, int_quot, lemma_clip_in_range, lemma_isqrt_pos, mul_val,
    neg_val, sub_val, Fixed, SCALE,
};
use crate::math::euler::EulerAngles;
use crate::math::vec3::{v3, Vec3};
use crate::math::vec4::{near_unit4, v4, Vec4};
use crate::trig::{cos_fx, cos_val, sin_fx, sin_val, wrap_tau, TAU_RAW};

verus! {

/// An unconstrained quaternion: the lanes of the vector are the real part
/// and the `i`, `j`, `k` coefficients, in that order.
#[derive(Clone, Copy, PartialEq, Eq, Structural, Debug, Default)]
pub struct Quaternion(pub Vec4);

/// A quaternion whose norm is one within `UNIT_EPS` raw units: a rotation.
#[derive(Clone, Copy, PartialEq, Eq, Structural, Debug)]
pub struct Versor {
    q: Quaternion,
}

impl Quaternion {
    pub open spec fn wf(self) -> bool {
        self.0.wf()
    }

    /// The Hamilton product, with the `(r, i, j, k)` basis convention
    /// `i * j == k` and `j * i == -k`.
    pub open spec fn mul_spec(a: Quaternion, b: Quaternion) -> Quaternion {
        let ar = a.0.x.raw as int;
        let ai = a.0.y.raw as int;
        let aj = a.0.z.raw as int;
        let ak = a.0.w.raw as int;
        let br = b.0.x.raw as int;
        let bi = b.0.y.raw as int;
        let bj = b.0.z.raw as int;
        let bk = b.0.w.raw as int;
        Quaternion(
            v4(
                sub_val(
                    sub_val(sub_val(mul_val(ar, br), mul_val(ai, bi)), mul_val(aj, bj)),
                    mul_val(ak, bk),
                ),
                add_val(
                    add_val(mul_val(ar, bi), mul_val(ai, br)),
                    sub_val(mul_val(aj, bk), mul_val(ak, bj)),
                ),
                add_val(
                    add_val(mul_val(ar, bj), mul_val(aj, br)),
                    sub_val(mul_val(ak, bi), mul_val(ai, bk)),
                ),
                add_val(
                    add_val(mul_val(ar, bk), mul_val(ak, br)),
                    sub_val(mul_val(ai, bj), mul_val(aj, bi)),
                ),
            ),
        )
    }

    /// The conjugate: the imaginary lanes negated.
    pub open spec fn conjugate_spec(q: Quaternion) -> Quaternion {
        Quaternion(
            Vec4 {
                x: q.0.x,
                y: fx(neg_val(q.0.y.raw as int)),
                z: fx(neg_val(q.0.z.raw as int)),
                w: fx(neg_val(q.0.w.raw as int)),
            },
        )
    }

    /// The conjugate divided, lane by lane, by the squared norm.
    pub open spec fn inverse_spec(q: Quaternion) -> Quaternion {
        let s = Vec4::sq_norm_val(q.0);
        Quaternion(
            Quaternion::conjugate_spec(q).0.wide_div_spec(Vec4 { x: fx(s), y: fx(s), z: fx(s), w: fx(s) }),
        )
    }

    /// The quaternion of the rotation the Euler angles describe, from the
    /// sines and cosines of the half angles.
    pub open spec fn from_euler_spec(e: EulerAngles) -> Quaternion {
        let h = e.0.scale_spec(32768);
        let s0 = sin_val(h.x.raw as int);
        let s1 = sin_val(h.y.raw as int);
        let s2 = sin_val(h.z.raw as int);
        let c0 = cos_val(h.x.raw as int);
        let c1 = cos_val(h.y.raw as int);
        let c2 = cos_val(h.z.raw as int);
        Quaternion(
            v4(
                add_val(mul_val(mul_val(c0, c1), c2), mul_val(mul_val(s0, s1), s2)),
                sub_val(mul_val(mul_val(s0, c1), c2), mul_val(mul_val(c0, s1), s2)),
                add_val(mul_val(mul_val(c0, s1), c2), mul_val(mul_val(s0, c1), s2)),
                sub_val(mul_val(mul_val(c0, c1), s2), mul_val(mul_val(s0, s1), c2)),
            ),
        )
    }
}

impl Quaternion {
    pub fn new(r: Fixed, i: Fixed, j: Fixed, k: Fixed) -> (q: Quaternion)
        ensures
            q == Quaternion(Vec4 { x: r, y: i, z: j, w: k }),
    {
        Quaternion(Vec4 { x: r, y: i, z: j, w: k })
    }

    pub fn from_vec(v: Vec4) -> (q: Quaternion)
        ensures
            q == Quaternion(v),
    {
        Quaternion(v)
    }

    #[verifier::rlimit(50)]
    pub fn from_euler(euler: EulerAngles) -> (q: Quaternion)
        ensures
            q == Quaternion::from_euler_spec(euler),
            q.wf(),
    {
        let half = euler.to_radians().scale(Fixed { raw: 32768 });
        let s0 = sin_fx(half.x);
        let s1 = sin_fx(half.y);
        let s2 = sin_fx(half.z);
        let c0 = cos_fx(half.x);
        let c1 = cos_fx(half.y);
        let c2 = cos_fx(half.z);
        Quaternion(
            Vec4 {
                x: c0.mul(c1).mul(c2).add(s0.mul(s1).mul(s2)),
                y: s0.mul(c1).mul(c2).sub(c0.mul(s1).mul(s2)),
                z: c0.mul(s1).mul(c2).add(s0.mul(c1).mul(s2)),
                w: c0.mul(c1).mul(s2).sub(s0.mul(s1).mul(c2)),
            },
        )
    }

    /// The lanes as a vector.
    pub fn to_inner(self) -> (r: Vec4)
        ensures
            r == self.0,
    {
        self.0
    }

    /// The real part.
    pub fn r(self) -> (r: Fixed)
        ensures
            r == self.0.x,
    {
        self.0.x
    }

    /// The `i` coefficient.
    pub fn i(self) -> (r: Fixed)
        ensures
            r == self.0.y,
    {
        self.0.y
    }

    /// The `j` coefficient.
    pub fn j(self) -> (r: Fixed)
        ensures
            r == self.0.z,
    {
        self.0.z
    }

    /// The `k` coefficient.
    pub fn k(self) -> (r: Fixed)
        ensures
            r == self.0.w,
    {
        self.0.w
    }

    /// Squared norm.
    pub fn sq_norm(self) -> (r: Fixed)
        ensures
            r == fx(Vec4::sq_norm_val(self.0)),
    {
        self.0.sq_norm()
    }

    /// Norm.
    pub fn norm(self) -> (r: Fixed)
        requires
            self.wf(),
        ensures
            r == fx(Vec4::norm_val(self.0)),
            r.raw >= 0,
    {
        self.0.norm()
    }

    /// The quaternion scaled to unit norm: every lane divided by the norm.
    pub fn unit(self) -> (r: Quaternion)
        requires
            self.wf(),
            !self.0.is_zero_spec(),
        ensures
            r == Quaternion(Vec4::unit_spec(self.0)),
            r.wf(),
    {
        let n = self.norm();
        proof {
            let s = (self.0.x.raw as int) * (self.0.x.raw as int) + (self.0.y.raw as int) * (
            self.0.y.raw as int) + (self.0.z.raw as int) * (self.0.z.raw as int) + (
            self.0.w.raw as int) * (self.0.w.raw as int);
            assert(s >= 1) by (nonlinear_arith)
                requires
                    !(self.0.x.raw == 0 && self.0.y.raw == 0 && self.0.z.raw == 0 && self.0.w.raw
                        == 0),
                    s == (self.0.x.raw as int) * (self.0.x.raw as int) + (self.0.y.raw as int) * (
                    self.0.y.raw as int) + (self.0.z.raw as int) * (self.0.z.raw as int) + (
                    self.0.w.raw as int) * (self.0.w.raw as int),
            ;
            lemma_isqrt_pos(s);
        }
        Quaternion(
            Vec4 {
                x: self.0.x.div(n),
                y: self.0.y.div(n),
                z: self.0.z.div(n),
                w: self.0.w.div(n),
            },
        )
    }

    /// The conjugate.
    pub fn conjugate(self) -> (r: Quaternion)
        ensures
            r == Quaternion::conjugate_spec(self),
    {
        Quaternion(
            Vec4 { x: self.0.x, y: self.0.y.neg(), z: self.0.z.neg(), w: self.0.w.neg() },
        )
    }

    /// The multiplicative inverse: the conjugate over the squared norm.
    pub fn inverse(self) -> (r: Quaternion)
        requires
            Vec4::sq_norm_val(self.0) != 0,
        ensures
            r == Quaternion::inverse_spec(self),
    {
        let s = self.sq_norm();
        let c = self.conjugate();
        Quaternion(c.0.wide_div(Vec4 { x: s, y: s, z: s, w: s }))
    }

    /// The Hamilton product.
    pub fn mul(self, rhs: Quaternion) -> (r: Quaternion)
        ensures
            r == Quaternion::mul_spec(self, rhs),
            r.wf(),
    {
        let a = self.0;
        let b = rhs.0;
        Quaternion(
            Vec4 {
                x: a.x.mul(b.x).sub(a.y.mul(b.y)).sub(a.z.mul(b.z)).sub(a.w.mul(b.w)),
                y: a.x.mul(b.y).add(a.y.mul(b.x)).add(a.z.mul(b.w).sub(a.w.mul(b.z))),
                z: a.x.mul(b.z).add(a.z.mul(b.x)).add(a.w.mul(b.y).sub(a.y.mul(b.w))),
                w: a.x.mul(b.w).add(a.w.mul(b.x)).add(a.y.mul(b.z).sub(a.z.mul(b.y))),
            },
        )
    }
}

impl View for Versor {
    type V = Quaternion;

    closed spec fn view(&self) -> Quaternion {
        self.q
    }
}

impl Versor {
    #[verifier::type_invariant]
    spec fn inv(self) -> bool {
        near_unit4(self.q.0)
    }

    /// Spec-level constructor; meaningful when the lanes are near unit norm.
    pub closed spec fn spec_new(q: Quaternion) -> Versor {
        Versor { q }
    }

    /// What normalizing a quaternion into a versor yields: the unit check
    /// runs on the lane-wise quotient by the norm.
    pub open spec fn normalize_spec(q: Quaternion) -> Option<Versor> {
        if !q.0.is_zero_spec() && near_unit4(Vec4::unit_spec(q.0)) {
            Some(Versor::spec_new(Quaternion(Vec4::unit_spec(q.0))))
        } else {
            None
        }
    }

    /// The versor of the Euler angles: the rotation quaternion, normalized
    /// and checked.
    pub open spec fn from_euler_spec(e: EulerAngles) -> Option<Versor> {
        Versor::normalize_spec(Quaternion::from_euler_spec(e))
    }

    /// Composition of two rotations: the Hamilton product, normalized and
    /// checked.
    pub open spec fn compose_spec(a: Quaternion, b: Quaternion) -> Option<Versor> {
        Versor::normalize_spec(Quaternion::mul_spec(a, b))
    }

    /// The checked constructor: succeeds exactly on quaternions of unit
    /// norm within `UNIT_EPS` raw units.
    pub fn new(q: Quaternion) -> (r: Option<Versor>)
        ensures
            r == if near_unit4(q.0) {
                Some(Versor::spec_new(q))
            } else {
                None::<Versor>
            },
    {
        let sq = q.sq_norm();
        let dev = sq.sub(Fixed { raw: SCALE }).abs();
        if dev.raw <= crate::fixed::UNIT_EPS {
            Some(Versor { q })
        } else {
            None
        }
    }

    /// Normalize a quaternion and admit it if it passes the unit check.
    pub fn from_quaternion(q: Quaternion) -> (r: Option<Versor>)
        requires
            q.wf(),
        ensures
            r == Versor::normalize_spec(q),
    {
        let v = q.0;
        if v.x.raw == 0 && v.y.raw == 0 && v.z.raw == 0 && v.w.raw == 0 {
            return None;
        }
        let u = q.unit();
        Versor::new(u)
    }

    /// The rotation of the Euler angles, normalized and checked.
    pub fn from_euler(euler: EulerAngles) -> (r: Option<Versor>)
        ensures
            r == Versor::from_euler_spec(euler),
    {
        let q = Quaternion::from_euler(euler);
        Versor::from_quaternion(q)
    }

    /// The carried quaternion, together with the bound the refinement holds.
    pub fn to_inner(self) -> (r: Quaternion)
        ensures
            r == self@,
            near_unit4(r.0),
    {
        proof {
            use_type_invariant(self);
        }
        self.q
    }

    /// The conjugate rotation; conjugation keeps the norm.
    pub fn conjugate(self) -> (r: Versor)
        ensures
            r@ == Quaternion::conjugate_spec(self@),
    {
        proof {
            use_type_invariant(self);
            lemma_conjugate_keeps_sq_norm(self.q);
        }
        Versor { q: self.q.conjugate() }
    }

    /// For a unit-norm quaternion the inverse is the conjugate.
    pub fn inverse(self) -> (r: Versor)
        ensures
            r@ == Quaternion::conjugate_spec(self@),
    {
        self.conjugate()
    }

    /// Composition of rotations: multiply, normalize, check.
    pub fn mul(self, rhs: Versor) -> (r: Option<Versor>)
        ensures
            r == Versor::compose_spec(self@, rhs@),
    {
        let p = self.to_inner().mul(rhs.to_inner());
        Versor::from_quaternion(p)
    }

    /// The sandwich product that rotates a vector: the rotated vector is
    /// the imaginary part of `q * (0, v) * conj(q)`.
    pub open spec fn apply_spec(q: Quaternion, v: Vec3) -> Vec3 {
        let p = Quaternion(Vec4 { x: fx(0), y: v.x, z: v.y, w: v.z });
        let res = Quaternion::mul_spec(
            Quaternion::mul_spec(q, p),
            Quaternion::conjugate_spec(q),
        );
        Vec3 { x: res.0.y, y: res.0.z, z: res.0.w }
    }

    /// Rotate a vector by the sandwich product.
    pub fn apply(self, v: Vec3) -> (r: Vec3)
        ensures
            r == Versor::apply_spec(self@, v),
            r.wf(),
    {
        let q = self.to_inner();
        let p = Quaternion(Vec4 { x: Fixed { raw: 0 }, y: v.x, z: v.y, w: v.z });
        let res = q.mul(p).mul(q.conjugate());
        Vec3 { x: res.0.y, y: res.0.z, z: res.0.w }
    }
}

impl Default for Versor {
    /// The identity rotation.
    fn default() -> (r: Versor)
        ensures
            r@ == Quaternion(v4(SCALE as int, 0, 0, 0)),
    {
        proof {
            lemma_mul_val_one(SCALE as int);
            lemma_mul_val_zero(0);
            assert(Vec4::sq_norm_val(Quaternion(v4(SCALE as int, 0, 0, 0)).0) == SCALE as int);
        }
        Versor {
            q: Quaternion(
                Vec4 {
                    x: Fixed { raw: SCALE },
                    y: Fixed { raw: 0 },
                    z: Fixed { raw: 0 },
                    w: Fixed { raw: 0 },
                },
            ),
        }
    }
}

/// The view of a spec-constructed versor is the carried quaternion, so
/// client modules can reason about concrete refinement values.
pub proof fn lemma_versor_view(q: Quaternion)
    ensures
        Versor::spec_new(q)@ == q,
{
}

/// Zero Euler angles give exactly the identity quaternion: the even
/// cosine evaluation is exact at zero, so no normalization is needed to
/// recover the algebraic anchor.
pub proof fn lemma_from_euler_zero_identity()
    ensures
        Quaternion::from_euler_spec(EulerAngles(v3(0, 0, 0))) == Quaternion(
            v4(SCALE as int, 0, 0, 0),
        ),
{
    let s = SCALE as int;
    lemma_mul_val_zero(32768);
    assert(EulerAngles(v3(0, 0, 0)).0.scale_spec(32768) == v3(0, 0, 0));
    lemma_mul_val_zero(0);
    assert(sin_val(0) == 0) by {
        assert(wrap_tau(0) == 0) by {
            vstd::arithmetic::div_mod::lemma_mod_multiples_basic(0, TAU_RAW as int);
        };
        assert(int_quot(0, 6) == 0 && int_quot(0, 120) == 0 && int_quot(0, 5040) == 0) by {
            assert(0int / 6 == 0 && 0int / 120 == 0 && 0int / 5040 == 0);
        };
    };
    assert(cos_val(0) == s) by {
        assert(wrap_tau(0) == 0) by {
            vstd::arithmetic::div_mod::lemma_mod_multiples_basic(0, TAU_RAW as int);
        };
        assert(int_quot(0, 2) == 0 && int_quot(0, 24) == 0 && int_quot(0, 720) == 0 && int_quot(
            0,
            40320,
        ) == 0) by {
            assert(0int / 2 == 0 && 0int / 24 == 0 && 0int / 720 == 0 && 0int / 40320 == 0);
        };
    };
    lemma_mul_val_one(s);
    lemma_mul_val_zero(s);
}

/// Negating a lane leaves its squared contribution unchanged, saturation
/// included.
proof fn lemma_sq_lane_neg(y: int)
    ensures
        mul_val(neg_val(y), neg_val(y)) == mul_val(y, y),
{
    if in_range(y) {
        assert(iabs(clip(-y)) == iabs(y));
    } else {
        let m = crate::fixed::RAW_MAX as int;
        assert(iabs(clip(-y)) == m);
        assert(m * m / (SCALE as int) > m) by (nonlinear_arith)
            requires
                m == crate::fixed::RAW_MAX as int,
        ;
        assert(iabs(y) * iabs(y) >= m * m) by (nonlinear_arith)
            requires
                iabs(y) >= m,
                m >= 0,
        ;
        vstd::arithmetic::div_mod::lemma_div_is_ordered(
            m * m,
            iabs(y) * iabs(y),
            SCALE as int,
        );
    }
}

/// Conjugation does not change the squared norm of the lanes.
proof fn lemma_conjugate_keeps_sq_norm(q: Quaternion)
    ensures
        Vec4::sq_norm_val(Quaternion::conjugate_spec(q).0) == Vec4::sq_norm_val(q.0),
{
    lemma_sq_lane_neg(q.0.y.raw as int);
    lemma_sq_lane_neg(q.0.z.raw as int);
    lemma_sq_lane_neg(q.0.w.raw as int);
}

/// The identity quaternion is a two-sided identity of the Hamilton
/// product, for every representable quaternion.
pub proof fn lemma_quat_mul_identity(q: Quaternion)
    requires
        q.wf(),
    ensures
        Quaternion::mul_spec(Quaternion(v4(SCALE as int, 0, 0, 0)), q) == q,
        Quaternion::mul_spec(q, Quaternion(v4(SCALE as int, 0, 0, 0))) == q,
{
    lemma_mul_val_one(q.0.x.raw as int);
    lemma_mul_val_one(q.0.y.raw as int);
    lemma_mul_val_one(q.0.z.raw as int);
    lemma_mul_val_one(q.0.w.raw as int);
    lemma_mul_val_zero(q.0.x.raw as int);
    lemma_mul_val_zero(q.0.y.raw as int);
    lemma_mul_val_zero(q.0.z.raw as int);
    lemma_mul_val_zero(q.0.w.raw as int);
}

/// Multiplying by the fixed-point one is exact.
proof fn lemma_mul_val_one(x: int)
    ensures
        mul_val(SCALE as int, x) == clip(x),
        mul_val(x, SCALE as int) == clip(x),
{
    let s = SCALE as int;
    vstd::arithmetic::div_mod::lemma_div_multiples_vanish(iabs(x), s);
    assert(iabs(s) * iabs(x) == s * iabs(x)) by (nonlinear_arith)
        requires
            iabs(s) == s,
    ;
    assert(iabs(x) * iabs(s) == s * iabs(x)) by (nonlinear_arith)
        requires
            iabs(s) == s,
    ;
}

/// Multiplying by zero gives zero.
proof fn lemma_mul_val_zero(x: int)
    ensures
        mul_val(0, x) == 0,
        mul_val(x, 0) == 0,
{
    assert(iabs(0) * iabs(x) == 0) by (nonlinear_arith);
    assert(iabs(x) * iabs(0) == 0) by (nonlinear_arith);
    assert(0int / (SCALE as int) == 0);
}

/// The exact Hamilton product over mathematical integer coordinates.
pub open spec fn hprod(a: (int, int, int, int), b: (int, int, int, int)) -> (int, int, int, int) {
    (
        a.0 * b.0 - a.1 * b.1 - a.2 * b.2 - a.3 * b.3,
        a.0 * b.1 + a.1 * b.0 + a.2 * b.3 - a.3 * b.2,
        a.0 * b.2 + a.2 * b.0 + a.3 * b.1 - a.1 * b.3,
        a.0 * b.3 + a.3 * b.0 + a.1 * b.2 - a.2 * b.1,
    )
}

/// The exact Hamilton product over the integers is associative.
pub proof fn lemma_hprod_assoc(a: (int, int, int, int), b: (int, int, int, int), c: (
    int,
    int,
    int,
    int,
))
    ensures
        hprod(hprod(a, b), c) == hprod(a, hprod(b, c)),
{
    let x0 = a.0 * b.0 - a.1 * b.1 - a.2 * b.2 - a.3 * b.3;
    let x1 = a.0 * b.1 + a.1 * b.0 + a.2 * b.3 - a.3 * b.2;
    let x2 = a.0 * b.2 + a.2 * b.0 + a.3 * b.1 - a.1 * b.3;
    let x3 = a.0 * b.3 + a.3 * b.0 + a.1 * b.2 - a.2 * b.1;
    let y0 = b.0 * c.0 - b.1 * c.1 - b.2 * c.2 - b.3 * c.3;
    let y1 = b.0 * c.1 + b.1 * c.0 + b.2 * c.3 - b.3 * c.2;
    let y2 = b.0 * c.2 + b.2 * c.0 + b.3 * c.1 - b.1 * c.3;
    let y3 = b.0 * c.3 + b.3 * c.0 + b.1 * c.2 - b.2 * c.1;
    assert(x0 * c.0 == (a.0 * b.0) * c.0 - (a.1 * b.1) * c.0 - (a.2 * b.2) * c.0 - (a.3 * b.3) * c.0) by (nonlinear_arith)
        requires
            x0 == a.0 * b.0 - a.1 * b.1 - a.2 * b.2 - a.3 * b.3,
    ;
    assert(x0 * c.1 == (a.0 * b.0) * c.1 - (a.1 * b.1) * c.1 - (a.2 * b.2) * c.1 - (a.3 * b.3) * c.1) by (nonlinear_arith)
        requires
            x0 == a.0 * b.0 - a.1 * b.1 - a.2 * b.2 - a.3 * b.3,
    ;
    assert(x0 * c.2 == (a.0 * b.0) * c.2 - (a.1 * b.1) * c.2 - (a.2 * b.2) * c.2 - (a.3 * b.3) * c.2) by (nonlinear_arith)
        requires
            x0 == a.0 * b.0 - a.1 * b.1 - a.2 * b.2 - a.3 * b.3,
    ;
    assert(x0 * c.3 == (a.0 * b.0) * c.3 - (a.1 * b.1) * c.3 - (a.2 * b.2) * c.3 - (a.3 * b.3) * c.3) by (nonlinear_arith)
        requires
            x0 == a.0 * b.0 - a.1 * b.1 - a.2 * b.2 - a.3 * b.3,
    ;
    assert(x1 * c.0 == (a.0 * b.1) * c.0 + (a.1 * b.0) * c.0 + (a.2 * b.3) * c.0 - (a.3 * b.2) * c.0) by (nonlinear_arith)
        requires
            x1 == a.0 * b.1 + a.1 * b.0 + a.2 * b.3 - a.3 * b.2,
    ;
    assert(x1 * c.1 == (a.0 * b.1) * c.1 + (a.1 * b.0) * c.1 + (a.2 * b.3) * c.1 - (a.3 * b.2) * c.1) by (nonlinear_arith)
        requires
            x1 == a.0 * b.1 + a.1 * b.0 + a.2 * b.3 - a.3 * b.2,
    ;
    assert(x1 * c.2 == (a.0 * b.1) * c.2 + (a.1 * b.0) * c.2 + (a.2 * b.3) * c.2 - (a.3 * b.2) * c.2) by (nonlinear_arith)
        requires
            x1 == a.0 * b.1 + a.1 * b.0 + a.2 * b.3 - a.3 * b.2,
    ;
    assert(x1 * c.3 == (a.0 * b.1) * c.3 + (a.1 * b.0) * c.3 + (a.2 * b.3) * c.3 - (a.3 * b.2) * c.3) by (nonlinear_arith)
        requires
            x1 == a.0 * b.1 + a.1 * b.0 + a.2 * b.3 - a.3 * b.2,
    ;
    assert(x2 * c.0 == (a.0 * b.2) * c.0 + (a.2 * b.0) * c.0 + (a.3 * b.1) * c.0 - (a.1 * b.3) * c.0) by (nonlinear_arith)
        requires
            x2 == a.0 * b.2 + a.2 * b.0 + a.3 * b.1 - a.1 * b.3,
    ;
    assert(x2 * c.1 == (a.0 * b.2) * c.1 + (a.2 * b.0) * c.1 + (a.3 * b.1) * c.1 - (a.1 * b.3) * c.1) by (nonlinear_arith)
        requires
            x2 == a.0 * b.2 + a.2 * b.0 + a.3 * b.1 - a.1 * b.3,
    ;
    assert(x2 * c.2 == (a.0 * b.2) * c.2 + (a.2 * b.0) * c.2 + (a.3 * b.1) * c.2 - (a.1 * b.3) * c.2) by (nonlinear_arith)
        requires
            x2 == a.0 * b.2 + a.2 * b.0 + a.3 * b.1 - a.1 * b.3,
    ;
    assert(x2 * c.3 == (a.0 * b.2) * c.3 + (a.2 * b.0) * c.3 + (a.3 * b.1) * c.3 - (a.1 * b.3) * c.3) by (nonlinear_arith)
        requires
            x2 == a.0 * b.2 + a.2 * b.0 + a.3 * b.1 - a.1 * b.3,
    ;
    assert(x3 * c.0 == (a.0 * b.3) * c.0 + (a.3 * b.0) * c.0 + (a.1 * b.2) * c.0 - (a.2 * b.1) * c.0) by (nonlinear_arith)
        requires
            x3 == a.0 * b.3 + a.3 * b.0 + a.1 * b.2 - a.2 * b.1,
    ;
    assert(x3 * c.1 == (a.0 * b.3) * c.1 + (a.3 * b.0) * c.1 + (a.1 * b.2) * c.1 - (a.2 * b.1) * c.1) by (nonlinear_arith)
        requires
            x3 == a.0 * b.3 + a.3 * b.0 + a.1 * b.2 - a.2 * b.1,
    ;
    assert(x3 * c.2 == (a.0 * b.3) * c.2 + (a.3 * b.0) * c.2 + (a.1 * b.2) * c.2 - (a.2 * b.1) * c.2) by (nonlinear_arith)
        requires
            x3 == a.0 * b.3 + a.3 * b.0 + a.1 * b.2 - a.2 * b.1,
    ;
    assert(x3 * c.3 == (a.0 * b.3) * c.3 + (a.3 * b.0) * c.3 + (a.1 * b.2) * c.3 - (a.2 * b.1) * c.3) by (nonlinear_arith)
        requires
            x3 == a.0 * b.3 + a.3 * b.0 + a.1 * b.2 - a.2 * b.1,
    ;
    assert(a.0 * y0 == a.0 * (b.0 * c.0) - a.0 * (b.1 * c.1) - a.0 * (b.2 * c.2) - a.0 * (b.3 * c.3)) by (nonlinear_arith)
        requires
            y0 == b.0 * c.0 - b.1 * c.1 - b.2 * c.2 - b.3 * c.3,
    ;
    assert(a.0 * y1 == a.0 * (b.0 * c.1) + a.0 * (b.1 * c.0) + a.0 * (b.2 * c.3) - a.0 * (b.3 * c.2)) by (nonlinear_arith)
        requires
            y1 == b.0 * c.1 + b.1 * c.0 + b.2 * c.3 - b.3 * c.2,
    ;
    assert(a.0 * y2 == a.0 * (b.0 * c.2) + a.0 * (b.2 * c.0) + a.0 * (b.3 * c.1) - a.0 * (b.1 * c.3)) by (nonlinear_arith)
        requires
            y2 == b.0 * c.2 + b.2 * c.0 + b.3 * c.1 - b.1 * c.3,
    ;
    assert(a.0 * y3 == a.0 * (b.0 * c.3) + a.0 * (b.3 * c.0) + a.0 * (b.1 * c.2) - a.0 * (b.2 * c.1)) by (nonlinear_arith)
        requires
            y3 == b.0 * c.3 + b.3 * c.0 + b.1 * c.2 - b.2 * c.1,
    ;
    assert(a.1 * y0 == a.1 * (b.0 * c.0) - a.1 * (b.1 * c.1) - a.1 * (b.2 * c.2) - a.1 * (b.3 * c.3)) by (nonlinear_arith)
        requires
            y0 == b.0 * c.0 - b.1 * c.1 - b.2 * c.2 - b.3 * c.3,
    ;
    assert(a.1 * y1 == a.1 * (b.0 * c.1) + a.1 * (b.1 * c.0) + a.1 * (b.2 * c.3) - a.1 * (b.3 * c.2)) by (nonlinear_arith)
        requires
            y1 == b.0 * c.1 + b.1 * c.0 + b.2 * c.3 - b.3 * c.2,
    ;
    assert(a.1 * y2 == a.1 * (b.0 * c.2) + a.1 * (b.2 * c.0) + a.1 * (b.3 * c.1) - a.1 * (b.1 * c.3)) by (nonlinear_arith)
        requires
            y2 == b.0 * c.2 + b.2 * c.0 + b.3 * c.1 - b.1 * c.3,
    ;
    assert(a.1 * y3 == a.1 * (b.0 * c.3) + a.1 * (b.3 * c.0) + a.1 * (b.1 * c.2) - a.1 * (b.2 * c.1)) by (nonlinear_arith)
        requires
            y3 == b.0 * c.3 + b.3 * c.0 + b.1 * c.2 - b.2 * c.1,
    ;
    assert(a.2 * y0 == a.2 * (b.0 * c.0) - a.2 * (b.1 * c.1) - a.2 * (b.2 * c.2) - a.2 * (b.3 * c.3)) by (nonlinear_arith)
        requires
            y0 == b.0 * c.0 - b.1 * c.1 - b.2 * c.2 - b.3 * c.3,
    ;
    assert(a.2 * y1 == a.2 * (b.0 * c.1) + a.2 * (b.1 * c.0) + a.2 * (b.2 * c.3) - a.2 * (b.3 * c.2)) by (nonlinear_arith)
        requires
            y1 == b.0 * c.1 + b.1 * c.0 + b.2 * c.3 - b.3 * c.2,
    ;
    assert(a.2 * y2 == a.2 * (b.0 * c.2) + a.2 * (b.2 * c.0) + a.2 * (b.3 * c.1) - a.2 * (b.1 * c.3)) by (nonlinear_arith)
        requires
            y2 == b.0 * c.2 + b.2 * c.0 + b.3 * c.1 - b.1 * c.3,
    ;
    assert(a.2 * y3 == a.2 * (b.0 * c.3) + a.2 * (b.3 * c.0) + a.2 * (b.1 * c.2) - a.2 * (b.2 * c.1)) by (nonlinear_arith)
        requires
            y3 == b.0 * c.3 + b.3 * c.0 + b.1 * c.2 - b.2 * c.1,
    ;
    assert(a.3 * y0 == a.3 * (b.0 * c.0) - a.3 * (b.1 * c.1) - a.3 * (b.2 * c.2) - a.3 * (b.3 * c.3)) by (nonlinear_arith)
        requires
            y0 == b.0 * c.0 - b.1 * c.1 - b.2 * c.2 - b.3 * c.3,
    ;
    assert(a.3 * y1 == a.3 * (b.0 * c.1) + a.3 * (b.1 * c.0) + a.3 * (b.2 * c.3) - a.3 * (b.3 * c.2)) by (nonlinear_arith)
        requires
            y1 == b.0 * c.1 + b.1 * c.0 + b.2 * c.3 - b.3 * c.2,
    ;
    assert(a.3 * y2 == a.3 * (b.0 * c.2) + a.3 * (b.2 * c.0) + a.3 * (b.3 * c.1) - a.3 * (b.1 * c.3)) by (nonlinear_arith)
        requires
            y2 == b.0 * c.2 + b.2 * c.0 + b.3 * c.1 - b.1 * c.3,
    ;
    assert(a.3 * y3 == a.3 * (b.0 * c.3) + a.3 * (b.3 * c.0) + a.3 * (b.1 * c.2) - a.3 * (b.2 * c.1)) by (nonlinear_arith)
        requires
            y3 == b.0 * c.3 + b.3 * c.0 + b.1 * c.2 - b.2 * c.1,
    ;
    assert((a.0 * b.0) * c.0 == a.0 * (b.0 * c.0)) by (nonlinear_arith);
    assert((a.0 * b.0) * c.1 == a.0 * (b.0 * c.1)) by (nonlinear_arith);
    assert((a.0 * b.0) * c.2 == a.0 * (b.0 * c.2)) by (nonlinear_arith);
    assert((a.0 * b.0) * c.3 == a.0 * (b.0 * c.3)) by (nonlinear_arith);
    assert((a.0 * b.1) * c.0 == a.0 * (b.1 * c.0)) by (nonlinear_arith);
    assert((a.0 * b.1) * c.1 == a.0 * (b.1 * c.1)) by (nonlinear_arith);
    assert((a.0 * b.1) * c.2 == a.0 * (b.1 * c.2)) by (nonlinear_arith);
    assert((a.0 * b.1) * c.3 == a.0 * (b.1 * c.3)) by (nonlinear_arith);
    assert((a.0 * b.2) * c.0 == a.0 * (b.2 * c.0)) by (nonlinear_arith);
    assert((a.0 * b.2) * c.1 == a.0 * (b.2 * c.1)) by (nonlinear_arith);
    assert((a.0 * b.2) * c.2 == a.0 * (b.2 * c.2)) by (nonlinear_arith);
    assert((a.0 * b.2) * c.3 == a.0 * (b.2 * c.3)) by (nonlinear_arith);
    assert((a.0 * b.3) * c.0 == a.0 * (b.3 * c.0)) by (nonlinear_arith);
    assert((a.0 * b.3) * c.1 == a.0 * (b.3 * c.1)) by (nonlinear_arith);
    assert((a.0 * b.3) * c.2 == a.0 * (b.3 * c.2)) by (nonlinear_arith);
    assert((a.0 * b.3) * c.3 == a.0 * (b.3 * c.3)) by (nonlinear_arith);
    assert((a.1 * b.0) * c.0 == a.1 * (b.0 * c.0)) by (nonlinear_arith);
    assert((a.1 * b.0) * c.1 == a.1 * (b.0 * c.1)) by (nonlinear_arith);
    assert((a.1 * b.0) * c.2 == a.1 * (b.0 * c.2)) by (nonlinear_arith);
    assert((a.1 * b.0) * c.3 == a.1 * (b.0 * c.3)) by (nonlinear_arith);
    assert((a.1 * b.1) * c.0 == a.1 * (b.1 * c.0)) by (nonlinear_arith);
    assert((a.1 * b.1) * c.1 == a.1 * (b.1 * c.1)) by (nonlinear_arith);
    assert((a.1 * b.1) * c.2 == a.1 * (b.1 * c.2)) by (nonlinear_arith);
    assert((a.1 * b.1) * c.3 == a.1 * (b.1 * c.3)) by (nonlinear_arith);
    assert((a.1 * b.2) * c.0 == a.1 * (b.2 * c.0)) by (nonlinear_arith);
    assert((a.1 * b.2) * c.1 == a.1 * (b.2 * c.1)) by (nonlinear_arith);
    assert((a.1 * b.2) * c.2 == a.1 * (b.2 * c.2)) by (nonlinear_arith);
    assert((a.1 * b.2) * c.3 == a.1 * (b.2 * c.3)) by (nonlinear_arith);
    assert((a.1 * b.3) * c.0 == a.1 * (b.3 * c.0)) by (nonlinear_arith);
    assert((a.1 * b.3) * c.1 == a.1 * (b.3 * c.1)) by (nonlinear_arith);
    assert((a.1 * b.3) * c.2 == a.1 * (b.3 * c.2)) by (nonlinear_arith);
    assert((a.1 * b.3) * c.3 == a.1 * (b.3 * c.3)) by (nonlinear_arith);
    assert((a.2 * b.0) * c.0 == a.2 * (b.0 * c.0)) by (nonlinear_arith);
    assert((a.2 * b.0) * c.1 == a.2 * (b.0 * c.1)) by (nonlinear_arith);
    assert((a.2 * b.0) * c.2 == a.2 * (b.0 * c.2)) by (nonlinear_arith);
    assert((a.2 * b.0) * c.3 == a.2 * (b.0 * c.3)) by (nonlinear_arith);
    assert((a.2 * b.1) * c.0 == a.2 * (b.1 * c.0)) by (nonlinear_arith);
    assert((a.2 * b.1) * c.1 == a.2 * (b.1 * c.1)) by (nonlinear_arith);
    assert((a.2 * b.1) * c.2 == a.2 * (b.1 * c.2)) by (nonlinear_arith);
    assert((a.2 * b.1) * c.3 == a.2 * (b.1 * c.3)) by (nonlinear_arith);
    assert((a.2 * b.2) * c.0 == a.2 * (b.2 * c.0)) by (nonlinear_arith);
    assert((a.2 * b.2) * c.1 == a.2 * (b.2 * c.1)) by (nonlinear_arith);
    assert((a.2 * b.2) * c.2 == a.2 * (b.2 * c.2)) by (nonlinear_arith);
    assert((a.2 * b.2) * c.3 == a.2 * (b.2 * c.3)) by (nonlinear_arith);
    assert((a.2 * b.3) * c.0 == a.2 * (b.3 * c.0)) by (nonlinear_arith);
    assert((a.2 * b.3) * c.1 == a.2 * (b.3 * c.1)) by (nonlinear_arith);
    assert((a.2 * b.3) * c.2 == a.2 * (b.3 * c.2)) by (nonlinear_arith);
    assert((a.2 * b.3) * c.3 == a.2 * (b.3 * c.3)) by (nonlinear_arith);
    assert((a.3 * b.0) * c.0 == a.3 * (b.0 * c.0)) by (nonlinear_arith);
    assert((a.3 * b.0) * c.1 == a.3 * (b.0 * c.1)) by (nonlinear_arith);
    assert((a.3 * b.0) * c.2 == a.3 * (b.0 * c.2)) by (nonlinear_arith);
    assert((a.3 * b.0) * c.3 == a.3 * (b.0 * c.3)) by (nonlinear_arith);
    assert((a.3 * b.1) * c.0 == a.3 * (b.1 * c.0)) by (nonlinear_arith);
    assert((a.3 * b.1) * c.1 == a.3 * (b.1 * c.1)) by (nonlinear_arith);
    assert((a.3 * b.1) * c.2 == a.3 * (b.1 * c.2)) by (nonlinear_arith);
    assert((a.3 * b.1) * c.3 == a.3 * (b.1 * c.3)) by (nonlinear_arith);
    assert((a.3 * b.2) * c.0 == a.3 * (b.2 * c.0)) by (nonlinear_arith);
    assert((a.3 * b.2) * c.1 == a.3 * (b.2 * c.1)) by (nonlinear_arith);
    assert((a.3 * b.2) * c.2 == a.3 * (b.2 * c.2)) by (nonlinear_arith);
    assert((a.3 * b.2) * c.3 == a.3 * (b.2 * c.3)) by (nonlinear_arith);
    assert((a.3 * b.3) * c.0 == a.3 * (b.3 * c.0)) by (nonlinear_arith);
    assert((a.3 * b.3) * c.1 == a.3 * (b.3 * c.1)) by (nonlinear_arith);
    assert((a.3 * b.3) * c.2 == a.3 * (b.3 * c.2)) by (nonlinear_arith);
    assert((a.3 * b.3) * c.3 == a.3 * (b.3 * c.3)) by (nonlinear_arith);
}

/// Every lane is a whole multiple of the scale.
pub open spec fn whole(q: Quaternion) -> bool {
    (q.0.x.raw as int) % (SCALE as int) == 0 && (q.0.y.raw as int) % (SCALE as int) == 0 && (
    q.0.z.raw as int) % (SCALE as int) == 0 && (q.0.w.raw as int) % (SCALE as int) == 0
}

/// The whole-number coordinates of a whole-valued quaternion.
pub open spec fn coords(q: Quaternion) -> (int, int, int, int) {
    (
        (q.0.x.raw as int) / (SCALE as int),
        (q.0.y.raw as int) / (SCALE as int),
        (q.0.z.raw as int) / (SCALE as int),
        (q.0.w.raw as int) / (SCALE as int),
    )
}

/// Every lane magnitude at most `b` whole units.
pub open spec fn coords_bounded(q: Quaternion, b: int) -> bool {
    iabs(q.0.x.raw as int) <= b * (SCALE as int) && iabs(q.0.y.raw as int) <= b * (SCALE as int)
        && iabs(q.0.z.raw as int) <= b * (SCALE as int) && iabs(q.0.w.raw as int) <= b * (
    SCALE as int)
}

/// On whole multiples of the scale whose product stays representable, the
/// fixed-point product is the exact product of the whole coordinates.
proof fn lemma_mul_val_whole(x: int, y: int)
    requires
        x % (SCALE as int) == 0,
        y % (SCALE as int) == 0,
        iabs(x) * iabs(y) <= (crate::fixed::RAW_MAX as int) * (SCALE as int),
    ensures
        mul_val(x, y) == ((x / (SCALE as int)) * (y / (SCALE as int))) * (SCALE as int),
{
    let s = SCALE as int;
    let p = x / s;
    let q = y / s;
    vstd::arithmetic::div_mod::lemma_fundamental_div_mod(x, s);
    vstd::arithmetic::div_mod::lemma_fundamental_div_mod(y, s);
    assert(x == p * s && y == q * s);
    assert((p < 0 <==> x < 0) && (q < 0 <==> y < 0)) by (nonlinear_arith)
        requires
            x == p * s,
            y == q * s,
            s == 65536,
    ;
    assert(iabs(x) == iabs(p) * s && iabs(y) == iabs(q) * s) by (nonlinear_arith)
        requires
            x == p * s,
            y == q * s,
            s == 65536,
    ;
    assert(iabs(x) * iabs(y) == s * (iabs(p) * iabs(q) * s)) by (nonlinear_arith)
        requires
            iabs(x) == iabs(p) * s,
            iabs(y) == iabs(q) * s,
    ;
    vstd::arithmetic::div_mod::lemma_div_multiples_vanish(iabs(p) * iabs(q) * s, s);
    assert(iabs(x) * iabs(y) / s == iabs(p) * iabs(q) * s);
    assert(if (p < 0) == (q < 0) {
        iabs(p) * iabs(q) * s == (p * q) * s
    } else {
        -(iabs(p) * iabs(q) * s) == (p * q) * s
    }) by (nonlinear_arith);
    assert(iabs(p * q) == iabs(p) * iabs(q)) by (nonlinear_arith);
    assert(iabs((p * q) * s) == iabs(p * q) * s) by (nonlinear_arith)
        requires
            s == 65536,
    ;
    assert(iabs((p * q) * s) == iabs(p) * iabs(q) * s);
    assert(s * (iabs(p) * iabs(q) * s) <= (crate::fixed::RAW_MAX as int) * s);
    assert(iabs(p) * iabs(q) * s <= crate::fixed::RAW_MAX as int) by (nonlinear_arith)
        requires
            s * (iabs(p) * iabs(q) * s) <= (crate::fixed::RAW_MAX as int) * s,
            s == 65536,
    ;
}

/// One pairing of whole lanes: the exact product and its coordinate bound.
proof fn lemma_mul_pair(x: int, y: int, ba: int, bb: int)
    requires
        x % (SCALE as int) == 0,
        y % (SCALE as int) == 0,
        iabs(x) <= ba * (SCALE as int),
        iabs(y) <= bb * (SCALE as int),
        0 <= ba,
        0 <= bb,
        4 * ba * bb * (SCALE as int) <= crate::fixed::RAW_MAX as int,
    ensures
        mul_val(x, y) == ((x / (SCALE as int)) * (y / (SCALE as int))) * (SCALE as int),
        iabs((x / (SCALE as int)) * (y / (SCALE as int))) <= ba * bb,
{
    let s = SCALE as int;
    let m = crate::fixed::RAW_MAX as int;
    assert(iabs(x) * iabs(y) <= m * s) by (nonlinear_arith)
        requires
            iabs(x) <= ba * s,
            iabs(y) <= bb * s,
            4 * ba * bb * s <= m,
            s == 65536,
            iabs(x) >= 0,
            iabs(y) >= 0,
            ba >= 0,
            bb >= 0,
    ;
    lemma_mul_val_whole(x, y);
    lemma_coord_sign_mag(x, ba);
    lemma_coord_sign_mag(y, bb);
    assert(iabs((x / s) * (y / s)) <= ba * bb) by (nonlinear_arith)
        requires
            iabs(x / s) <= ba,
            iabs(y / s) <= bb,
    ;
}

/// The fixed-point Hamilton product of whole-valued, bounded quaternions
/// is the exact integer Hamilton product, scaled.
#[verifier::rlimit(60)]
pub proof fn lemma_quat_mul_whole(a: Quaternion, b: Quaternion, ba: int, bb: int)
    requires
        whole(a),
        whole(b),
        0 <= ba,
        0 <= bb,
        coords_bounded(a, ba),
        coords_bounded(b, bb),
        4 * (ba * bb) * (SCALE as int) <= crate::fixed::RAW_MAX as int,
    ensures
        whole(Quaternion::mul_spec(a, b)),
        coords_bounded(Quaternion::mul_spec(a, b), 4 * (ba * bb)),
        coords(Quaternion::mul_spec(a, b)) == hprod(coords(a), coords(b)),
{
    let s = SCALE as int;
    let ar = a.0.x.raw as int;
    let ai = a.0.y.raw as int;
    let aj = a.0.z.raw as int;
    let ak = a.0.w.raw as int;
    let br = b.0.x.raw as int;
    let bi = b.0.y.raw as int;
    let bj = b.0.z.raw as int;
    let bk = b.0.w.raw as int;
    assert(4 * ba * bb * s == 4 * (ba * bb) * s) by (nonlinear_arith);
    lemma_mul_pair(ar, br, ba, bb);
    lemma_mul_pair(ar, bi, ba, bb);
    lemma_mul_pair(ar, bj, ba, bb);
    lemma_mul_pair(ar, bk, ba, bb);
    lemma_mul_pair(ai, br, ba, bb);
    lemma_mul_pair(ai, bi, ba, bb);
    lemma_mul_pair(ai, bj, ba, bb);
    lemma_mul_pair(ai, bk, ba, bb);
    lemma_mul_pair(aj, br, ba, bb);
    lemma_mul_pair(aj, bi, ba, bb);
    lemma_mul_pair(aj, bj, ba, bb);
    lemma_mul_pair(aj, bk, ba, bb);
    lemma_mul_pair(ak, br, ba, bb);
    lemma_mul_pair(ak, bi, ba, bb);
    lemma_mul_pair(ak, bj, ba, bb);
    lemma_mul_pair(ak, bk, ba, bb);
    lemma_whole_lane_sum4((ar / s) * (br / s), (ai / s) * (bi / s), (aj / s) * (bj / s), (ak / s)
        * (bk / s), ba * bb);
    lemma_whole_lane_sum4((ar / s) * (bi / s), (ai / s) * (br / s), (aj / s) * (bk / s), (ak / s)
        * (bj / s), ba * bb);
    lemma_whole_lane_sum4((ar / s) * (bj / s), (aj / s) * (br / s), (ak / s) * (bi / s), (ai / s)
        * (bk / s), ba * bb);
    lemma_whole_lane_sum4((ar / s) * (bk / s), (ak / s) * (br / s), (ai / s) * (bj / s), (aj / s)
        * (bi / s), ba * bb);
}

/// A whole-valued lane has a coordinate of the same sign and scaled-down
/// magnitude.
proof fn lemma_coord_sign_mag(x: int, b: int)
    requires
        x % (SCALE as int) == 0,
        iabs(x) <= b * (SCALE as int),
        0 <= b,
    ensures
        iabs(x / (SCALE as int)) <= b,
{
    let s = SCALE as int;
    let p = x / s;
    vstd::arithmetic::div_mod::lemma_fundamental_div_mod(x, s);
    assert(iabs(p) <= b) by (nonlinear_arith)
        requires
            x == p * s,
            iabs(x) <= b * s,
            s == 65536,
            0 <= b,
    ;
}

/// Sums and differences of four scaled whole terms, each bounded, neither
/// clip nor leave whole multiples of the scale.
proof fn lemma_whole_lane_sum4(t0: int, t1: int, t2: int, t3: int, bound: int)
    requires
        iabs(t0) <= bound,
        iabs(t1) <= bound,
        iabs(t2) <= bound,
        iabs(t3) <= bound,
        0 <= bound,
        4 * bound * (SCALE as int) <= crate::fixed::RAW_MAX as int,
    ensures
        sub_val(sub_val(sub_val(t0 * (SCALE as int), t1 * (SCALE as int)), t2 * (SCALE as int)),
            t3 * (SCALE as int)) == (t0 - t1 - t2 - t3) * (SCALE as int),
        add_val(add_val(t0 * (SCALE as int), t1 * (SCALE as int)), sub_val(t2 * (SCALE as int),
            t3 * (SCALE as int))) == (t0 + t1 + t2 - t3) * (SCALE as int),
        ((t0 - t1 - t2 - t3) * (SCALE as int)) % (SCALE as int) == 0,
        ((t0 + t1 + t2 - t3) * (SCALE as int)) % (SCALE as int) == 0,
        iabs((t0 - t1 - t2 - t3) * (SCALE as int)) <= (4 * bound) * (SCALE as int),
        iabs((t0 + t1 + t2 - t3) * (SCALE as int)) <= (4 * bound) * (SCALE as int),
        ((t0 - t1 - t2 - t3) * (SCALE as int)) / (SCALE as int) == t0 - t1 - t2 - t3,
        ((t0 + t1 + t2 - t3) * (SCALE as int)) / (SCALE as int) == t0 + t1 + t2 - t3,
{
    let s = SCALE as int;
    let m = crate::fixed::RAW_MAX as int;
    assert((t0 - t1) * s == t0 * s - t1 * s && (t0 - t1 - t2) * s == t0 * s - t1 * s - t2 * s && (
    t0 - t1 - t2 - t3) * s == t0 * s - t1 * s - t2 * s - t3 * s && (t0 + t1) * s == t0 * s + t1 * s
        && (t2 - t3) * s == t2 * s - t3 * s && (t0 + t1 + t2 - t3) * s == t0 * s + t1 * s + t2 * s
        - t3 * s) by (nonlinear_arith);
    assert(iabs(t0 * s) <= bound * s && iabs(t1 * s) <= bound * s && iabs(t2 * s) <= bound * s
        && iabs(t3 * s) <= bound * s) by (nonlinear_arith)
        requires
            iabs(t0) <= bound,
            iabs(t1) <= bound,
            iabs(t2) <= bound,
            iabs(t3) <= bound,
            s == 65536,
    ;
    assert(2 * bound * s <= m && 3 * bound * s <= m && 4 * bound * s <= m && (4 * bound) * s == 4
        * bound * s) by (nonlinear_arith)
        requires
            4 * bound * s <= m,
            0 <= bound,
            s == 65536,
    ;
    vstd::arithmetic::div_mod::lemma_div_multiples_vanish(t0 - t1 - t2 - t3, s);
    vstd::arithmetic::div_mod::lemma_div_multiples_vanish(t0 + t1 + t2 - t3, s);
    assert(s * (t0 - t1 - t2 - t3) == (t0 - t1 - t2 - t3) * s) by (nonlinear_arith);
    assert(s * (t0 + t1 + t2 - t3) == (t0 + t1 + t2 - t3) * s) by (nonlinear_arith);
    vstd::arithmetic::div_mod::lemma_mod_multiples_basic(t0 - t1 - t2 - t3, s);
    vstd::arithmetic::div_mod::lemma_mod_multiples_basic(t0 + t1 + t2 - t3, s);
    assert(iabs((t0 - t1 - t2 - t3) * s) <= (4 * bound) * s) by (nonlinear_arith)
        requires
            iabs(t0) <= bound,
            iabs(t1) <= bound,
            iabs(t2) <= bound,
            iabs(t3) <= bound,
            s == 65536,
            0 <= bound,
    ;
    assert(iabs((t0 + t1 + t2 - t3) * s) <= (4 * bound) * s) by (nonlinear_arith)
        requires
            iabs(t0) <= bound,
            iabs(t1) <= bound,
            iabs(t2) <= bound,
            iabs(t3) <= bound,
            s == 65536,
            0 <= bound,
    ;
}

/// Quaternion multiplication is associative on whole-valued quaternions
/// whose coordinates stay within the range where no product saturates.
pub proof fn lemma_quat_mul_assoc(a: Quaternion, b: Quaternion, c: Quaternion)
    requires
        whole(a),
        whole(b),
        whole(c),
        coords_bounded(a, 256),
        coords_bounded(b, 256),
        coords_bounded(c, 256),
    ensures
        Quaternion::mul_spec(Quaternion::mul_spec(a, b), c) == Quaternion::mul_spec(
            a,
            Quaternion::mul_spec(b, c),
        ),
{
    let s = SCALE as int;
    lemma_quat_mul_whole(a, b, 256, 256);
    lemma_quat_mul_whole(Quaternion::mul_spec(a, b), c, 262144int, 256);
    lemma_quat_mul_whole(b, c, 256, 256);
    lemma_quat_mul_whole(a, Quaternion::mul_spec(b, c), 256, 262144int);
    lemma_hprod_assoc(coords(a), coords(b), coords(c));
    let l = Quaternion::mul_spec(Quaternion::mul_spec(a, b), c);
    let r = Quaternion::mul_spec(a, Quaternion::mul_spec(b, c));
    lemma_whole_eq_lane(l.0.x.raw as int, r.0.x.raw as int);
    lemma_whole_eq_lane(l.0.y.raw as int, r.0.y.raw as int);
    lemma_whole_eq_lane(l.0.z.raw as int, r.0.z.raw as int);
    lemma_whole_eq_lane(l.0.w.raw as int, r.0.w.raw as int);
}

/// Whole lanes with equal coordinates are equal.
proof fn lemma_whole_eq_lane(x: int, y: int)
    requires
        x % (SCALE as int) == 0,
        y % (SCALE as int) == 0,
        x / (SCALE as int) == y / (SCALE as int),
    ensures
        x == y,
{
    vstd::arithmetic::div_mod::lemma_fundamental_div_mod(x, SCALE as int);
    vstd::arithmetic::div_mod::lemma_fundamental_div_mod(y, SCALE as int);
}

} // verus!
