//! Saturating fixed-point scalars.
//!
//! A `Fixed` stores a real quantity as `raw / SCALE` with `raw: i64`.  Every
//! operation computes in wide integers and saturates into
//! `[-RAW_MAX, RAW_MAX]`, so all operations are total and their results are
//! stated exactly over the raw representation.

use vstd::prelude::*;

verus! {

/// Number of raw units per whole unit: values have 16 fractional bits.
pub const SCALE: i64 = 65536;

/// Largest raw magnitude a `Fixed` produced by this module can carry.
pub const RAW_MAX: i64 = 0x3fff_ffff_ffff;

/// Tolerance, in raw units, for the squared norm of a unit-length value.
pub const UNIT_EPS: i64 = 64;

/// Magnitude of `x`.
pub open spec fn iabs(x: int) -> int {
    if x < 0 {
        -x
    } else {
        x
    }
}

/// Saturate `x` into the representable range.
pub open spec fn clip(x: int) -> int {
    if x > RAW_MAX {
        RAW_MAX as int
    } else if x < -(RAW_MAX as int) {
        -(RAW_MAX as int)
    } else {
        x
    }
}

pub open spec fn in_range(x: int) -> bool {
    -(RAW_MAX as int) <= x <= RAW_MAX as int
}

/// Raw sum of two fixed-point values.
pub open spec fn add_val(a: int, b: int) -> int {
    clip(a + b)
}

/// Raw difference of two fixed-point values.
pub open spec fn sub_val(a: int, b: int) -> int {
    clip(a - b)
}

/// Raw negation of a fixed-point value.
pub open spec fn neg_val(a: int) -> int {
    clip(-a)
}

/// Product of two raw values, rescaled, rounded toward zero, not yet clipped.
pub open spec fn scaled_prod(a: int, b: int) -> int {
    if (a < 0) == (b < 0) {
        (iabs(a) * iabs(b)) / (SCALE as int)
    } else {
        -((iabs(a) * iabs(b)) / (SCALE as int))
    }
}

/// Raw product of two fixed-point values.
pub open spec fn mul_val(a: int, b: int) -> int {
    clip(scaled_prod(a, b))
}

/// Quotient of two raw values, rescaled, rounded toward zero, not yet clipped.
pub open spec fn scaled_quot(a: int, b: int) -> int {
    if (a < 0) == (b < 0) {
        (iabs(a) * (SCALE as int)) / iabs(b)
    } else {
        -((iabs(a) * (SCALE as int)) / iabs(b))
    }
}

/// Raw quotient of two fixed-point values.
pub open spec fn div_val(a: int, b: int) -> int {
    clip(scaled_quot(a, b))
}

/// Quotient of a raw value by a plain positive integer, rounded toward zero.
pub open spec fn int_quot(a: int, k: int) -> int {
    if a < 0 {
        -(iabs(a) / k)
    } else {
        a / k
    }
}

/// A raw value strictly inside the representable range, that is, one that no
/// saturating operation has pegged at the rim.
pub open spec fn finite_val(a: int) -> bool {
    iabs(a) < RAW_MAX
}

/// A raw value that is neither zero nor pegged at the rim of the range.
pub open spec fn normal_val(a: int) -> bool {
    a != 0 && iabs(a) < RAW_MAX
}

/// `r` is the integer square root of `n`.
pub open spec fn is_isqrt(n: int, r: int) -> bool {
    0 <= r && r * r <= n && n < (r + 1) * (r + 1)
}

/// The integer square root of `n` (meaningful for `n >= 0`).
pub open spec fn isqrt(n: int) -> int {
    choose|r: int| is_isqrt(n, r)
}

/// Raw square root of a non-negative fixed-point value.
pub open spec fn sqrt_val(x: int) -> int {
    isqrt(x * SCALE)
}

#[derive(Clone, Copy, PartialEq, Eq, Structural, Debug, Default)]
pub struct Fixed {
    pub raw: i64,
}

/// Spec-level constructor from a raw value known to fit in `i64`.
pub open spec fn fx(r: int) -> Fixed {
    Fixed { raw: r as i64 }
}

pub proof fn lemma_clip_in_range(x: int)
    ensures
        in_range(clip(x)),
        in_range(x) ==> clip(x) == x,
{
}

pub proof fn lemma_isqrt_exists(n: int)
    requires
        n >= 0,
    ensures
        is_isqrt(n, isqrt(n)),
    decreases n,
{
    if n == 0 {
        assert(is_isqrt(0, 0));
    } else {
        lemma_isqrt_exists(n - 1);
        let r = isqrt(n - 1);
        if (r + 1) * (r + 1) <= n {
            assert(n - 1 < (r + 1) * (r + 1));
            assert(n == (r + 1) * (r + 1));
            assert((r + 1 + 1) * (r + 1 + 1) > n) by (nonlinear_arith)
                requires
                    n == (r + 1) * (r + 1),
                    r >= 0,
            ;
            assert(is_isqrt(n, r + 1));
        } else {
            assert(is_isqrt(n, r));
        }
    }
}

pub proof fn lemma_isqrt_unique(n: int, r: int)
    requires
        is_isqrt(n, r),
    ensures
        isqrt(n) == r,
{
    let s = isqrt(n);
    assert(is_isqrt(n, s));
    assert(s == r) by (nonlinear_arith)
        requires
            is_isqrt(n, s),
            is_isqrt(n, r),
    ;
}

pub proof fn lemma_isqrt_pos(n: int)
    requires
        n >= 1,
    ensures
        isqrt(n) >= 1,
{
    lemma_isqrt_exists(n);
    let r = isqrt(n);
    assert(r >= 1) by (nonlinear_arith)
        requires
            is_isqrt(n, r),
            n >= 1,
    ;
}

/// Magnitude of an `i64`, exact even at the extreme value.
pub(crate) fn mag(x: i64) -> (r: u128)
    ensures
        r == iabs(x as int),
{
    if x < 0 {
        (-(x as i128)) as u128
    } else {
        x as u128
    }
}

/// Saturate a wide signed value into a `Fixed`.
fn clamp_wide(v: i128) -> (r: Fixed)
    ensures
        r == fx(clip(v as int)),
{
    if v > RAW_MAX as i128 {
        Fixed { raw: RAW_MAX }
    } else if v < -(RAW_MAX as i128) {
        Fixed { raw: -RAW_MAX }
    } else {
        Fixed { raw: v as i64 }
    }
}

/// Saturate a magnitude with an explicit sign into a `Fixed`.
pub(crate) fn from_signed_mag(neg: bool, m: u128) -> (r: Fixed)
    ensures
        r == fx(clip(if neg { -(m as int) } else { m as int })),
{
    if m > RAW_MAX as u128 {
        if neg {
            Fixed { raw: -RAW_MAX }
        } else {
            Fixed { raw: RAW_MAX }
        }
    } else {
        if neg {
            Fixed { raw: -(m as i64) }
        } else {
            Fixed { raw: m as i64 }
        }
    }
}

impl Fixed {
    /// The value zero.
    pub fn zero() -> (r: Fixed)
        ensures
            r.raw == 0,
    {
        Fixed { raw: 0 }
    }

    /// The value one.
    pub fn one() -> (r: Fixed)
        ensures
            r.raw == SCALE,
    {
        Fixed { raw: SCALE }
    }

    /// The fixed-point value of a whole number, saturated.
    pub fn from_int(v: i64) -> (r: Fixed)
        ensures
            r == fx(clip(v * SCALE)),
    {
        proof {
            let w = v as i128;
            assert(-0x80000000000000000000i128 <= w * 65536 <= 0x80000000000000000000i128)
                by (nonlinear_arith)
                requires
                    -0x8000000000000000i128 <= w <= 0x8000000000000000i128,
            ;
        }
        clamp_wide((v as i128) * (SCALE as i128))
    }

    /// A value from a raw representation.
    pub fn from_raw(raw: i64) -> (r: Fixed)
        ensures
            r == (Fixed { raw }),
    {
        Fixed { raw }
    }

    /// Saturating sum.
    pub fn add(self, rhs: Fixed) -> (r: Fixed)
        ensures
            r == fx(add_val(self.raw as int, rhs.raw as int)),
    {
        clamp_wide((self.raw as i128) + (rhs.raw as i128))
    }

    /// Saturating difference.
    pub fn sub(self, rhs: Fixed) -> (r: Fixed)
        ensures
            r == fx(sub_val(self.raw as int, rhs.raw as int)),
    {
        clamp_wide((self.raw as i128) - (rhs.raw as i128))
    }

    /// Saturating negation.
    pub fn neg(self) -> (r: Fixed)
        ensures
            r == fx(neg_val(self.raw as int)),
    {
        clamp_wide(-(self.raw as i128))
    }

    /// Magnitude, saturated.
    pub fn abs(self) -> (r: Fixed)
        ensures
            r == fx(clip(iabs(self.raw as int))),
    {
        if self.raw < 0 {
            clamp_wide(-(self.raw as i128))
        } else {
            clamp_wide(self.raw as i128)
        }
    }

    /// Saturating product, rounded toward zero.
    pub fn mul(self, rhs: Fixed) -> (r: Fixed)
        ensures
            r == fx(mul_val(self.raw as int, rhs.raw as int)),
    {
        let ma = mag(self.raw);
        let mb = mag(rhs.raw);
        proof {
            assert(ma * mb <= 0x8000000000000000u128 * 0x8000000000000000u128) by (nonlinear_arith)
                requires
                    ma <= 0x8000000000000000u128,
                    mb <= 0x8000000000000000u128,
            ;
        }
        let p: u128 = ma * mb;
        let q: u128 = p / (SCALE as u128);
        from_signed_mag((self.raw < 0) != (rhs.raw < 0), q)
    }

    /// Saturating quotient, rounded toward zero.
    pub fn div(self, rhs: Fixed) -> (r: Fixed)
        requires
            rhs.raw != 0,
        ensures
            r == fx(div_val(self.raw as int, rhs.raw as int)),
    {
        let ma = mag(self.raw);
        let mb = mag(rhs.raw);
        proof {
            assert(ma * (SCALE as u128) <= 0x8000000000000000u128 * 65536u128) by (nonlinear_arith)
                requires
                    ma <= 0x8000000000000000u128,
            ;
        }
        let p: u128 = ma * (SCALE as u128);
        let q: u128 = p / mb;
        from_signed_mag((self.raw < 0) != (rhs.raw < 0), q)
    }

    /// Quotient by a plain positive integer, rounded toward zero.
    pub fn div_int(self, k: i64) -> (r: Fixed)
        requires
            k > 0,
        ensures
            r == fx(clip(int_quot(self.raw as int, k as int))),
    {
        let ma = mag(self.raw);
        let q: u128 = ma / (k as u128);
        from_signed_mag(self.raw < 0, q)
    }

    /// Square root of a non-negative value, rounded down.
    pub fn sqrt(self) -> (r: Fixed)
        requires
            self.raw >= 0,
        ensures
            r == fx(sqrt_val(self.raw as int)),
            r.raw == sqrt_val(self.raw as int),
            r.raw >= 0,
    {
        proof {
            let m = self.raw as u128;
            assert(m < 0x8000000000000000u128);
            assert(m * 65536 < 0x100000000000000000000u128) by (nonlinear_arith)
                requires
                    m < 0x8000000000000000u128,
            ;
        }
        let n: u128 = (self.raw as u128) * (SCALE as u128);
        let s = isqrt_u128(n);
        proof {
            lemma_isqrt_unique(n as int, s as int);
            assert(s < 0x10000000000u128) by (nonlinear_arith)
                requires
                    is_isqrt(n as int, s as int),
                    n < 0x100000000000000000000u128,
            ;
        }
        Fixed { raw: s as i64 }
    }
}

/// Integer square root by bisection.
pub(crate) fn isqrt_u128(n: u128) -> (r: u128)
    requires
        n < 0x40000000000000000000000000000000u128,
    ensures
        is_isqrt(n as int, r as int),
        r <= 0x8000000000000000u128,
{
    let mut lo: u128 = 0;
    let mut hi: u128 = 0x8000000000000000;
    proof {
        assert((0x8000000000000000 + 1) * (0x8000000000000000 + 1)
            > 0x40000000000000000000000000000000int) by (nonlinear_arith);
    }
    while lo < hi
        invariant
            lo <= hi,
            hi <= 0x8000000000000000u128,
            (lo as int) * (lo as int) <= n as int,
            (n as int) < ((hi as int) + 1) * ((hi as int) + 1),
        decreases hi - lo,
    {
        let gap: u128 = hi - lo;
        let half: u128 = (gap + 1) / 2;
        let mid: u128 = lo + half;
        assert(lo < mid <= hi) by {
            assert(half >= 1 && half <= gap) by (nonlinear_arith)
                requires
                    gap >= 1,
                    half == (gap + 1) / 2,
            ;
        };
        proof {
            assert(mid * mid <= 0x8000000000000000u128 * 0x8000000000000000u128)
                by (nonlinear_arith)
                requires
                    mid <= 0x8000000000000000u128,
            ;
        }
        let sq: u128 = mid * mid;
        if sq <= n {
            lo = mid;
        } else {
            hi = mid - 1;
            proof {
                assert((n as int) < (((mid - 1) as int) + 1) * (((mid - 1) as int) + 1));
            }
        }
    }
    lo
}

} // verus!
