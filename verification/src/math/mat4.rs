//! Row-major 4x4 matrices over fixed-point scalars.

use vstd::prelude::*;
use crate::fixed::{fx, Fixed};
use crate::math::vec4::Vec4;

verus! {

/// A row-major 4x4 matrix: four row vectors.
#[derive(Clone, Copy, PartialEq, Eq, Structural, Debug, Default)]
pub struct Mat4 {
    pub x: Vec4,
    pub y: Vec4,
    pub z: Vec4,
    pub w: Vec4,
}

impl Mat4 {
    /// Rows and columns exchanged.
    pub open spec fn transpose_spec(m: Mat4) -> Mat4 {
        Mat4 {
            x: Vec4 { x: m.x.x, y: m.y.x, z: m.z.x, w: m.w.x },
            y: Vec4 { x: m.x.y, y: m.y.y, z: m.z.y, w: m.w.y },
            z: Vec4 { x: m.x.z, y: m.y.z, z: m.z.z, w: m.w.z },
            w: Vec4 { x: m.x.w, y: m.y.w, z: m.z.w, w: m.w.w },
        }
    }

    /// Row-by-vector products: one dot product per row.
    pub open spec fn mul_vec_spec(m: Mat4, v: Vec4) -> Vec4 {
        Vec4 {
            x: fx(Vec4::dot_val(m.x, v)),
            y: fx(Vec4::dot_val(m.y, v)),
            z: fx(Vec4::dot_val(m.z, v)),
            w: fx(Vec4::dot_val(m.w, v)),
        }
    }

    /// The matrix product, computed as row dot products against the
    /// transposed right factor.
    pub open spec fn mul_spec(a: Mat4, b: Mat4) -> Mat4 {
        let bt = Mat4::transpose_spec(b);
        Mat4::transpose_spec(
            Mat4 {
                x: Mat4::mul_vec_spec(a, bt.x),
                y: Mat4::mul_vec_spec(a, bt.y),
                z: Mat4::mul_vec_spec(a, bt.z),
                w: Mat4::mul_vec_spec(a, bt.w),
            },
        )
    }

    pub open spec fn add_spec(a: Mat4, b: Mat4) -> Mat4 {
        Mat4 {
            x: a.x.add_spec(b.x),
            y: a.y.add_spec(b.y),
            z: a.z.add_spec(b.z),
            w: a.w.add_spec(b.w),
        }
    }

    pub open spec fn sub_spec(a: Mat4, b: Mat4) -> Mat4 {
        Mat4 {
            x: a.x.sub_spec(b.x),
            y: a.y.sub_spec(b.y),
            z: a.z.sub_spec(b.z),
            w: a.w.sub_spec(b.w),
        }
    }

    pub open spec fn scale_spec(m: Mat4, k: int) -> Mat4 {
        Mat4 {
            x: m.x.scale_spec(k),
            y: m.y.scale_spec(k),
            z: m.z.scale_spec(k),
            w: m.w.scale_spec(k),
        }
    }
}

impl Mat4 {
    pub fn from_rows(x: Vec4, y: Vec4, z: Vec4, w: Vec4) -> (r: Mat4)
        ensures
            r == (Mat4 { x, y, z, w }),
    {
        Mat4 { x, y, z, w }
    }

    /// The matrix with `v` on the diagonal and zeroes elsewhere.
    pub fn from_diagonal(v: Vec4) -> (r: Mat4)
        ensures
            r == (Mat4 {
                x: Vec4 { x: v.x, y: fx(0), z: fx(0), w: fx(0) },
                y: Vec4 { x: fx(0), y: v.y, z: fx(0), w: fx(0) },
                z: Vec4 { x: fx(0), y: fx(0), z: v.z, w: fx(0) },
                w: Vec4 { x: fx(0), y: fx(0), z: fx(0), w: v.w },
            }),
    {
        let o = Fixed { raw: 0 };
        Mat4 {
            x: Vec4 { x: v.x, y: o, z: o, w: o },
            y: Vec4 { x: o, y: v.y, z: o, w: o },
            z: Vec4 { x: o, y: o, z: v.z, w: o },
            w: Vec4 { x: o, y: o, z: o, w: v.w },
        }
    }

    /// The transposed matrix.
    pub fn transpose(self) -> (r: Mat4)
        ensures
            r == Mat4::transpose_spec(self),
    {
        let mut m = self;
        m.transpose_assign();
        m
    }

    /// Transpose in place.
    pub fn transpose_assign(&mut self)
        ensures
            *final(self) == Mat4::transpose_spec(*old(self)),
    {
        let t = Mat4 {
            x: Vec4 { x: self.x.x, y: self.y.x, z: self.z.x, w: self.w.x },
            y: Vec4 { x: self.x.y, y: self.y.y, z: self.z.y, w: self.w.y },
            z: Vec4 { x: self.x.z, y: self.y.z, z: self.z.z, w: self.w.z },
            w: Vec4 { x: self.x.w, y: self.y.w, z: self.z.w, w: self.w.w },
        };
        *self = t;
    }

    /// Matrix-by-vector product.
    pub fn mul_vec(self, rhs: Vec4) -> (r: Vec4)
        ensures
            r == Mat4::mul_vec_spec(self, rhs),
            r.wf(),
    {
        Vec4 {
            x: self.x.dot(rhs),
            y: self.y.dot(rhs),
            z: self.z.dot(rhs),
            w: self.w.dot(rhs),
        }
    }

    /// Matrix product, via the transpose of the right factor.
    pub fn mul_mat(self, rhs: Mat4) -> (r: Mat4)
        ensures
            r == Mat4::mul_spec(self, rhs),
    {
        let mut t = rhs;
        t.transpose_assign();
        let mut result = Mat4 {
            x: self.mul_vec(t.x),
            y: self.mul_vec(t.y),
            z: self.mul_vec(t.z),
            w: self.mul_vec(t.w),
        };
        result.transpose_assign();
        result
    }

    pub fn add(self, rhs: Mat4) -> (r: Mat4)
        ensures
            r == Mat4::add_spec(self, rhs),
    {
        Mat4 {
            x: self.x.add(rhs.x),
            y: self.y.add(rhs.y),
            z: self.z.add(rhs.z),
            w: self.w.add(rhs.w),
        }
    }

    pub fn sub(self, rhs: Mat4) -> (r: Mat4)
        ensures
            r == Mat4::sub_spec(self, rhs),
    {
        Mat4 {
            x: self.x.sub(rhs.x),
            y: self.y.sub(rhs.y),
            z: self.z.sub(rhs.z),
            w: self.w.sub(rhs.w),
        }
    }

    /// Product with a scalar, entry by entry.
    pub fn scale(self, k: Fixed) -> (r: Mat4)
        ensures
            r == Mat4::scale_spec(self, k.raw as int),
    {
        Mat4 {
            x: self.x.scale(k),
            y: self.y.scale(k),
            z: self.z.scale(k),
            w: self.w.scale(k),
        }
    }
}

/// The transpose is its own inverse: transposing twice restores every
/// entry of every matrix.
pub proof fn lemma_transpose_self_inverse(m: Mat4)
    ensures
        Mat4::transpose_spec(Mat4::transpose_spec(m)) == m,
{
}

} // verus!
