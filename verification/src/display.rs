//! The camera projection and the framebuffer the renderer fills.

use vstd::prelude::*;
use vstd::pervasive::VecAdditionalExecFns;
use crate::fixed::{add_val, clip, div_val, fx, int_quot, mul_val, neg_val, Fixed, SCALE};
use crate::trig::{cos_fx, cos_val, lemma_sin_val_in_range, sin_fx, sin_val};
use crate::math::mat4::Mat4;
use crate::math::vec4::Vec4;

verus! {

/// A perspective camera: field of view in radians and the two clip planes.
#[derive(Clone, Copy, PartialEq, Eq, Structural, Debug)]
pub struct Camera {
    pub fov: Fixed,
    pub z_near: Fixed,
    pub z_far: Fixed,
}

/// The camera can build its projection: the planes are distinct and the
/// half-angle sine, which the cotangent divides by, is not zero.
pub open spec fn camera_ok(camera: Camera, aspect: Fixed) -> bool {
    camera.z_near.raw < camera.z_far.raw && aspect.raw != 0 && sin_val(
        clip(int_quot(camera.fov.raw as int, 2)),
    ) != 0
}

impl Camera {
    /// The perspective projection matrix built from the cotangent of the
    /// half field of view and the two clip planes.
    pub open spec fn transform_spec(self, aspect: int) -> Mat4 {
        let half = clip(int_quot(self.fov.raw as int, 2));
        let yy = div_val(cos_val(half), sin_val(half));
        let zm = crate::fixed::sub_val(self.z_far.raw as int, self.z_near.raw as int);
        let zp = add_val(self.z_far.raw as int, self.z_near.raw as int);
        let m23 = div_val(
            neg_val(
                mul_val(mul_val(2 * (SCALE as int), self.z_far.raw as int), self.z_near.raw as int),
            ),
            zm,
        );
        Mat4 {
            x: Vec4 { x: fx(div_val(yy, aspect)), y: fx(0), z: fx(0), w: fx(0) },
            y: Vec4 { x: fx(0), y: fx(yy), z: fx(0), w: fx(0) },
            z: Vec4 { x: fx(0), y: fx(0), z: fx(neg_val(div_val(zp, zm))), w: fx(m23) },
            w: Vec4 { x: fx(0), y: fx(0), z: fx(-(SCALE as int)), w: fx(0) },
        }
    }

    /// A camera over a valid pair of clip planes.
    pub fn new(fov: Fixed, z_near: Fixed, z_far: Fixed) -> (r: Camera)
        requires
            z_near.raw < z_far.raw,
        ensures
            r == (Camera { fov, z_near, z_far }),
    {
        Camera { fov, z_near, z_far }
    }

    /// The projection matrix; the caller owes the validity of the camera.
    pub fn transform(self, aspect_ratio: Fixed) -> (r: Mat4)
        requires
            camera_ok(self, aspect_ratio),
        ensures
            r == self.transform_spec(aspect_ratio.raw as int),
    {
        let half = self.fov.div_int(2);
        let s = sin_fx(half);
        let c = cos_fx(half);
        proof {
            lemma_sin_val_in_range(half.raw as int);
        }
        let yy = c.div(s);
        let zm = self.z_far.sub(self.z_near);
        let zp = self.z_far.add(self.z_near);
        let m23 = Fixed::from_int(2).mul(self.z_far).mul(self.z_near).neg().div(zm);
        let o = Fixed { raw: 0 };
        Mat4 {
            x: Vec4 { x: yy.div(aspect_ratio), y: o, z: o, w: o },
            y: Vec4 { x: o, y: yy, z: o, w: o },
            z: Vec4 { x: o, y: o, z: zp.div(zm).neg(), w: m23 },
            w: Vec4 { x: o, y: o, z: Fixed { raw: -SCALE }, w: o },
        }
    }

    /// The projection matrix, or nothing for a camera the projection is
    /// not defined for.
    pub fn projection(self, aspect_ratio: Fixed) -> (r: Option<Mat4>)
        ensures
            r == if camera_ok(self, aspect_ratio) {
                Some(self.transform_spec(aspect_ratio.raw as int))
            } else {
                None::<Mat4>
            },
    {
        if self.z_near.raw >= self.z_far.raw {
            return None;
        }
        if aspect_ratio.raw == 0 {
            return None;
        }
        let s = sin_fx(self.fov.div_int(2));
        proof {
            lemma_sin_val_in_range(clip(int_quot(self.fov.raw as int, 2)));
        }
        if s.raw == 0 {
            return None;
        }
        Some(self.transform(aspect_ratio))
    }
}

impl Default for Camera {
    /// Sixty degrees of view between clip planes a hundredth and a
    /// thousand units out.
    fn default() -> (r: Camera)
        ensures
            r.fov.raw == 68629,
            r.z_near.raw == 655,
            r.z_far.raw == 65536000,
    {
        Camera {
            fov: Fixed { raw: 68629 },
            z_near: Fixed { raw: 655 },
            z_far: Fixed { raw: 65536000 },
        }
    }
}

/// One output pixel: an 8-bit RGB triple.
#[derive(Clone, Copy, PartialEq, Eq, Structural, Debug, Default)]
pub struct Rgb {
    pub r: u8,
    pub g: u8,
    pub b: u8,
}

/// The background value every cell starts from and is cleared to.
pub open spec fn background() -> Rgb {
    Rgb { r: 0, g: 0, b: 0 }
}

/// One channel quantized: clamped to the unit range, scaled to 255 and
/// truncated.
pub open spec fn quantize_val(c: int) -> int {
    if c <= 0 {
        0
    } else if c >= SCALE {
        255
    } else {
        (c * 255) / (SCALE as int)
    }
}

/// A color quantized channel by channel.
pub open spec fn quantize_spec(v: crate::math::vec3::Vec3) -> Rgb {
    Rgb {
        r: quantize_val(v.x.raw as int) as u8,
        g: quantize_val(v.y.raw as int) as u8,
        b: quantize_val(v.z.raw as int) as u8,
    }
}

/// Quantize one channel.
pub fn quantize_channel(c: Fixed) -> (r: u8)
    ensures
        r == quantize_val(c.raw as int),
{
    if c.raw <= 0 {
        0
    } else if c.raw >= SCALE {
        255
    } else {
        let t: u64 = (c.raw as u64) * 255 / 65536;
        proof {
            vstd::arithmetic::div_mod::lemma_div_is_ordered(
                (c.raw as int) * 255,
                16711425int,
                65536,
            );
        }
        t as u8
    }
}

/// Quantize a color to an output pixel.
pub fn quantize(v: crate::math::vec3::Vec3) -> (r: Rgb)
    ensures
        r == quantize_spec(v),
{
    Rgb { r: quantize_channel(v.x), g: quantize_channel(v.y), b: quantize_channel(v.z) }
}

/// The cell at `(rr, cc)` holds a result the function may return for
/// those coordinates, an absent result meaning the old cell kept.
pub open spec fn cell_matches<F: Fn(usize, usize) -> Option<Rgb>>(
    f: F,
    pix: Seq<Rgb>,
    oldpix: Seq<Rgb>,
    width: int,
    rr: usize,
    cc: usize,
) -> bool {
    exists|o: Option<Rgb>|
        call_ensures(f, (rr, cc), o) && pix[rr * width + cc] == (match o {
            Some(p) => p,
            None => oldpix[rr * width + cc],
        })
}

/// A cell of the region bounded by the given half-open spans, clamped to
/// the buffer bounds.
pub open spec fn region_contains(
    width: int,
    height: int,
    x0: int,
    x1: int,
    y0: int,
    y1: int,
    r: int,
    c: int,
) -> bool {
    y0 <= r < (if y1 < height {
        y1
    } else {
        height
    }) && x0 <= c < (if x1 < width {
        x1
    } else {
        width
    })
}

/// A 2D pixel store of `width * height` cells in row-major order, with the
/// camera that renders into it.
pub struct Framebuffer {
    pub pixels: Vec<Rgb>,
    pub width: usize,
    pub height: usize,
    pub camera: Camera,
    pub aspect_ratio: Fixed,
}

impl Framebuffer {
    /// The store holds exactly one cell per coordinate pair, and the
    /// dimensions are small enough to index with the machine word.
    pub open spec fn wf(self) -> bool {
        self.pixels@.len() == self.width * self.height && self.width <= 0xffffffff && self.height
            <= 0xffffffff
    }

    /// What the constructor computes for the aspect ratio.
    pub open spec fn aspect_val(width: int, height: int) -> int {
        div_val(clip(width * SCALE), clip(height * SCALE))
    }

    /// A buffer of the given size, every cell at the background value.
    pub fn new(width: usize, height: usize, camera: Camera) -> (r: Framebuffer)
        requires
            1 <= width <= 0xffffffff,
            1 <= height <= 0xffffffff,
            width * height <= usize::MAX,
        ensures
            r.wf(),
            r.width == width,
            r.height == height,
            r.camera == camera,
            r.aspect_ratio == fx(Framebuffer::aspect_val(width as int, height as int)),
            forall|i: int| 0 <= i < r.pixels@.len() ==> r.pixels@[i] == background(),
    {
        let n = width * height;
        let mut pixels: Vec<Rgb> = Vec::new();
        let mut i: usize = 0;
        while i < n
            invariant
                i <= n,
                pixels@.len() == i,
                forall|j: int| 0 <= j < i ==> pixels@[j] == background(),
            decreases n - i,
        {
            pixels.push(Rgb { r: 0, g: 0, b: 0 });
            i += 1;
        }
        let aspect = Fixed::from_int(width as i64).div(Fixed::from_int(height as i64));
        Framebuffer { pixels, width, height, camera, aspect_ratio: aspect }
    }

    pub fn width(&self) -> (r: usize)
        ensures
            r == self.width,
    {
        self.width
    }

    pub fn height(&self) -> (r: usize)
        ensures
            r == self.height,
    {
        self.height
    }

    /// Read one cell.
    pub fn pixel_at(&self, x: usize, y: usize) -> (r: Rgb)
        requires
            self.wf(),
            x < self.width,
            y < self.height,
        ensures
            r == self.pixels@[y * self.width + x],
    {
        let _n = self.pixels.len();
        proof {
            lemma_index_bound(y as int, x as int, self.width as int, self.height as int);
        }
        self.pixels[y * self.width + x]
    }

    /// Write one cell unconditionally.
    pub fn set_pixel(&mut self, x: usize, y: usize, value: Rgb)
        requires
            old(self).wf(),
            x < old(self).width,
            y < old(self).height,
        ensures
            final(self).wf(),
            final(self).width == old(self).width,
            final(self).height == old(self).height,
            final(self).camera == old(self).camera,
            final(self).aspect_ratio == old(self).aspect_ratio,
            final(self).pixels@ == old(self).pixels@.update(
                y * old(self).width + x,
                value,
            ),
    {
        let _n = self.pixels.len();
        proof {
            lemma_index_bound(y as int, x as int, self.width as int, self.height as int);
        }
        self.pixels.set(y * self.width + x, value);
    }

    /// Reset every cell to the background value, whatever it held.
    pub fn clear(&mut self)
        requires
            old(self).wf(),
        ensures
            final(self).wf(),
            final(self).width == old(self).width,
            final(self).height == old(self).height,
            final(self).camera == old(self).camera,
            final(self).aspect_ratio == old(self).aspect_ratio,
            final(self).pixels@.len() == old(self).pixels@.len(),
            forall|i: int|
                0 <= i < final(self).pixels@.len() ==> final(self).pixels@[i] == background(),
    {
        let n = self.pixels.len();
        let mut i: usize = 0;
        while i < n
            invariant
                i <= n,
                self.pixels@.len() == n,
                self.width == old(self).width,
                self.height == old(self).height,
                self.camera == old(self).camera,
                self.aspect_ratio == old(self).aspect_ratio,
                old(self).wf(),
                n == old(self).pixels@.len(),
                forall|j: int| 0 <= j < i ==> self.pixels@[j] == background(),
            decreases n - i,
        {
            self.pixels.set(i, Rgb { r: 0, g: 0, b: 0 });
            i += 1;
        }
    }

    /// Recompute the cells of a clamped region: the function is invoked on
    /// every cell of the region, a present result overwrites the cell and
    /// an absent one leaves it untouched.
    pub fn update<F: Fn(usize, usize) -> Option<Rgb>>(
        &mut self,
        x0: usize,
        x1: usize,
        y0: usize,
        y1: usize,
        f: &F,
    )
        requires
            old(self).wf(),
            forall|r: usize, c: usize|
                region_contains(
                    old(self).width as int,
                    old(self).height as int,
                    x0 as int,
                    x1 as int,
                    y0 as int,
                    y1 as int,
                    r as int,
                    c as int,
                ) ==> call_requires(*f, (r, c)),
        ensures
            final(self).wf(),
            final(self).width == old(self).width,
            final(self).height == old(self).height,
            final(self).camera == old(self).camera,
            final(self).aspect_ratio == old(self).aspect_ratio,
            final(self).pixels@.len() == old(self).pixels@.len(),
            forall|i: int|
                0 <= i < old(self).pixels@.len() && !region_contains(
                    old(self).width as int,
                    old(self).height as int,
                    x0 as int,
                    x1 as int,
                    y0 as int,
                    y1 as int,
                    i / (old(self).width as int),
                    i % (old(self).width as int),
                ) ==> final(self).pixels@[i] == old(self).pixels@[i],
            forall|r: usize, c: usize|
                region_contains(
                    old(self).width as int,
                    old(self).height as int,
                    x0 as int,
                    x1 as int,
                    y0 as int,
                    y1 as int,
                    r as int,
                    c as int,
                ) ==> cell_matches(
                    *f,
                    final(self).pixels@,
                    old(self).pixels@,
                    old(self).width as int,
                    r,
                    c,
                ),
    {
        let width = self.width;
        let height = self.height;
        let ry1: usize = if y1 < height {
            y1
        } else {
            height
        };
        let cx1: usize = if x1 < width {
            x1
        } else {
            width
        };
        let mut r: usize = y0;
        while r < ry1
            invariant
                y0 <= r,
                r <= ry1 || r == y0,
                ry1 <= height,
                cx1 <= width,
                ry1 == (if y1 < height { y1 as int } else { height as int }),
                cx1 == (if x1 < width { x1 as int } else { width as int }),
                width == self.width,
                height == self.height,
                self.width == old(self).width,
                self.height == old(self).height,
                self.camera == old(self).camera,
                self.aspect_ratio == old(self).aspect_ratio,
                self.pixels@.len() == old(self).pixels@.len(),
                old(self).wf(),
                forall|rr: usize, cc: usize|
                    region_contains(
                        old(self).width as int,
                        old(self).height as int,
                        x0 as int,
                        x1 as int,
                        y0 as int,
                        y1 as int,
                        rr as int,
                        cc as int,
                    ) ==> call_requires(*f, (rr, cc)),
                forall|i: int|
                    0 <= i < old(self).pixels@.len() && !(y0 <= i / (old(self).width as int) < r
                        && x0 <= i % (old(self).width as int) < cx1) ==> self.pixels@[i] == old(
                        self,
                    ).pixels@[i],
                forall|rr: usize, cc: usize|
                    y0 <= rr < r && x0 <= cc < cx1 ==> cell_matches(
                        *f,
                        self.pixels@,
                        old(self).pixels@,
                        old(self).width as int,
                        rr,
                        cc,
                    ),
            decreases ry1 - r,
        {
            let mut c: usize = x0;
            while c < cx1
                invariant
                    x0 <= c,
                    c <= cx1 || c == x0,
                    r < ry1,
                    y0 <= r,
                    ry1 <= height,
                    cx1 <= width,
                    ry1 == (if y1 < height { y1 as int } else { height as int }),
                    cx1 == (if x1 < width { x1 as int } else { width as int }),
                    width == self.width,
                    height == self.height,
                    self.width == old(self).width,
                    self.height == old(self).height,
                    self.camera == old(self).camera,
                    self.aspect_ratio == old(self).aspect_ratio,
                    self.pixels@.len() == old(self).pixels@.len(),
                    old(self).wf(),
                    forall|rr: usize, cc: usize|
                        region_contains(
                            old(self).width as int,
                            old(self).height as int,
                            x0 as int,
                            x1 as int,
                            y0 as int,
                            y1 as int,
                            rr as int,
                            cc as int,
                        ) ==> call_requires(*f, (rr, cc)),
                    forall|i: int|
                        0 <= i < old(self).pixels@.len() && !(y0 <= i / (old(self).width as int)
                            < r && x0 <= i % (old(self).width as int) < cx1) && !(i / (old(
                            self,
                        ).width as int) == r && x0 <= i % (old(self).width as int) < c)
                            ==> self.pixels@[i] == old(self).pixels@[i],
                    forall|rr: usize, cc: usize|
                        y0 <= rr < r && x0 <= cc < cx1 ==> cell_matches(
                            *f,
                            self.pixels@,
                            old(self).pixels@,
                            old(self).width as int,
                            rr,
                            cc,
                        ),
                    forall|cc: usize|
                        x0 <= cc < c ==> cell_matches(
                            *f,
                            self.pixels@,
                            old(self).pixels@,
                            old(self).width as int,
                            r,
                            cc,
                        ),
                decreases cx1 - c,
            {
                let _n = self.pixels.len();
                proof {
                    lemma_index_bound(r as int, c as int, width as int, height as int);
                    assert(region_contains(
                        old(self).width as int,
                        old(self).height as int,
                        x0 as int,
                        x1 as int,
                        y0 as int,
                        y1 as int,
                        r as int,
                        c as int,
                    ));
                    assert(call_requires(*f, (r, c)));
                }
                let ghost prev = self.pixels@;
                let o = f(r, c);
                match o {
                    Some(p) => {
                        let idx = r * width + c;
                        self.pixels.set(idx, p);
                    },
                    None => {},
                }
                proof {
                    let w = width as int;
                    lemma_row_col_unique(r as int, c as int, w, height as int);
                    assert(self.pixels@[r * w + c] == (match o {
                        Some(p) => p,
                        None => old(self).pixels@[r * w + c],
                    }));
                    assert forall|rr: usize, cc: usize|
                        y0 <= rr < r && x0 <= cc < cx1 implies cell_matches(
                        *f,
                        self.pixels@,
                        old(self).pixels@,
                        w,
                        rr,
                        cc,
                    ) by {
                        lemma_row_col_unique(rr as int, cc as int, w, height as int);
                        lemma_index_bound(rr as int, cc as int, w, height as int);
                        assert(rr * w + cc != r * w + c);
                        assert(cell_matches(*f, prev, old(self).pixels@, w, rr, cc));
                        let o2 = choose|o2: Option<Rgb>|
                            call_ensures(*f, (rr, cc), o2) && prev[rr * w + cc] == (match o2 {
                                Some(p) => p,
                                None => old(self).pixels@[rr * w + cc],
                            });
                        assert(call_ensures(*f, (rr, cc), o2) && self.pixels@[rr * w + cc] == (
                        match o2 {
                            Some(p) => p,
                            None => old(self).pixels@[rr * w + cc],
                        }));
                    }
                    assert forall|cc: usize| x0 <= cc < c + 1 implies cell_matches(
                        *f,
                        self.pixels@,
                        old(self).pixels@,
                        w,
                        r,
                        cc,
                    ) by {
                        lemma_row_col_unique(r as int, cc as int, w, height as int);
                        lemma_index_bound(r as int, cc as int, w, height as int);
                        if cc < c {
                            assert(r * w + cc != r * w + c);
                            assert(cell_matches(*f, prev, old(self).pixels@, w, r, cc));
                            let o2 = choose|o2: Option<Rgb>|
                                call_ensures(*f, (r, cc), o2) && prev[r * w + cc] == (match o2 {
                                    Some(p) => p,
                                    None => old(self).pixels@[r * w + cc],
                                });
                            assert(call_ensures(*f, (r, cc), o2) && self.pixels@[r * w + cc] == (
                            match o2 {
                                Some(p) => p,
                                None => old(self).pixels@[r * w + cc],
                            }));
                        } else {
                            assert(call_ensures(*f, (r, c), o) && self.pixels@[r * w + c] == (
                            match o {
                                Some(p) => p,
                                None => old(self).pixels@[r * w + c],
                            }));
                        }
                    }
                }
                c += 1;
            }
            r += 1;
        }
    }
}

/// A row and column index into a row-major store stays below the cell
/// count.
pub proof fn lemma_index_bound(r: int, c: int, w: int, h: int)
    requires
        0 <= r < h,
        0 <= c < w,
    ensures
        0 <= r * w + c < h * w,
        w * h == h * w,
{
    assert(0 <= r * w + c < h * w && w * h == h * w) by (nonlinear_arith)
        requires
            0 <= r < h,
            0 <= c < w,
    ;
}

/// Decomposing the flat index of a cell gives back its row and column.
proof fn lemma_row_col_unique(r: int, c: int, w: int, h: int)
    requires
        0 <= r < h,
        0 <= c < w,
    ensures
        (r * w + c) / w == r,
        (r * w + c) % w == c,
{
    vstd::arithmetic::div_mod::lemma_fundamental_div_mod_converse(r * w + c, w, r, c);
}

} // verus!
