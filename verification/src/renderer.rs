//! The renderer: one ray per pixel, nearest-hit search, light
//! accumulation, material modulation and bounded reflection.

use vstd::prelude::*;
use crate::display::{
    background, camera_ok, cell_matches, quantize, quantize_spec, region_contains, Camera,
    Framebuffer, Rgb,
};
use crate::element::{Element, ReflectInfo};
use crate::fixed::{clip, fx, Fixed, SCALE};
use crate::light::{Light, SceneLight};
use crate::math::mat4::Mat4;
use crate::math::vec3::{near_unit, v3, UnitVec3, Vec3};
use crate::math::vec4::Vec4;
use crate::object::{Object, Ray};

verus! {

/// The renderer owns the framebuffer it fills and the scene it draws:
/// elements in insertion order and the lights that shine on them.
pub struct Renderer<T> {
    pub frame: Framebuffer,
    pub elements: Vec<Element<T>>,
    pub lights: Vec<SceneLight>,
}

/// The nearest hit of the ray over the elements in insertion order: a
/// strictly smaller time replaces the running best, so the first of two
/// equal hits is kept.
pub open spec fn nearest_hit_spec<T: Object>(elements: Seq<Element<T>>, ray: Ray) -> Option<
    (int, Fixed),
>
    decreases elements.len(),
{
    if elements.len() <= 0 {
        None
    } else {
        let prev = nearest_hit_spec(elements.drop_last(), ray);
        let i = elements.len() - 1;
        match elements[i as int].object.hit_time(ray) {
            None => prev,
            Some(t) => match prev {
                None => Some((i as int, t)),
                Some(p) => if t.raw < p.1.raw {
                    Some((i as int, t))
                } else {
                    prev
                },
            },
        }
    }
}

/// The base color plus every light's contribution at the point, summed in
/// insertion order; absent contributions add nothing.
pub open spec fn light_sum_spec(lights: Seq<SceneLight>, point: Vec3, base: Vec3) -> Vec3
    decreases lights.len(),
{
    if lights.len() <= 0 {
        base
    } else {
        let prev = light_sum_spec(lights.drop_last(), point, base);
        match lights.last().hits_spec(point) {
            None => prev,
            Some(c) => prev.add_spec(c),
        }
    }
}

/// One shading pass: while depth remains and something is hit, accumulate
/// the incident light, modulate by the material color, and follow the
/// reflected ray; a miss, a degenerate normal or a degenerate reflection
/// ends the pass with the color gathered so far.
pub open spec fn trace_spec<T: Object>(
    elements: Seq<Element<T>>,
    lights: Seq<SceneLight>,
    info: ReflectInfo,
    depth: nat,
) -> Vec3
    decreases depth,
{
    if depth == 0 {
        info.color
    } else {
        match nearest_hit_spec(elements, info.ray) {
            None => info.color,
            Some(hit) => {
                let pos = info.ray.position_at_spec(hit.1);
                let color = light_sum_spec(lights, pos, info.color).wide_mul_spec(
                    elements[hit.0].material.color,
                );
                if depth > 1 {
                    match elements[hit.0].object.normal_spec(pos) {
                        None => color,
                        Some(n) => match info.ray.reflect_spec(n) {
                            None => color,
                            Some(nd) => trace_spec(
                                elements,
                                lights,
                                ReflectInfo {
                                    color,
                                    ray: Ray { origin: pos, direction: nd },
                                },
                                (depth - 1) as nat,
                            ),
                        },
                    }
                } else {
                    color
                }
            },
        }
    }
}

/// The ray cast for a pixel: its device coordinates pushed through the
/// projection, taken as a direction from the origin and normalized; a
/// direction that fails the unit check yields no ray.
pub open spec fn pixel_ray_spec(tf: Mat4, j: int, i: int, width: int, height: int) -> Option<Ray> {
    let size = Vec4 {
        x: fx(clip(width * SCALE)),
        y: fx(clip(height * SCALE)),
        z: fx(SCALE as int),
        w: fx(SCALE as int),
    };
    let p = Vec4 {
        x: fx(clip(j * SCALE)),
        y: fx(clip(i * SCALE)),
        z: fx(SCALE as int),
        w: fx(SCALE as int),
    };
    let ndc = p.wide_div_spec(size).scale_spec(clip(2 * SCALE)).sub_spec(
        Vec4 { x: fx(SCALE as int), y: fx(SCALE as int), z: fx(SCALE as int), w: fx(SCALE as int) },
    );
    let pos = Mat4::mul_vec_spec(tf, ndc);
    let v = Vec3 { x: pos.x, y: pos.y, z: pos.z };
    if !v.is_zero_spec() && near_unit(Vec3::unit_spec(v)) {
        Some(
            Ray {
                origin: v3(0, 0, 0),
                direction: UnitVec3::spec_new(Vec3::unit_spec(v)),
            },
        )
    } else {
        None
    }
}

/// The color of one pixel of the finished frame: the background where the
/// projection or the pixel ray is degenerate, and otherwise the traced
/// color, quantized.
pub open spec fn pixel_spec<T: Object>(
    elements: Seq<Element<T>>,
    lights: Seq<SceneLight>,
    camera: Camera,
    aspect: Fixed,
    width: int,
    height: int,
    r: int,
    c: int,
    depth: nat,
) -> Rgb {
    if !camera_ok(camera, aspect) {
        background()
    } else {
        let tf = camera.transform_spec(aspect.raw as int);
        match pixel_ray_spec(tf, c, r, width, height) {
            None => background(),
            Some(ray) => quantize_spec(
                trace_spec(elements, lights, ReflectInfo { color: v3(0, 0, 0), ray }, depth),
            ),
        }
    }
}

/// A hit returned by the nearest-hit scan indexes a real element, and the
/// time is that element's hit time.
pub proof fn lemma_nearest_hit_bounds<T: Object>(elements: Seq<Element<T>>, ray: Ray)
    ensures
        (nearest_hit_spec(elements, ray) matches Some(p) ==> 0 <= p.0 < elements.len()
            && elements[p.0].object.hit_time(ray) == Some(p.1)),
    decreases elements.len(),
{
    if elements.len() > 0 {
        lemma_nearest_hit_bounds(elements.drop_last(), ray);
    }
}

/// The nearest hit over the elements, by a forward scan.
fn nearest_hit<T: Object>(elements: &Vec<Element<T>>, ray: Ray) -> (r: Option<(usize, Fixed)>)
    ensures
        (r is None ==> nearest_hit_spec(elements@, ray) is None),
        (r matches Some(p) ==> nearest_hit_spec(elements@, ray) == Some((p.0 as int, p.1))
            && p.0 < elements@.len()),
{
    let n = elements.len();
    let mut best: Option<(usize, Fixed)> = None;
    let mut k: usize = 0;
    while k < n
        invariant
            k <= n,
            n == elements@.len(),
            (best is None ==> nearest_hit_spec(elements@.take(k as int), ray) is None),
            (best matches Some(p) ==> nearest_hit_spec(elements@.take(k as int), ray) == Some(
                (p.0 as int, p.1),
            ) && p.0 < k),
        decreases n - k,
    {
        proof {
            assert(elements@.take(k + 1).drop_last() =~= elements@.take(k as int));
            assert(elements@.take(k + 1)[k as int] == elements@[k as int]);
        }
        let hit = elements[k].object.is_hit_by(ray);
        match hit {
            Some(t) => {
                match best {
                    Some(p) => {
                        if t.raw < p.1.raw {
                            best = Some((k, t));
                        }
                    },
                    None => {
                        best = Some((k, t));
                    },
                }
            },
            None => {},
        }
        k += 1;
    }
    proof {
        assert(elements@.take(n as int) =~= elements@);
    }
    best
}

/// The base color plus every light's contribution at the point.
fn accumulate_light(lights: &Vec<SceneLight>, point: Vec3, base: Vec3) -> (r: Vec3)
    ensures
        r == light_sum_spec(lights@, point, base),
{
    let n = lights.len();
    let mut color = base;
    let mut k: usize = 0;
    while k < n
        invariant
            k <= n,
            n == lights@.len(),
            color == light_sum_spec(lights@.take(k as int), point, base),
        decreases n - k,
    {
        proof {
            assert(lights@.take(k + 1).drop_last() =~= lights@.take(k as int));
            assert(lights@.take(k + 1).last() == lights@[k as int]);
        }
        let contribution = lights[k].hits(point);
        match contribution {
            Some(c) => {
                color = color.add(c);
            },
            None => {},
        }
        k += 1;
    }
    proof {
        assert(lights@.take(n as int) =~= lights@);
    }
    color
}

/// Trace one pixel's ray through the scene for at most `depth` bounces.
fn trace_pixel<T: Object>(
    elements: &Vec<Element<T>>,
    lights: &Vec<SceneLight>,
    ray: Ray,
    depth: usize,
) -> (r: Vec3)
    ensures
        r == trace_spec(
            elements@,
            lights@,
            ReflectInfo { color: v3(0, 0, 0), ray },
            depth as nat,
        ),
{
    let mut info = ReflectInfo { color: Vec3::zero(), ray };
    let mut k: usize = depth;
    while k > 0
        invariant
            trace_spec(elements@, lights@, info, k as nat) == trace_spec(
                elements@,
                lights@,
                ReflectInfo { color: v3(0, 0, 0), ray },
                depth as nat,
            ),
        decreases k,
    {
        proof {
            lemma_nearest_hit_bounds(elements@, info.ray);
        }
        let hit = nearest_hit(elements, info.ray);
        match hit {
            None => {
                return info.color;
            },
            Some((idx, t)) => {
                let pos = info.ray.position_at(t);
                let lit = accumulate_light(lights, pos, info.color);
                let color = lit.wide_mul(elements[idx].material.color);
                if k > 1 {
                    let normal = elements[idx].object.normal(pos);
                    match normal {
                        None => {
                            return color;
                        },
                        Some(n) => {
                            let reflected = info.ray.reflect(n);
                            match reflected {
                                None => {
                                    return color;
                                },
                                Some(nd) => {
                                    info = ReflectInfo {
                                        color,
                                        ray: Ray { origin: pos, direction: nd },
                                    };
                                },
                            }
                        },
                    }
                } else {
                    return color;
                }
            },
        }
        k -= 1;
    }
    info.color
}

/// The ray for one pixel: device coordinates through the projection, then
/// normalized into a direction from the origin.
fn pixel_ray(tf: Mat4, j: usize, i: usize, width: usize, height: usize) -> (r: Option<Ray>)
    requires
        1 <= width <= 0xffffffff,
        1 <= height <= 0xffffffff,
        j < width,
        i < height,
    ensures
        r == pixel_ray_spec(tf, j as int, i as int, width as int, height as int),
{
    let size = Vec4 {
        x: Fixed::from_int(width as i64),
        y: Fixed::from_int(height as i64),
        z: Fixed::one(),
        w: Fixed::one(),
    };
    let p = Vec4 {
        x: Fixed::from_int(j as i64),
        y: Fixed::from_int(i as i64),
        z: Fixed::one(),
        w: Fixed::one(),
    };
    let ndc = p.wide_div(size).scale(Fixed::from_int(2)).sub(Vec4::splat(Fixed::one()));
    let pos = tf.mul_vec(ndc);
    let v = Vec3 { x: pos.x, y: pos.y, z: pos.z };
    let dir = v.normalize();
    match dir {
        None => None,
        Some(d) => Some(Ray { origin: Vec3::zero(), direction: d }),
    }
}

/// The finished color of one pixel: the projection, the pixel ray, the
/// trace and the quantization, composed.  This is the pure per-pixel
/// computation; callers may evaluate pixels in any order or in parallel,
/// since the result depends only on the arguments.
pub fn render_pixel<T: Object>(
    elements: &Vec<Element<T>>,
    lights: &Vec<SceneLight>,
    camera: Camera,
    aspect: Fixed,
    width: usize,
    height: usize,
    r: usize,
    c: usize,
    depth: usize,
) -> (o: Rgb)
    requires
        r < height,
        c < width,
        width <= 0xffffffff,
        height <= 0xffffffff,
    ensures
        o == pixel_spec(
            elements@,
            lights@,
            camera,
            aspect,
            width as int,
            height as int,
            r as int,
            c as int,
            depth as nat,
        ),
{
    let proj = camera.projection(aspect);
    match proj {
        None => Rgb { r: 0, g: 0, b: 0 },
        Some(tf) => {
            let ray = pixel_ray(tf, c, r, width, height);
            match ray {
                None => Rgb { r: 0, g: 0, b: 0 },
                Some(ray) => quantize(trace_pixel(elements, lights, ray, depth)),
            }
        },
    }
}

impl<T: Object> Renderer<T> {
    pub fn new(frame: Framebuffer, elements: Vec<Element<T>>, lights: Vec<SceneLight>) -> (r:
        Renderer<T>)
        ensures
            r.frame == frame,
            r.elements == elements,
            r.lights == lights,
    {
        Renderer { frame, elements, lights }
    }

    /// Fill the frame: every pixel receives exactly the color the shading
    /// pipeline assigns to its coordinates.
    pub fn render(&mut self, depth: usize)
        requires
            old(self).frame.wf(),
            depth >= 1,
        ensures
            final(self).frame.wf(),
            final(self).frame.width == old(self).frame.width,
            final(self).frame.height == old(self).frame.height,
            final(self).frame.camera == old(self).frame.camera,
            final(self).frame.aspect_ratio == old(self).frame.aspect_ratio,
            final(self).elements == old(self).elements,
            final(self).lights == old(self).lights,
            final(self).frame.pixels@.len() == old(self).frame.pixels@.len(),
            forall|rr: usize, cc: usize|
                rr < old(self).frame.height && cc < old(self).frame.width ==> final(
                    self
                ).frame.pixels@[rr * old(self).frame.width + cc] == pixel_spec(
                    old(self).elements@,
                    old(self).lights@,
                    old(self).frame.camera,
                    old(self).frame.aspect_ratio,
                    old(self).frame.width as int,
                    old(self).frame.height as int,
                    rr as int,
                    cc as int,
                    depth as nat,
                ),
    {
        let width = self.frame.width;
        let height = self.frame.height;
        let cam = self.frame.camera;
        let asp = self.frame.aspect_ratio;
        let proj = cam.projection(asp);
        match proj {
            None => {
                self.frame.clear();
                proof {
                    assert forall|rr: usize, cc: usize|
                        rr < height && cc < width implies self.frame.pixels@[rr * width + cc]
                        == #[trigger] pixel_spec(
                        old(self).elements@,
                        old(self).lights@,
                        cam,
                        asp,
                        width as int,
                        height as int,
                        rr as int,
                        cc as int,
                        depth as nat,
                    ) by {
                        crate::display::lemma_index_bound(
                            rr as int,
                            cc as int,
                            width as int,
                            height as int,
                        );
                    }
                }
            },
            Some(tf) => {
                let elements = &self.elements;
                let lights = &self.lights;
                let f = |cr: usize, cc2: usize| -> (o: Option<Rgb>)
                    requires
                        cr < height,
                        cc2 < width,
                    ensures
                        o == Some(
                            pixel_spec(
                                elements@,
                                lights@,
                                cam,
                                asp,
                                width as int,
                                height as int,
                                cr as int,
                                cc2 as int,
                                depth as nat,
                            ),
                        ),
                    {
                        Some(render_pixel(elements, lights, cam, asp, width, height, cr, cc2, depth))
                    };
                self.frame.update(0, width, 0, height, &f);
                proof {
                    assert forall|rr: usize, cc: usize|
                        rr < height && cc < width implies self.frame.pixels@[rr * width + cc]
                        == pixel_spec(
                        elements@,
                        lights@,
                        cam,
                        asp,
                        width as int,
                        height as int,
                        rr as int,
                        cc as int,
                        depth as nat,
                    ) by {
                        assert(region_contains(
                            width as int,
                            height as int,
                            0,
                            width as int,
                            0,
                            height as int,
                            rr as int,
                            cc as int,
                        ));
                        assert(cell_matches(
                            f,
                            self.frame.pixels@,
                            old(self).frame.pixels@,
                            width as int,
                            rr,
                            cc,
                        ));
                        let o = choose|o: Option<Rgb>|
                            call_ensures(f, (rr, cc), o) && self.frame.pixels@[rr * (width as int)
                                + cc] == (match o {
                                Some(p) => p,
                                None => old(self).frame.pixels@[rr * (width as int) + cc],
                            });
                    }
                }
            },
        }
    }
}

} // verus!
