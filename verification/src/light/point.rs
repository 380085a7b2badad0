//! Inverse-square point light.

use vstd::prelude::*;
use crate::fixed::{div_val, mul_val, Fixed};
use crate::light::{Light, SceneLight};
use crate::math::vec3::Vec3;

verus! {

/// A light radiating from a point, falling off with the squared distance.
#[derive(Clone, Copy, PartialEq, Eq, Structural, Debug)]
pub struct Point {
    pub point: Vec3,
    pub color: Vec3,
    pub intensity: Fixed,
}

impl Point {
    pub fn new(point: Vec3, color: Vec3, intensity: Fixed) -> (r: Point)
        ensures
            r == (Point { point, color, intensity }),
    {
        Point { point, color, intensity }
    }

    /// The light wrapped as a scene variant.
    pub fn new_unsize(point: Vec3, color: Vec3, intensity: Fixed) -> (r: SceneLight)
        ensures
            r == SceneLight::Point(Point { point, color, intensity }),
    {
        SceneLight::Point(Point::new(point, color, intensity))
    }
}

impl Light for Point {
    /// The color scaled by `intensity / distance²`.  A contribution at or
    /// below zero is treated as negligible, and so is a coincident point,
    /// where the falloff has no finite value.
    open spec fn hits_spec(&self, point: Vec3) -> Option<Vec3> {
        let dist = Vec3::norm_val(point.sub_spec(self.point));
        let d2 = mul_val(dist, dist);
        if d2 == 0 {
            None
        } else {
            let inten = div_val(self.intensity.raw as int, d2);
            if inten <= 0 {
                None
            } else {
                Some(self.color.scale_spec(inten))
            }
        }
    }

    fn hits(&self, point: Vec3) -> (r: Option<Vec3>) {
        let dist = point.distance(self.point);
        let d2 = dist.mul(dist);
        if d2.raw == 0 {
            return None;
        }
        let inten = self.intensity.div(d2);
        if inten.raw <= 0 {
            return None;
        }
        Some(self.color.scale(inten))
    }
}

} // verus!
