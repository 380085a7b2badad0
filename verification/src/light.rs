//! Light sources: the capability trait and the closed set of variants.

pub mod ambient;
pub mod point;

use vstd::prelude::*;
use crate::math::vec3::Vec3;
use crate::light::ambient::Ambient;
use crate::light::point::Point;

verus! {

/// A capability of light sources: an optional color contribution at a
/// world point.  Implementations fix the behaviour as a spec function the
/// executable method is held to.
pub trait Light {
    /// The contribution at a point, when there is one.
    spec fn hits_spec(&self, point: Vec3) -> Option<Vec3>;

    fn hits(&self, point: Vec3) -> (r: Option<Vec3>)
        ensures
            r == self.hits_spec(point),
    ;
}

/// The closed set of light variants a scene can hold.
#[derive(Clone, Copy, PartialEq, Eq, Structural, Debug)]
pub enum SceneLight {
    Ambient(Ambient),
    Point(Point),
}

impl Light for SceneLight {
    open spec fn hits_spec(&self, point: Vec3) -> Option<Vec3> {
        match *self {
            SceneLight::Ambient(a) => a.hits_spec(point),
            SceneLight::Point(p) => p.hits_spec(point),
        }
    }

    fn hits(&self, point: Vec3) -> (r: Option<Vec3>) {
        match self {
            SceneLight::Ambient(a) => a.hits(point),
            SceneLight::Point(p) => p.hits(point),
        }
    }
}

} // verus!
