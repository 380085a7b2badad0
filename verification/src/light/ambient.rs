//! Uniform environmental fill light.

use vstd::prelude::*;
use crate::light::{Light, SceneLight};
use crate::math::vec3::Vec3;

verus! {

/// A light that contributes its constant color everywhere.
#[derive(Clone, Copy, PartialEq, Eq, Structural, Debug)]
pub struct Ambient {
    pub color: Vec3,
}

impl Ambient {
    pub fn new(color: Vec3) -> (r: Ambient)
        ensures
            r == (Ambient { color }),
    {
        Ambient { color }
    }

    /// The light wrapped as a scene variant.
    pub fn new_unsize(color: Vec3) -> (r: SceneLight)
        ensures
            r == SceneLight::Ambient(Ambient { color }),
    {
        SceneLight::Ambient(Ambient::new(color))
    }
}

impl Light for Ambient {
    open spec fn hits_spec(&self, point: Vec3) -> Option<Vec3> {
        Some(self.color)
    }

    fn hits(&self, point: Vec3) -> (r: Option<Vec3>) {
        Some(self.color)
    }
}

} // verus!
