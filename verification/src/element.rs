//! Scene elements: an object paired with its material, and the running
//! state of one shading pass.

use vstd::prelude::*;
use crate::math::vec3::Vec3;
use crate::object::{Object, Ray};

verus! {

/// The running state of the shading loop: the color accumulated so far and
/// the ray to continue with.
#[derive(Clone, Copy, PartialEq, Eq, Structural, Debug)]
pub struct ReflectInfo {
    pub color: Vec3,
    pub ray: Ray,
}

/// An object of the scene together with its material.
pub struct Element<T> {
    pub object: T,
    pub material: Material,
}

/// A surface description: base color and per-channel reflectiveness, both
/// as normalized RGB triples.
#[derive(Clone, Copy, PartialEq, Eq, Structural, Debug)]
pub struct Material {
    pub color: Vec3,
    pub reflectiveness: Vec3,
}

impl<T: Object> Element<T> {
    pub fn new(object: T, material: Material) -> (r: Element<T>)
        ensures
            r.object == object,
            r.material == material,
    {
        Element { object, material }
    }
}

impl Material {
    pub fn new(color: Vec3, reflectiveness: Vec3) -> (r: Material)
        ensures
            r == (Material { color, reflectiveness }),
    {
        Material { color, reflectiveness }
    }
}

} // verus!
