//! A 3D transformation: translation, rotation and lane-wise scale.

use vstd::prelude::*;
use crate::fixed::{Fixed, SCALE};
use crate::math::quat::{Quaternion, Versor};
use crate::math::vec3::Vec3;
use crate::math::vec4::v4;

verus! {

/// Describes a transformation in 3D space.
#[derive(Clone, Copy, Debug)]
pub struct Transform {
    pub position: Vec3,
    pub rotation: Versor,
    pub scale: Vec3,
}

impl Transform {
    /// What applying the transform yields: rotate, scale lane-wise, then
    /// translate.
    pub open spec fn apply_spec(self, v: Vec3) -> Vec3 {
        self.position.add_spec(Versor::apply_spec(self.rotation@, v).wide_mul_spec(self.scale))
    }

    pub fn new(position: Vec3, rotation: Versor, scale: Vec3) -> (r: Transform)
        ensures
            r.position == position,
            r.rotation == rotation,
            r.scale == scale,
    {
        Transform { position, rotation, scale }
    }

    /// Move the position by an offset.
    pub fn translate(&mut self, offset: Vec3)
        ensures
            final(self).position == old(self).position.add_spec(offset),
            final(self).rotation == old(self).rotation,
            final(self).scale == old(self).scale,
    {
        self.position = self.position.add(offset);
    }

    /// Compose a further rotation; the rotation is kept unchanged when the
    /// composed quaternion fails the unit check.
    pub fn rotate(&mut self, rot: Versor)
        ensures
            final(self).position == old(self).position,
            final(self).scale == old(self).scale,
            final(self).rotation == match Versor::compose_spec(old(self).rotation@, rot@) {
                Some(v) => v,
                None => old(self).rotation,
            },
    {
        let composed = self.rotation.mul(rot);
        match composed {
            Some(v) => {
                self.rotation = v;
            },
            None => {},
        }
    }

    /// Scale each lane further.
    pub fn scale(&mut self, scale: Vec3)
        ensures
            final(self).position == old(self).position,
            final(self).rotation == old(self).rotation,
            final(self).scale == old(self).scale.wide_mul_spec(scale),
    {
        self.scale = self.scale.wide_mul(scale);
    }

    /// Apply the transform to a point.
    pub fn apply(self, v: Vec3) -> (r: Vec3)
        ensures
            r == self.apply_spec(v),
            r.wf(),
    {
        self.position.add(self.rotation.apply(v).wide_mul(self.scale))
    }
}

impl Default for Transform {
    /// The identity transform: no offset, no rotation, unit scale.
    fn default() -> (r: Transform)
        ensures
            r.position == (Vec3 { x: Fixed { raw: 0 }, y: Fixed { raw: 0 }, z: Fixed { raw: 0 } }),
            r.rotation@ == Quaternion(v4(SCALE as int, 0, 0, 0)),
            r.scale == (Vec3 {
                x: Fixed { raw: SCALE },
                y: Fixed { raw: SCALE },
                z: Fixed { raw: SCALE },
            }),
    {
        Transform {
            position: Vec3 { x: Fixed { raw: 0 }, y: Fixed { raw: 0 }, z: Fixed { raw: 0 } },
            rotation: Versor::default(),
            scale: Vec3 {
                x: Fixed { raw: SCALE },
                y: Fixed { raw: SCALE },
                z: Fixed { raw: SCALE },
            },
        }
    }
}

} // verus!
