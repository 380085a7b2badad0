//! Euler angles: roll, pitch and yaw, stored in radians.

use vstd::prelude::*;
use crate::fixed::Fixed;
use crate::math::quat::Versor;
use crate::math::vec3::Vec3;

verus! {

/// Raw fixed-point factor for degrees to radians: `round(pi / 180 * SCALE)`.
pub const DEG_TO_RAD_RAW: i64 = 1144;

/// Raw fixed-point factor for radians to degrees: `round(180 / pi * SCALE)`.
pub const RAD_TO_DEG_RAW: i64 = 3754936;

/// Roll, pitch and yaw angles, stored in radians.
#[derive(Clone, Copy, PartialEq, Eq, Structural, Debug, Default)]
pub struct EulerAngles(pub Vec3);

impl EulerAngles {
    pub fn from_radians(roll: Fixed, pitch: Fixed, yaw: Fixed) -> (r: EulerAngles)
        ensures
            r == EulerAngles(Vec3 { x: roll, y: pitch, z: yaw }),
    {
        EulerAngles(Vec3 { x: roll, y: pitch, z: yaw })
    }

    pub fn from_degrees(roll: Fixed, pitch: Fixed, yaw: Fixed) -> (r: EulerAngles)
        ensures
            r == EulerAngles((Vec3 { x: roll, y: pitch, z: yaw }).scale_spec(DEG_TO_RAD_RAW as int)),
    {
        EulerAngles::from_degrees_vec(Vec3 { x: roll, y: pitch, z: yaw })
    }

    pub fn from_radians_vec(vec: Vec3) -> (r: EulerAngles)
        ensures
            r == EulerAngles(vec),
    {
        EulerAngles(vec)
    }

    pub fn from_degrees_vec(vec: Vec3) -> (r: EulerAngles)
        ensures
            r == EulerAngles(vec.scale_spec(DEG_TO_RAD_RAW as int)),
    {
        EulerAngles(vec.scale(Fixed { raw: DEG_TO_RAD_RAW }))
    }

    /// The stored radians.
    pub fn to_radians(self) -> (r: Vec3)
        ensures
            r == self.0,
    {
        self.0
    }

    /// The angles converted to degrees.
    pub fn to_degrees(self) -> (r: Vec3)
        ensures
            r == self.0.scale_spec(RAD_TO_DEG_RAW as int),
    {
        self.0.scale(Fixed { raw: RAD_TO_DEG_RAW })
    }

    /// The stored vector of angles.
    pub fn to_inner(self) -> (r: Vec3)
        ensures
            r == self.0,
    {
        self.0
    }

    /// The rotation these angles describe, if the normalized quaternion
    /// passes the unit check.
    pub fn to_versor(self) -> (r: Option<Versor>)
        ensures
            r == Versor::from_euler_spec(self),
    {
        Versor::from_euler(self)
    }

    pub fn roll(self) -> (r: Fixed)
        ensures
            r == self.0.x,
    {
        self.0.x
    }

    pub fn pitch(self) -> (r: Fixed)
        ensures
            r == self.0.y,
    {
        self.0.y
    }

    pub fn yaw(self) -> (r: Fixed)
        ensures
            r == self.0.z,
    {
        self.0.z
    }
}

} // verus!
