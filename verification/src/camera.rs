//! The camera of a scene.
//!
//! The camera is pure data here: a position, an Euler rotation and a field
//! of view, each scalar a 32-bit float bit pattern. Deriving the forward,
//! right and up basis vectors from the rotation, and clamping the rotation
//! after an edit, are trigonometry on floats and belong to the front end;
//! the derived vectors come back to this library as arguments when the
//! configuration buffer is encoded.

use vstd::prelude::*;

use crate::vec3::Vec3;

verus! {

/// The camera in a scene.
#[derive(Clone, Copy, Debug, PartialEq, Eq, Structural)]
pub struct Camera {
    /// The position of the camera.
    pub position: Vec3,
    /// The rotation of the camera: an Euler rotation in radians, with pitch
    /// in `x`, yaw in `y` and roll in `z`.
    pub rotation: Vec3,
    /// The field of view of the camera in degrees (float bit pattern).
    pub fov: u32,
}

} // verus!
