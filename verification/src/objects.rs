//! Materials, geometry, scene objects and lights.
//!
//! Scalars that the shader reads as floats (radii, sizes, material factors)
//! are held as IEEE-754 bit patterns in `u32` fields, like the components of
//! [`Vec3`]. Each type carries its fixed-layout byte encoding, packed with
//! the shader's alignment rules: vectors occupy twelve meaningful bytes but
//! pad to sixteen-byte boundaries, and each record is padded to its fixed
//! buffer stride.

use vstd::prelude::*;

use crate::bytes::{push_u32_le, push_zero_bytes, u32_le, zero_bytes, AsBytes};
use crate::vec3::{push_vec3, vec3_bytes, Vec3};

verus! {

/// Bit pattern of the 32-bit float `0.0`.
pub const F32_ZERO: u32 = 0x0000_0000;

/// Bit pattern of the 32-bit float `0.5`.
pub const F32_HALF: u32 = 0x3F00_0000;

/// Bit pattern of the 32-bit float `1.0`.
pub const F32_ONE: u32 = 0x3F80_0000;

/// How light interacts with an object.
#[derive(Clone, Copy, Debug, PartialEq, Eq, Structural)]
pub struct Material {
    /// The albedo colour, RGB from 0..1.
    pub colour: Vec3,
    /// The emissive colour, RGB from 0..1.
    pub emission: Vec3,
    /// The emission strength (non-negative float bit pattern).
    pub emission_strength: u32,
    /// How much of the object's colour is a reflection of the environment,
    /// in 0..1 (float bit pattern).
    pub metallic: u32,
    /// How rough the reflection is, in 0..1 (float bit pattern).
    pub roughness: u32,
}

/// The 48-byte encoding of a material: colour, padding, emission, then the
/// three scalars, zero-padded to the stride.
pub open spec fn material_bytes(m: Material) -> Seq<u8> {
    vec3_bytes(m.colour) + zero_bytes(4) + vec3_bytes(m.emission) + u32_le(m.emission_strength)
        + u32_le(m.metallic) + u32_le(m.roughness) + zero_bytes(8)
}

impl Material {
    /// The size in bytes of one encoded material.
    pub const BUFFER_SIZE: usize = 48;
}

/// The default material: red, half metallic, half rough, no emission.
pub open spec fn default_material() -> Material {
    Material {
        colour: Vec3 { x: F32_ONE, y: F32_ZERO, z: F32_ZERO },
        emission: Vec3 { x: F32_ZERO, y: F32_ZERO, z: F32_ZERO },
        emission_strength: F32_ZERO,
        metallic: F32_HALF,
        roughness: F32_HALF,
    }
}

impl Default for Material {
    /// A red, half-metallic, half-rough material with no emission.
    fn default() -> (r: Self)
        ensures
            r == default_material(),
    {
        Self {
            colour: Vec3 { x: F32_ONE, y: F32_ZERO, z: F32_ZERO },
            emission: Vec3 { x: F32_ZERO, y: F32_ZERO, z: F32_ZERO },
            emission_strength: F32_ZERO,
            metallic: F32_HALF,
            roughness: F32_HALF,
        }
    }
}

impl AsBytes for Material {
    open spec fn spec_bytes(&self) -> Seq<u8> {
        material_bytes(*self)
    }

    fn as_bytes(&self) -> (r: Vec<u8>) {
        let mut out: Vec<u8> = Vec::new();
        push_vec3(&mut out, &self.colour);
        push_zero_bytes(&mut out, 4);
        push_vec3(&mut out, &self.emission);
        push_u32_le(&mut out, self.emission_strength);
        push_u32_le(&mut out, self.metallic);
        push_u32_le(&mut out, self.roughness);
        push_zero_bytes(&mut out, 8);
        assert(out@ =~= material_bytes(*self));
        out
    }
}

/// The geometry of an object: a sphere or a bounded plane.
#[derive(Clone, Copy, Debug, PartialEq, Eq, Structural)]
pub enum Geometry {
    /// A sphere.
    Sphere {
        /// The center of the sphere.
        center: Vec3,
        /// The radius of the sphere (float bit pattern, expected positive).
        radius: u32,
    },
    /// A plane, bounded to a square patch.
    Plane {
        /// The center of the plane.
        center: Vec3,
        /// The normal the plane faces towards (expected unit length).
        normal: Vec3,
        /// The half-extent of the patch (float bit pattern, expected
        /// positive).
        size: u32,
    },
}

/// The 64-byte encoding of a geometry: a variant tag (`0` for a sphere, `1`
/// for a plane), then the variant's fields at the shader's offsets,
/// zero-padded to the stride.
pub open spec fn geometry_bytes(g: Geometry) -> Seq<u8> {
    match g {
        Geometry::Sphere { center, radius } => u32_le(0) + zero_bytes(12) + vec3_bytes(center)
            + zero_bytes(16) + u32_le(radius) + zero_bytes(16),
        Geometry::Plane { center, normal, size } => u32_le(1) + zero_bytes(12) + vec3_bytes(center)
            + zero_bytes(4) + vec3_bytes(normal) + u32_le(size) + zero_bytes(16),
    }
}

/// The center of a geometry, whichever variant it is.
pub open spec fn spec_position(g: Geometry) -> Vec3 {
    match g {
        Geometry::Sphere { center, .. } => center,
        Geometry::Plane { center, .. } => center,
    }
}

/// `g` with its center replaced, the other fields kept.
pub open spec fn with_position(g: Geometry, c: Vec3) -> Geometry {
    match g {
        Geometry::Sphere { center, radius } => Geometry::Sphere { center: c, radius },
        Geometry::Plane { center, normal, size } => Geometry::Plane { center: c, normal, size },
    }
}

impl Geometry {
    /// The size in bytes of one encoded geometry.
    pub const BUFFER_SIZE: usize = 64;

    /// A unit sphere at the origin.
    pub fn default_sphere() -> (r: Self)
        ensures
            r == (Geometry::Sphere {
                center: Vec3 { x: F32_ZERO, y: F32_ZERO, z: F32_ZERO },
                radius: F32_ONE,
            }),
    {
        Self::Sphere {
            center: Vec3 { x: F32_ZERO, y: F32_ZERO, z: F32_ZERO },
            radius: F32_ONE,
        }
    }

    /// A unit plane at the origin, facing up.
    pub fn default_plane() -> (r: Self)
        ensures
            r == (Geometry::Plane {
                center: Vec3 { x: F32_ZERO, y: F32_ZERO, z: F32_ZERO },
                normal: Vec3 { x: F32_ZERO, y: F32_ONE, z: F32_ZERO },
                size: F32_ONE,
            }),
    {
        Self::Plane {
            center: Vec3 { x: F32_ZERO, y: F32_ZERO, z: F32_ZERO },
            normal: Vec3 { x: F32_ZERO, y: F32_ONE, z: F32_ZERO },
            size: F32_ONE,
        }
    }

    /// The position of the object, to show in an editor.
    pub fn position(&self) -> (p: &Vec3)
        ensures
            *p == spec_position(*self),
    {
        match self {
            Self::Sphere { center, .. } => center,
            Self::Plane { center, .. } => center,
        }
    }

    /// Mutable access to the position of the object, whichever variant it
    /// is; the other fields are untouched.
    pub fn position_as_mut(&mut self) -> (p: &mut Vec3)
        ensures
            *p == spec_position(*old(self)),
            *final(self) == with_position(*old(self), *final(p)),
    {
        match self {
            Self::Sphere { center, .. } => center,
            Self::Plane { center, .. } => center,
        }
    }
}

impl AsBytes for Geometry {
    open spec fn spec_bytes(&self) -> Seq<u8> {
        geometry_bytes(*self)
    }

    fn as_bytes(&self) -> (r: Vec<u8>) {
        let mut out: Vec<u8> = Vec::new();
        match self {
            Self::Sphere { center, radius } => {
                push_u32_le(&mut out, 0);
                push_zero_bytes(&mut out, 12);
                push_vec3(&mut out, center);
                push_zero_bytes(&mut out, 16);
                push_u32_le(&mut out, *radius);
                push_zero_bytes(&mut out, 16);
            },
            Self::Plane { center, normal, size } => {
                push_u32_le(&mut out, 1);
                push_zero_bytes(&mut out, 12);
                push_vec3(&mut out, center);
                push_zero_bytes(&mut out, 4);
                push_vec3(&mut out, normal);
                push_u32_le(&mut out, *size);
                push_zero_bytes(&mut out, 16);
            },
        }
        assert(out@ =~= geometry_bytes(*self));
        out
    }
}

/// All the information about one object in a scene.
#[derive(Debug)]
pub struct Object {
    /// The id of the object; generated at creation, unique in practice.
    pub id: u128,
    /// The display name of the object; need not be unique.
    pub name: String,
    /// The material of the object.
    pub material: Material,
    /// The geometry of the object.
    pub geometry: Geometry,
}

/// Value equality of two objects: every field, the name by its text.
pub open spec fn object_eq(a: Object, b: Object) -> bool {
    a.id == b.id && a.name@ == b.name@ && a.material == b.material && a.geometry == b.geometry
}

/// The 112-byte encoding of an object: its material, then its geometry.
/// The id and the name are editor-side data and are not encoded.
pub open spec fn object_bytes(o: Object) -> Seq<u8> {
    material_bytes(o.material) + geometry_bytes(o.geometry)
}

/// Relies on `uuid::Uuid::new_v4`, a randomly generated identifier, for
/// creation-time object ids; nothing is promised of the value.
#[verifier::external_body]
fn fresh_object_id() -> u128 {
    uuid::Uuid::new_v4().as_u128()
}

impl Object {
    /// The size in bytes of one encoded object.
    pub const BUFFER_SIZE: usize = 112;

    /// Creates a new object with a freshly generated id.
    pub fn new(name: &str, material: Material, geometry: Geometry) -> (r: Self)
        ensures
            r.name@ == name@,
            r.material == material,
            r.geometry == geometry,
    {
        Self { id: fresh_object_id(), name: name.to_owned(), material, geometry }
    }

    /// A default sphere object.
    pub fn default_sphere() -> (r: Self)
        ensures
            r.name@ == "sphere"@,
            r.material == default_material(),
            r.geometry == (Geometry::Sphere {
                center: Vec3 { x: F32_ZERO, y: F32_ZERO, z: F32_ZERO },
                radius: F32_ONE,
            }),
    {
        Self::new("sphere", Material::default(), Geometry::default_sphere())
    }

    /// A default plane object.
    pub fn default_plane() -> (r: Self)
        ensures
            r.name@ == "plane"@,
            r.material == default_material(),
            r.geometry == (Geometry::Plane {
                center: Vec3 { x: F32_ZERO, y: F32_ZERO, z: F32_ZERO },
                normal: Vec3 { x: F32_ZERO, y: F32_ONE, z: F32_ZERO },
                size: F32_ONE,
            }),
    {
        Self::new("plane", Material::default(), Geometry::default_plane())
    }
}

impl Clone for Object {
    /// A copy of the object, equal to it field by field (the name by its
    /// text).
    fn clone(&self) -> (r: Self)
        ensures
            object_eq(r, *self),
    {
        Self {
            id: self.id,
            name: self.name.clone(),
            material: self.material,
            geometry: self.geometry,
        }
    }
}

impl PartialEq for Object {
    fn eq(&self, other: &Self) -> (r: bool) {
        self.id == other.id && self.name == other.name && self.material == other.material
            && self.geometry == other.geometry
    }
}

impl vstd::std_specs::cmp::PartialEqSpecImpl for Object {
    open spec fn obeys_eq_spec() -> bool {
        true
    }

    open spec fn eq_spec(&self, other: &Object) -> bool {
        object_eq(*self, *other)
    }
}

impl AsBytes for Object {
    open spec fn spec_bytes(&self) -> Seq<u8> {
        object_bytes(*self)
    }

    fn as_bytes(&self) -> (r: Vec<u8>) {
        let mut out = self.material.as_bytes();
        let mut tail = self.geometry.as_bytes();
        out.append(&mut tail);
        out
    }
}

/// A light in a scene.
#[derive(Clone, Copy, Debug, PartialEq, Eq, Structural)]
pub enum Light {
    /// A light that comes from one direction, the same everywhere.
    Direction {
        /// The intensity of the light, RGB.
        intensity: Vec3,
        /// The direction the light travels (expected unit length).
        direction: Vec3,
    },
    /// A light that radiates from a point.
    Point {
        /// The intensity of the light, RGB.
        intensity: Vec3,
        /// The position of the light.
        position: Vec3,
    },
}

/// The 48-byte encoding of a light: a variant tag (`0` for directional, `1`
/// for point), the intensity, then the direction or position, zero-padded to
/// the stride.
pub open spec fn light_bytes(l: Light) -> Seq<u8> {
    match l {
        Light::Direction { intensity, direction } => u32_le(0) + zero_bytes(12) + vec3_bytes(
            intensity,
        ) + zero_bytes(4) + vec3_bytes(direction) + zero_bytes(4),
        Light::Point { intensity, position } => u32_le(1) + zero_bytes(12) + vec3_bytes(intensity)
            + zero_bytes(4) + vec3_bytes(position) + zero_bytes(4),
    }
}

impl Light {
    /// The size in bytes of one encoded light.
    pub const BUFFER_SIZE: usize = 48;
}

impl AsBytes for Light {
    open spec fn spec_bytes(&self) -> Seq<u8> {
        light_bytes(*self)
    }

    fn as_bytes(&self) -> (r: Vec<u8>) {
        let mut out: Vec<u8> = Vec::new();
        match self {
            Self::Direction { intensity, direction } => {
                push_u32_le(&mut out, 0);
                push_zero_bytes(&mut out, 12);
                push_vec3(&mut out, intensity);
                push_zero_bytes(&mut out, 4);
                push_vec3(&mut out, direction);
                push_zero_bytes(&mut out, 4);
            },
            Self::Point { intensity, position } => {
                push_u32_le(&mut out, 1);
                push_zero_bytes(&mut out, 12);
                push_vec3(&mut out, intensity);
                push_zero_bytes(&mut out, 4);
                push_vec3(&mut out, position);
                push_zero_bytes(&mut out, 4);
            },
        }
        assert(out@ =~= light_bytes(*self));
        out
    }
}

} // verus!
