//! The three-component vector of the scene model.
//!
//! Every component is the IEEE-754 bit pattern of a 32-bit float, stored in
//! a `u32`. The shader reads the serialized buffers as floats, and a float's
//! little-endian bytes are exactly the little-endian bytes of its bit
//! pattern, so the encoding here is byte-for-byte the one the shader
//! expects. Floating-point arithmetic on vectors (lengths, dot products,
//! normalization) is the front end's business; the library stores, compares
//! and serializes the components.

use vstd::prelude::*;

use crate::bytes::{push_u32_le, u32_le, AsBytes};

verus! {

/// A point, vector, normal or colour: three 32-bit float components, each
/// held as its bit pattern.
#[derive(Clone, Copy, Debug, PartialEq, Eq, Structural)]
pub struct Vec3 {
    /// Bit pattern of the x (or red) component.
    pub x: u32,
    /// Bit pattern of the y (or green) component.
    pub y: u32,
    /// Bit pattern of the z (or blue) component.
    pub z: u32,
}

/// The twelve-byte encoding of a vector: the three components in order,
/// each little endian.
pub open spec fn vec3_bytes(v: Vec3) -> Seq<u8> {
    u32_le(v.x) + u32_le(v.y) + u32_le(v.z)
}

impl Vec3 {
    /// Create a new `Vec3` from component bit patterns.
    pub fn new(x: u32, y: u32, z: u32) -> (r: Self)
        ensures
            r.x == x,
            r.y == y,
            r.z == z,
    {
        Self { x, y, z }
    }
}

impl AsBytes for Vec3 {
    open spec fn spec_bytes(&self) -> Seq<u8> {
        vec3_bytes(*self)
    }

    fn as_bytes(&self) -> (r: Vec<u8>) {
        let mut out: Vec<u8> = Vec::new();
        push_u32_le(&mut out, self.x);
        push_u32_le(&mut out, self.y);
        push_u32_le(&mut out, self.z);
        out
    }
}

/// Appends the twelve bytes of `v`.
pub fn push_vec3(out: &mut Vec<u8>, v: &Vec3)
    ensures
        final(out)@ == old(out)@ + vec3_bytes(*v),
{
    push_u32_le(out, v.x);
    push_u32_le(out, v.y);
    push_u32_le(out, v.z);
}

/// Appends the twelve bytes of `v` and four bytes of padding, the
/// sixteen-byte stride of a vector in the shader's layout.
pub fn push_vec3_padded(out: &mut Vec<u8>, v: &Vec3)
    ensures
        final(out)@ == old(out)@ + vec3_bytes(*v) + crate::bytes::zero_bytes(4),
{
    push_vec3(out, v);
    crate::bytes::push_zero_bytes(out, 4);
}

} // verus!
