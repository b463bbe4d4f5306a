//! The scene: camera, objects, lights and global parameters, with its
//! equality (used for change detection) and its encoding into the three
//! fixed-size GPU buffers.

use vstd::prelude::*;

use crate::bytes::{
    bytes_concat_fixed_in_n, concat_bytes, fit_bytes, push_u32_le, push_zero_bytes, u32_le,
    views_of_vecs, zero_bytes, AsBytes,
};
use crate::camera::Camera;
use crate::objects::{
    light_bytes, object_bytes, object_eq, Light, Material, Object, F32_HALF, F32_ONE, F32_ZERO,
};
use crate::vec3::{push_vec3, push_vec3_padded, vec3_bytes, Vec3};

verus! {

/// Bit pattern of the 32-bit float `0.2`.
pub const F32_POINT_TWO: u32 = 0x3E4C_CCCD;

/// Bit pattern of the 32-bit float `0.8`.
pub const F32_POINT_EIGHT: u32 = 0x3F4C_CCCD;

/// Bit pattern of the 32-bit float `2.0`.
pub const F32_TWO: u32 = 0x4000_0000;

/// Bit pattern of the 32-bit float `-5.0`.
pub const F32_MINUS_FIVE: u32 = 0xC0A0_0000;

/// Bit pattern of the 32-bit float `70.0`.
pub const F32_SEVENTY: u32 = 0x428C_0000;

/// All the information about a scene.
#[derive(Debug)]
pub struct Scene {
    /// The camera.
    pub camera: Camera,
    /// The objects, in order.
    pub objects: Vec<Object>,
    /// The lights, in order.
    pub lights: Vec<Light>,
    /// The background colour.
    pub background_colour: Vec3,
    /// The ambient light.
    pub ambient_light: Vec3,
    /// The bounce limit of the recursive trace.
    pub reflection_limit: u32,
    /// Whether sphere objects run the orbit-spin animation. This flag steers
    /// the front end only and is encoded into no buffer.
    pub do_objects_spin: bool,
}

/// Value equality of two object lists: same length, equal element by
/// element.
pub open spec fn objects_seq_eq(a: Seq<Object>, b: Seq<Object>) -> bool {
    a.len() == b.len() && forall|i: int| 0 <= i < a.len() ==> object_eq(a[i], b[i])
}

/// Value equality of two light lists.
pub open spec fn lights_seq_eq(a: Seq<Light>, b: Seq<Light>) -> bool {
    a.len() == b.len() && forall|i: int| 0 <= i < a.len() ==> a[i] == b[i]
}

/// Value equality of two scenes: every field, both lists element by
/// element. This is what the change detection of the progressive
/// accumulation compares.
pub open spec fn scene_eq(a: Scene, b: Scene) -> bool {
    a.camera == b.camera && objects_seq_eq(a.objects@, b.objects@) && lights_seq_eq(
        a.lights@,
        b.lights@,
    ) && a.background_colour == b.background_colour && a.ambient_light == b.ambient_light
        && a.reflection_limit == b.reflection_limit && a.do_objects_spin == b.do_objects_spin
}

/// The encodings of the objects, joined in order.
pub open spec fn objects_concat_bytes(objects: Seq<Object>) -> Seq<u8>
    decreases objects.len(),
{
    if objects.len() == 0 {
        Seq::empty()
    } else {
        objects_concat_bytes(objects.drop_last()) + object_bytes(objects.last())
    }
}

/// The encodings of the lights, joined in order.
pub open spec fn lights_concat_bytes(lights: Seq<Light>) -> Seq<u8>
    decreases lights.len(),
{
    if lights.len() == 0 {
        Seq::empty()
    } else {
        lights_concat_bytes(lights.drop_last()) + light_bytes(lights.last())
    }
}

/// The objects buffer: each object's 112-byte encoding in order, cut to the
/// buffer's capacity of 80 objects and zero-padded to its full size.
pub open spec fn objects_buffer_bytes(objects: Seq<Object>) -> Seq<u8> {
    fit_bytes(objects_concat_bytes(objects), (Scene::MAX_OBJECTS * Object::BUFFER_SIZE) as nat)
}

/// The lights buffer: each light's 48-byte encoding in order, cut to the
/// buffer's capacity of 2 lights and zero-padded to its full size.
pub open spec fn lights_buffer_bytes(lights: Seq<Light>) -> Seq<u8> {
    fit_bytes(lights_concat_bytes(lights), (Scene::MAX_LIGHTS * Light::BUFFER_SIZE) as nat)
}

/// Chunks that hold the objects' encodings element by element concatenate
/// to the objects' joined encoding.
proof fn lemma_object_chunks_concat(chunks: Seq<Seq<u8>>, objects: Seq<Object>)
    requires
        chunks.len() == objects.len(),
        forall|k: int| 0 <= k < chunks.len() ==> chunks[k] == object_bytes(objects[k]),
    ensures
        concat_bytes(chunks) == objects_concat_bytes(objects),
    decreases chunks.len(),
{
    if chunks.len() > 0 {
        lemma_object_chunks_concat(chunks.drop_last(), objects.drop_last());
    }
}

/// Chunks that hold the lights' encodings element by element concatenate to
/// the lights' joined encoding.
proof fn lemma_light_chunks_concat(chunks: Seq<Seq<u8>>, lights: Seq<Light>)
    requires
        chunks.len() == lights.len(),
        forall|k: int| 0 <= k < chunks.len() ==> chunks[k] == light_bytes(lights[k]),
    ensures
        concat_bytes(chunks) == lights_concat_bytes(lights),
    decreases chunks.len(),
{
    if chunks.len() > 0 {
        lemma_light_chunks_concat(chunks.drop_last(), lights.drop_last());
    }
}

/// The 112-byte configuration buffer: the camera position, the derived
/// forward, right and up vectors, the background colour (each padded to
/// sixteen bytes), the ambient light, then the field of view, the bounce
/// limit and the output size, with four trailing bytes of padding.
pub open spec fn config_bytes(s: Scene, fru: (Vec3, Vec3, Vec3), width: u32, height: u32) -> Seq<
    u8,
> {
    vec3_bytes(s.camera.position) + zero_bytes(4) + vec3_bytes(fru.0) + zero_bytes(4) + vec3_bytes(
        fru.1,
    ) + zero_bytes(4) + vec3_bytes(fru.2) + zero_bytes(4) + vec3_bytes(s.background_colour)
        + zero_bytes(4) + vec3_bytes(s.ambient_light) + u32_le(s.camera.fov) + u32_le(
        s.reflection_limit,
    ) + u32_le(width) + u32_le(height) + zero_bytes(4)
}

impl Scene {
    /// The most objects the objects buffer holds; objects past the cap are
    /// cut off by the encoder.
    pub const MAX_OBJECTS: usize = 80;

    /// The most lights the lights buffer holds; lights past the cap are cut
    /// off by the encoder.
    pub const MAX_LIGHTS: usize = 2;

    /// The size in bytes of the configuration buffer.
    pub const CONFIG_SIZE: usize = 112;

    /// Returns a simple scene: a red, fully metallic unit sphere at the
    /// origin, a white point light two units above it, the camera five units
    /// back, and a light blue background.
    pub fn simple() -> (r: Self)
        ensures
            r.objects@.len() == 1,
            r.objects@[0].name@ == "Sphere"@,
            r.objects@[0].material == (Material {
                colour: Vec3 { x: F32_ONE, y: F32_ZERO, z: F32_ZERO },
                emission: Vec3 { x: F32_ZERO, y: F32_ZERO, z: F32_ZERO },
                emission_strength: F32_ZERO,
                metallic: F32_ONE,
                roughness: F32_HALF,
            }),
            r.objects@[0].geometry == (crate::objects::Geometry::Sphere {
                center: Vec3 { x: F32_ZERO, y: F32_ZERO, z: F32_ZERO },
                radius: F32_ONE,
            }),
            r.lights@ =~= seq![
                Light::Point {
                    intensity: Vec3 { x: F32_ONE, y: F32_ONE, z: F32_ONE },
                    position: Vec3 { x: F32_ZERO, y: F32_TWO, z: F32_ZERO },
                },
            ],
            r.camera == (Camera {
                position: Vec3 { x: F32_ZERO, y: F32_ZERO, z: F32_MINUS_FIVE },
                rotation: Vec3 { x: F32_ZERO, y: F32_ZERO, z: F32_ZERO },
                fov: F32_SEVENTY,
            }),
            r.background_colour == (Vec3 { x: F32_HALF, y: F32_POINT_EIGHT, z: F32_ONE }),
            r.ambient_light == (Vec3 {
                x: F32_POINT_TWO,
                y: F32_POINT_TWO,
                z: F32_POINT_TWO,
            }),
            r.reflection_limit == 4,
            !r.do_objects_spin,
    {
        let mut objects: Vec<Object> = Vec::new();
        objects.push(
            Object::new(
                "Sphere",
                Material {
                    colour: Vec3 { x: F32_ONE, y: F32_ZERO, z: F32_ZERO },
                    emission: Vec3 { x: F32_ZERO, y: F32_ZERO, z: F32_ZERO },
                    emission_strength: F32_ZERO,
                    metallic: F32_ONE,
                    roughness: F32_HALF,
                },
                crate::objects::Geometry::Sphere {
                    center: Vec3 { x: F32_ZERO, y: F32_ZERO, z: F32_ZERO },
                    radius: F32_ONE,
                },
            ),
        );
        let mut lights: Vec<Light> = Vec::new();
        lights.push(
            Light::Point {
                intensity: Vec3 { x: F32_ONE, y: F32_ONE, z: F32_ONE },
                position: Vec3 { x: F32_ZERO, y: F32_TWO, z: F32_ZERO },
            },
        );
        Self {
            camera: Camera {
                position: Vec3 { x: F32_ZERO, y: F32_ZERO, z: F32_MINUS_FIVE },
                rotation: Vec3 { x: F32_ZERO, y: F32_ZERO, z: F32_ZERO },
                fov: F32_SEVENTY,
            },
            objects,
            lights,
            background_colour: Vec3 { x: F32_HALF, y: F32_POINT_EIGHT, z: F32_ONE },
            ambient_light: Vec3 { x: F32_POINT_TWO, y: F32_POINT_TWO, z: F32_POINT_TWO },
            reflection_limit: 4,
            do_objects_spin: false,
        }
    }

    /// Whether every object and light fits in the fixed buffers. The
    /// encoder silently cuts whatever lies past the caps, so a caller that
    /// must not lose data checks this before growing the scene.
    pub fn fits_in_buffers(&self) -> (r: bool)
        ensures
            r == (self.objects@.len() <= Scene::MAX_OBJECTS && self.lights@.len()
                <= Scene::MAX_LIGHTS),
    {
        self.objects.len() <= Scene::MAX_OBJECTS && self.lights.len() <= Scene::MAX_LIGHTS
    }

    /// Encodes the scene into the three GPU buffers — objects, lights,
    /// configuration — for an output of `width` by `height` pixels.
    ///
    /// The caller supplies the camera's derived forward, right and up
    /// vectors in `fru`, since deriving them from the rotation is
    /// floating-point trigonometry.
    #[verifier::rlimit(50)]
    pub fn as_bytes(&self, width: u32, height: u32, fru: (Vec3, Vec3, Vec3)) -> (r: (
        Vec<u8>,
        Vec<u8>,
        Vec<u8>,
    ))
        ensures
            r.0@ == objects_buffer_bytes(self.objects@),
            r.1@ == lights_buffer_bytes(self.lights@),
            r.2@ == config_bytes(*self, fru, width, height),
            r.0@.len() == Scene::MAX_OBJECTS * Object::BUFFER_SIZE,
            r.1@.len() == Scene::MAX_LIGHTS * Light::BUFFER_SIZE,
            r.2@.len() == Scene::CONFIG_SIZE,
    {
        let mut object_chunks: Vec<Vec<u8>> = Vec::new();
        let mut i: usize = 0;
        while i < self.objects.len()
            invariant
                i <= self.objects@.len(),
                object_chunks@.len() == i,
                forall|k: int|
                    0 <= k < i ==> object_chunks@[k]@ == object_bytes(self.objects@[k]),
            decreases self.objects@.len() - i,
        {
            object_chunks.push(self.objects[i].as_bytes());
            i += 1;
        }
        proof {
            assert forall|k: int| 0 <= k < object_chunks@.len() implies views_of_vecs(
                object_chunks@,
            )[k] == object_bytes(self.objects@[k]) by {
                assert(views_of_vecs(object_chunks@)[k] == object_chunks@[k]@);
            }
            lemma_object_chunks_concat(views_of_vecs(object_chunks@), self.objects@);
        }
        let object_buffer = bytes_concat_fixed_in_n(
            object_chunks.as_slice(),
            Scene::MAX_OBJECTS * Object::BUFFER_SIZE,
        );

        let mut light_chunks: Vec<Vec<u8>> = Vec::new();
        let mut j: usize = 0;
        while j < self.lights.len()
            invariant
                j <= self.lights@.len(),
                light_chunks@.len() == j,
                forall|k: int| 0 <= k < j ==> light_chunks@[k]@ == light_bytes(self.lights@[k]),
            decreases self.lights@.len() - j,
        {
            light_chunks.push(self.lights[j].as_bytes());
            j += 1;
        }
        proof {
            assert forall|k: int| 0 <= k < light_chunks@.len() implies views_of_vecs(
                light_chunks@,
            )[k] == light_bytes(self.lights@[k]) by {
                assert(views_of_vecs(light_chunks@)[k] == light_chunks@[k]@);
            }
            lemma_light_chunks_concat(views_of_vecs(light_chunks@), self.lights@);
        }
        let light_buffer = bytes_concat_fixed_in_n(
            light_chunks.as_slice(),
            Scene::MAX_LIGHTS * Light::BUFFER_SIZE,
        );

        let mut config: Vec<u8> = Vec::new();
        push_vec3_padded(&mut config, &self.camera.position);
        push_vec3_padded(&mut config, &fru.0);
        push_vec3_padded(&mut config, &fru.1);
        push_vec3_padded(&mut config, &fru.2);
        push_vec3_padded(&mut config, &self.background_colour);
        push_vec3(&mut config, &self.ambient_light);
        push_u32_le(&mut config, self.camera.fov);
        push_u32_le(&mut config, self.reflection_limit);
        push_u32_le(&mut config, width);
        push_u32_le(&mut config, height);
        push_zero_bytes(&mut config, 4);
        assert(config@ =~= config_bytes(*self, fru, width, height));

        (object_buffer, light_buffer, config)
    }
}

impl Clone for Scene {
    /// A copy of the scene, equal to it by [`scene_eq`].
    fn clone(&self) -> (r: Self)
        ensures
            scene_eq(r, *self),
    {
        let mut objects: Vec<Object> = Vec::new();
        let mut i: usize = 0;
        while i < self.objects.len()
            invariant
                i <= self.objects@.len(),
                objects@.len() == i,
                forall|k: int| 0 <= k < i ==> object_eq(objects@[k], self.objects@[k]),
            decreases self.objects@.len() - i,
        {
            objects.push(self.objects[i].clone());
            i += 1;
        }
        let mut lights: Vec<Light> = Vec::new();
        let mut j: usize = 0;
        while j < self.lights.len()
            invariant
                j <= self.lights@.len(),
                lights@ =~= self.lights@.take(j as int),
            decreases self.lights@.len() - j,
        {
            lights.push(self.lights[j]);
            proof {
                assert(lights@ =~= self.lights@.take(j + 1));
            }
            j += 1;
        }
        proof {
            assert(self.lights@.take(self.lights@.len() as int) =~= self.lights@);
        }
        Self {
            camera: self.camera,
            objects,
            lights,
            background_colour: self.background_colour,
            ambient_light: self.ambient_light,
            reflection_limit: self.reflection_limit,
            do_objects_spin: self.do_objects_spin,
        }
    }
}

/// Compares two object lists element by element.
fn objects_vec_eq(a: &Vec<Object>, b: &Vec<Object>) -> (r: bool)
    ensures
        r == objects_seq_eq(a@, b@),
{
    if a.len() != b.len() {
        return false;
    }
    let mut i: usize = 0;
    while i < a.len()
        invariant
            i <= a@.len(),
            a@.len() == b@.len(),
            forall|k: int| 0 <= k < i ==> object_eq(a@[k], b@[k]),
        decreases a@.len() - i,
    {
        if !(a[i] == b[i]) {
            return false;
        }
        i += 1;
    }
    true
}

/// Compares two light lists element by element.
fn lights_vec_eq(a: &Vec<Light>, b: &Vec<Light>) -> (r: bool)
    ensures
        r == lights_seq_eq(a@, b@),
{
    if a.len() != b.len() {
        return false;
    }
    let mut i: usize = 0;
    while i < a.len()
        invariant
            i <= a@.len(),
            a@.len() == b@.len(),
            forall|k: int| 0 <= k < i ==> a@[k] == b@[k],
        decreases a@.len() - i,
    {
        if !(a[i] == b[i]) {
            return false;
        }
        i += 1;
    }
    true
}

impl PartialEq for Scene {
    fn eq(&self, other: &Self) -> (r: bool) {
        self.camera == other.camera && objects_vec_eq(&self.objects, &other.objects)
            && lights_vec_eq(&self.lights, &other.lights) && self.background_colour
            == other.background_colour && self.ambient_light == other.ambient_light
            && self.reflection_limit == other.reflection_limit && self.do_objects_spin
            == other.do_objects_spin
    }
}

impl vstd::std_specs::cmp::PartialEqSpecImpl for Scene {
    open spec fn obeys_eq_spec() -> bool {
        true
    }

    open spec fn eq_spec(&self, other: &Scene) -> bool {
        scene_eq(*self, *other)
    }
}

} // verus!
