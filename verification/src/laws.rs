//! Laws of the scene encoding, stated and proved once for all scenes.

use vstd::prelude::*;

use crate::objects::{object_eq, Light, Object};
use crate::scene::{
    config_bytes, lights_buffer_bytes, lights_concat_bytes, lights_seq_eq, objects_buffer_bytes,
    objects_concat_bytes, objects_seq_eq, scene_eq, Scene,
};
use crate::vec3::Vec3;

verus! {

/// Object lists that are equal element by element encode to the same joined
/// bytes.
proof fn lemma_objects_concat_congruent(a: Seq<Object>, b: Seq<Object>)
    requires
        objects_seq_eq(a, b),
    ensures
        objects_concat_bytes(a) == objects_concat_bytes(b),
    decreases a.len(),
{
    if a.len() > 0 {
        assert forall|k: int| 0 <= k < a.drop_last().len() implies object_eq(
            a.drop_last()[k],
            b.drop_last()[k],
        ) by {
            assert(object_eq(a[k], b[k]));
        }
        lemma_objects_concat_congruent(a.drop_last(), b.drop_last());
        assert(object_eq(a[a.len() - 1], b[b.len() - 1]));
    }
}

/// Light lists that are equal element by element encode to the same joined
/// bytes.
proof fn lemma_lights_concat_congruent(a: Seq<Light>, b: Seq<Light>)
    requires
        lights_seq_eq(a, b),
    ensures
        lights_concat_bytes(a) == lights_concat_bytes(b),
    decreases a.len(),
{
    if a.len() > 0 {
        assert forall|k: int| 0 <= k < a.drop_last().len() implies a.drop_last()[k]
            == b.drop_last()[k] by {
            assert(a[k] == b[k]);
        }
        lemma_lights_concat_congruent(a.drop_last(), b.drop_last());
        assert(a[a.len() - 1] == b[b.len() - 1]);
    }
}

/// The encoding is deterministic over scene values: two scenes that are
/// equal by [`scene_eq`] — as the change detection compares them — encode,
/// for the same derived camera vectors and output size, to byte-identical
/// objects, lights and configuration buffers.
pub proof fn lemma_encoding_deterministic(
    a: Scene,
    b: Scene,
    fru: (Vec3, Vec3, Vec3),
    width: u32,
    height: u32,
)
    requires
        scene_eq(a, b),
    ensures
        objects_buffer_bytes(a.objects@) == objects_buffer_bytes(b.objects@),
        lights_buffer_bytes(a.lights@) == lights_buffer_bytes(b.lights@),
        config_bytes(a, fru, width, height) == config_bytes(b, fru, width, height),
{
    lemma_objects_concat_congruent(a.objects@, b.objects@);
    lemma_lights_concat_congruent(a.lights@, b.lights@);
}

/// The spin flag drives the front end's orbit animation only: two scenes
/// that agree on everything else — whatever their `do_objects_spin` flags —
/// encode to byte-identical objects, lights and configuration buffers.
pub proof fn lemma_spin_flag_not_encoded(
    a: Scene,
    b: Scene,
    fru: (Vec3, Vec3, Vec3),
    width: u32,
    height: u32,
)
    requires
        a.camera == b.camera,
        a.objects@ == b.objects@,
        a.lights@ == b.lights@,
        a.background_colour == b.background_colour,
        a.ambient_light == b.ambient_light,
        a.reflection_limit == b.reflection_limit,
    ensures
        objects_buffer_bytes(a.objects@) == objects_buffer_bytes(b.objects@),
        lights_buffer_bytes(a.lights@) == lights_buffer_bytes(b.lights@),
        config_bytes(a, fru, width, height) == config_bytes(b, fru, width, height),
{
}

} // verus!
