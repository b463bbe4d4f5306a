//! Change detection and progressive accumulation.
//!
//! The real-time path keeps the last submitted scene and output size.
//! Before uploading buffers it compares the current scene and size against
//! those copies: while nothing changed, the GPU accumulates samples across
//! frames and only a per-frame counter and jitter move; when something
//! changed, all three buffers are encoded anew and the counter resets.
//!
//! The GPU handles themselves (queues, bind groups, textures) belong to the
//! front end; this module owns the decision and the bytes.

use vstd::prelude::*;

use crate::bytes::{push_u32_le, push_zero_bytes, u32_le, zero_bytes, AsBytes};
use crate::scene::{config_bytes, lights_buffer_bytes, objects_buffer_bytes, scene_eq, Scene};
use crate::vec3::Vec3;

verus! {

/// Per-frame data for the progressive path: the sample jitter and the
/// number of frames accumulated since the scene last changed.
#[derive(Clone, Copy, Debug, PartialEq, Eq, Structural)]
pub struct FrameData {
    /// Horizontal jitter of this frame's samples (float bit pattern).
    pub jitter_x: u32,
    /// Vertical jitter of this frame's samples (float bit pattern).
    pub jitter_y: u32,
    /// How many frames in a row were drawn from an unchanged scene.
    pub progressive_count: u32,
}

/// The 16-byte encoding of the per-frame data: the jitter pair, the
/// counter, and four bytes of padding.
pub open spec fn frame_data_bytes(f: FrameData) -> Seq<u8> {
    u32_le(f.jitter_x) + u32_le(f.jitter_y) + u32_le(f.progressive_count) + zero_bytes(4)
}

impl FrameData {
    /// The size in bytes of the encoded per-frame data.
    pub const BUFFER_SIZE: usize = 16;

    /// Fresh per-frame data with the given jitter and nothing accumulated.
    pub fn new(jitter_x: u32, jitter_y: u32) -> (r: Self)
        ensures
            r == (FrameData { jitter_x, jitter_y, progressive_count: 0 }),
    {
        Self { jitter_x, jitter_y, progressive_count: 0 }
    }
}

impl AsBytes for FrameData {
    open spec fn spec_bytes(&self) -> Seq<u8> {
        frame_data_bytes(*self)
    }

    fn as_bytes(&self) -> (r: Vec<u8>) {
        let mut out: Vec<u8> = Vec::new();
        push_u32_le(&mut out, self.jitter_x);
        push_u32_le(&mut out, self.jitter_y);
        push_u32_le(&mut out, self.progressive_count);
        push_zero_bytes(&mut out, 4);
        assert(out@ =~= frame_data_bytes(*self));
        out
    }
}

/// Whether the scene or the output size moved since the last upload.
pub open spec fn upload_needed(
    scene: Scene,
    size: (u32, u32),
    last_scene: Scene,
    last_size: (u32, u32),
) -> bool {
    !scene_eq(scene, last_scene) || size != last_size
}

/// The library-side state of the connection to the GPU pipeline: the last
/// submitted scene and output size, and the per-frame data.
pub struct Connection {
    /// The scene the buffers were last encoded from.
    pub last_scene: Scene,
    /// The output size the buffers were last encoded for.
    pub last_size: (u32, u32),
    /// The per-frame jitter and accumulation counter.
    pub frame_data: FrameData,
}

impl Connection {
    /// A connection that remembers `scene` and no size, so that the first
    /// update encodes the buffers.
    pub fn new(scene: &Scene) -> (r: Self)
        ensures
            scene_eq(r.last_scene, *scene),
            r.last_size == (0u32, 0u32),
            r.frame_data == (FrameData { jitter_x: 0, jitter_y: 0, progressive_count: 0 }),
    {
        Self {
            last_scene: scene.clone(),
            last_size: (0, 0),
            frame_data: FrameData::new(0, 0),
        }
    }

    /// One frame's bookkeeping. If the scene or the output size moved since
    /// the last call, returns the three freshly encoded buffers — objects,
    /// lights, configuration — and resets the accumulation counter;
    /// otherwise returns nothing and the counter grows by one (it stops at
    /// its maximum rather than wrap). The jitter is replaced either way.
    ///
    /// `fru` is the camera's derived forward, right and up vectors, and
    /// `jitter` the bit patterns of this frame's sample offsets; both come
    /// from the front end's floating-point side.
    pub fn update_buffers(
        &mut self,
        size: (u32, u32),
        scene: &Scene,
        fru: (Vec3, Vec3, Vec3),
        jitter: (u32, u32),
    ) -> (r: Option<(Vec<u8>, Vec<u8>, Vec<u8>)>)
        ensures
            r is Some <==> upload_needed(*scene, size, old(self).last_scene, old(self).last_size),
            r is Some ==> {
                let b = r->0;
                &&& b.0@ == objects_buffer_bytes(scene.objects@)
                &&& b.1@ == lights_buffer_bytes(scene.lights@)
                &&& b.2@ == config_bytes(*scene, fru, size.0, size.1)
                &&& final(self).frame_data.progressive_count == 0
            },
            r is None ==> final(self).frame_data.progressive_count == (
                if old(self).frame_data.progressive_count == u32::MAX {
                    u32::MAX
                } else {
                    (old(self).frame_data.progressive_count + 1) as u32
                }
            ),
            scene_eq(final(self).last_scene, *scene),
            final(self).last_size == size,
            final(self).frame_data.jitter_x == jitter.0,
            final(self).frame_data.jitter_y == jitter.1,
    {
        let same_scene = self.last_scene == *scene;
        let changed = !same_scene || !(size.0 == self.last_size.0 && size.1 == self.last_size.1);
        let r = if changed {
            let buffers = scene.as_bytes(size.0, size.1, fru);
            self.last_scene = scene.clone();
            self.last_size = size;
            self.frame_data.progressive_count = 0;
            Some(buffers)
        } else {
            if self.frame_data.progressive_count < u32::MAX {
                self.frame_data.progressive_count = self.frame_data.progressive_count + 1;
            }
            None
        };
        self.frame_data.jitter_x = jitter.0;
        self.frame_data.jitter_y = jitter.1;
        r
    }
}

} // verus!
