//! The integer decisions of the recursive trace and of the render loop.
//!
//! Shading arithmetic is floating point and runs in the front end; what the
//! library decides is *whether* the trace recurses — from the sign of the
//! metallic factor, the current depth and the scene's bounce limit — and
//! which pixel a buffer index denotes.

use vstd::prelude::*;

verus! {

/// Whether the trace casts a reflection ray at a hit: only when the
/// material's metallic factor is positive and the depth is still under the
/// scene's bounce limit.
pub fn should_reflect(metallic_is_positive: bool, depth: u32, reflection_limit: u32) -> (r: bool)
    ensures
        r == (metallic_is_positive && depth < reflection_limit),
{
    metallic_is_positive && depth < reflection_limit
}

/// How many reflection bounces a trace starting at `depth` takes on a scene
/// where every ray hits a surface whose metallic factor is positive exactly
/// when `metallic_is_positive` holds: the recursion goes one level per
/// bounce until the limit cuts it off.
pub open spec fn max_bounces(metallic_is_positive: bool, depth: u32, reflection_limit: u32) -> nat
    decreases reflection_limit - depth,
{
    if metallic_is_positive && depth < reflection_limit {
        1 + max_bounces(metallic_is_positive, (depth + 1) as u32, reflection_limit)
    } else {
        0
    }
}

/// The number of bounces taken is the remaining budget: `limit - depth` on
/// a reflective scene, none on a non-reflective one.
pub proof fn lemma_max_bounces_exact(m: bool, depth: u32, limit: u32)
    ensures
        max_bounces(m, depth, limit) == if m && depth < limit {
            (limit - depth) as nat
        } else {
            0nat
        },
    decreases limit - depth,
{
    if m && depth < limit {
        lemma_max_bounces_exact(m, (depth + 1) as u32, limit);
    }
}

/// With a bounce limit of zero the trace never recurses, whatever the
/// metallic factor.
pub proof fn lemma_no_bounces_at_zero_limit(m: bool, depth: u32)
    ensures
        max_bounces(m, depth, 0) == 0,
{
}

/// Raising the bounce limit never lowers the number of bounces taken on a
/// fixed, fully reflective scene.
pub proof fn lemma_bounces_monotone_in_limit(m: bool, depth: u32, limit: u32)
    requires
        limit < u32::MAX,
    ensures
        max_bounces(m, depth, limit) <= max_bounces(m, depth, (limit + 1) as u32),
{
    lemma_max_bounces_exact(m, depth, limit);
    lemma_max_bounces_exact(m, depth, (limit + 1) as u32);
}

/// The pixel that a row-major buffer index denotes, as `(x, y)`.
pub fn pixel_coords(index: u32, width: u32) -> (r: (u32, u32))
    requires
        width > 0,
    ensures
        r.0 == index % width,
        r.1 == index / width,
        r.0 < width,
{
    (index % width, index / width)
}

} // verus!
