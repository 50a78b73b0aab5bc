//! The recursion-depth guard of the shading pipeline.
//!
//! Shading a reflective or refractive hit casts further rays, and each such
//! cast re-enters shading one level deeper. The floating-point color math
//! happens outside this crate; what is verified here is the guard that
//! bounds the recursion: a cast at or beyond the scene's maximum recursion
//! depth does no tracing and falls back to the scene's default color, so a
//! chain of nested shading calls can never exceed that bound — even between
//! two facing mirrors of full reflectivity.

use vstd::prelude::*;

verus! {

/// May a cast at `depth` trace and shade, rather than fall back to the
/// scene's default color?
pub open spec fn recursion_permitted(depth: u32, max_recursion_depth: u32) -> bool {
    depth < max_recursion_depth
}

/// The guard a ray cast applies before tracing: at `depth` at or beyond
/// the scene's maximum the cast returns the default color instead.
pub fn may_recurse(depth: u32, max_recursion_depth: u32) -> (r: bool)
    ensures
        r == recursion_permitted(depth, max_recursion_depth),
{
    depth < max_recursion_depth
}

/// The termination measure of the shading recursion: how many more levels
/// a cast at `depth` may descend.
pub open spec fn remaining_depth(depth: u32, max_recursion_depth: u32) -> nat {
    if depth <= max_recursion_depth {
        (max_recursion_depth - depth) as nat
    } else {
        0
    }
}

/// Every permitted recursive cast strictly shrinks the termination
/// measure, so the shading recursion always bottoms out.
pub proof fn lemma_recursion_measure_decreases(depth: u32, max_recursion_depth: u32)
    requires
        recursion_permitted(depth, max_recursion_depth),
    ensures
        remaining_depth((depth + 1) as u32, max_recursion_depth) < remaining_depth(
            depth,
            max_recursion_depth,
        ),
{
}

/// The depth at position `i` of a chain of nested casts that starts at
/// depth zero is `i` itself.
proof fn lemma_chain_depth(depths: Seq<u32>, max_recursion_depth: u32, i: int)
    requires
        depths.len() >= 1,
        depths[0] == 0,
        forall|k: int| 0 <= k < depths.len() - 1 ==> (#[trigger] depths[k + 1]) as int == depths[k]
            + 1,
        0 <= i < depths.len(),
    ensures
        depths[i] as int == i,
    decreases i,
{
    if i > 0 {
        lemma_chain_depth(depths, max_recursion_depth, i - 1);
        assert(depths[(i - 1) + 1] as int == depths[i - 1] + 1);
    }
}

/// A chain of nested shading calls, each one entered only through the
/// depth guard, holds at most one call per permitted depth: starting from
/// depth zero it is never longer than the maximum recursion depth plus
/// the initial cast. In particular the recursion terminates, returning
/// the default color once the guard closes.
pub proof fn lemma_recursion_terminates(depths: Seq<u32>, max_recursion_depth: u32)
    requires
        depths.len() >= 1,
        depths[0] == 0,
        forall|k: int| 0 <= k < depths.len() - 1 ==> (#[trigger] depths[k + 1]) as int == depths[k]
            + 1,
        forall|k: int| 0 <= k < depths.len() - 1 ==> recursion_permitted(
            #[trigger] depths[k],
            max_recursion_depth,
        ),
    ensures
        depths.len() <= max_recursion_depth + 1,
{
    if depths.len() > max_recursion_depth + 1 {
        let last = depths.len() - 1;
        lemma_chain_depth(depths, max_recursion_depth, last - 1);
        assert(recursion_permitted(depths[last - 1], max_recursion_depth));
        assert(depths[last - 1] as int == last - 1);
        assert(last - 1 >= max_recursion_depth);
        assert(false);
    }
}

} // verus!
