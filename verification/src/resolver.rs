//! The scene resolver: nearest-hit selection and the shadow test.
//!
//! A ray is traced by intersecting it with every body and keeping the
//! nearest hit. The per-body intersection distances are computed in
//! floating point outside this crate and handed in as *distance keys*:
//! `u64` values whose order is the order of the distances (for IEEE
//! doubles at non-negative distances the raw bit pattern is such an
//! order-preserving encoding). Keys give the selection a total order, so
//! the minimum below never needs a fallible comparison.

use vstd::prelude::*;

verus! {

/// What it means for `r` to be the nearest hit among the per-body
/// intersection outcomes `ds`: `r` is `None` exactly when no body was hit;
/// otherwise `r` carries the index of a hit body at minimal distance, and
/// no earlier body ties or beats it (the first encountered minimum wins).
pub open spec fn is_nearest_hit(ds: Seq<Option<u64>>, r: Option<(usize, u64)>) -> bool {
    match r {
        None => forall|j: int| 0 <= j < ds.len() ==> ds[j] is None,
        Some((i, d)) => {
            &&& i < ds.len()
            &&& ds[i as int] == Some(d)
            &&& forall|j: int| 0 <= j < ds.len() && ds[j] is Some ==> d <= (#[trigger] ds[j])->0
            &&& forall|j: int| 0 <= j < i ==> !((#[trigger] ds[j]) is Some && ds[j]->0 <= d)
        },
    }
}

/// Selects the nearest hit among the per-body intersection outcomes:
/// the body index and distance key of the closest hit, ties resolved in
/// favor of the first body encountered, or `None` when every body missed.
pub fn nearest_hit(distances: &Vec<Option<u64>>) -> (r: Option<(usize, u64)>)
    ensures
        is_nearest_hit(distances@, r),
{
    let ghost ds = distances@;
    let mut best: Option<(usize, u64)> = None;
    let mut j: usize = 0;
    while j < distances.len()
        invariant
            ds == distances@,
            j <= ds.len(),
            best is None ==> forall|k: int| 0 <= k < j ==> ds[k] is None,
            best is Some ==> (best->0).0 < j,
            best is Some ==> ds[(best->0).0 as int] == Some((best->0).1),
            best is Some ==> forall|k: int|
                0 <= k < j && ds[k] is Some ==> (best->0).1 <= (#[trigger] ds[k])->0,
            best is Some ==> forall|k: int|
                0 <= k < (best->0).0 ==> !((#[trigger] ds[k]) is Some && ds[k]->0 <= (best->0).1),
        decreases ds.len() - j,
    {
        if let Some(d) = distances[j] {
            best = match best {
                None => Some((j, d)),
                Some((bi, bd)) => if d < bd {
                    Some((j, d))
                } else {
                    Some((bi, bd))
                },
            };
        }
        j = j + 1;
    }
    best
}

/// Tracing is a function of the scene and the ray alone: any two outcomes
/// that are each a nearest hit over the same per-body distances are the
/// same outcome, so tracing the same ray against the same immutable scene
/// twice yields identical intersection results.
pub proof fn lemma_trace_deterministic(
    ds: Seq<Option<u64>>,
    r1: Option<(usize, u64)>,
    r2: Option<(usize, u64)>,
)
    requires
        is_nearest_hit(ds, r1),
        is_nearest_hit(ds, r2),
    ensures
        r1 == r2,
{
    match (r1, r2) {
        (Some((i1, d1)), Some((i2, d2))) => {
            assert(ds[i1 as int] == Some(d1));
            assert(ds[i2 as int] == Some(d2));
            assert(d1 <= d2);
            assert(d2 <= d1);
            if i1 < i2 {
                assert(!(ds[i1 as int] is Some && ds[i1 as int]->0 <= d2));
                assert(false);
            }
            if i2 < i1 {
                assert(!(ds[i2 as int] is Some && ds[i2 as int]->0 <= d1));
                assert(false);
            }
        },
        (Some((i1, d1)), None) => {
            assert(ds[i1 as int] is None);
            assert(false);
        },
        (None, Some((i2, d2))) => {
            assert(ds[i2 as int] is None);
            assert(false);
        },
        (None, None) => {},
    }
}

/// The shadow test of diffuse lighting: a hit point receives a light
/// exactly when the shadow ray toward the light either hits nothing or
/// hits only beyond the light itself. `shadow_hit` is the traced shadow
/// ray's nearest-hit distance key; `light_distance` is the key of the
/// light's own distance from the hit point (a directional light's is the
/// key of infinity, beyond every finite hit).
pub fn in_light(shadow_hit: Option<u64>, light_distance: u64) -> (r: bool)
    ensures
        r == (shadow_hit is None || shadow_hit->0 > light_distance),
{
    match shadow_hit {
        None => true,
        Some(d) => d > light_distance,
    }
}

} // verus!
