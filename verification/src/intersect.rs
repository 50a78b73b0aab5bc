//! The decision cores of the primitive intersection tests.
//!
//! Each primitive's intersection routine first derives a handful of scalar
//! quantities from the ray and the shape (projections, slab boundaries,
//! candidate root distances) in floating point, outside this crate, and then
//! decides from comparisons among them whether the ray hits and at which
//! distance. Those decisions are what is verified here. As in the resolver,
//! every scalar arrives as a *distance key*: a `u64` whose order is the
//! order of the underlying values, with the key of a value also passed in
//! where a comparison against that value is part of the decision (`zero`
//! for sign tests, `epsilon` for the plane's parallel test).

use vstd::prelude::*;

verus! {

/// The sphere test's decision: reject when the ray's perpendicular
/// distance to the center exceeds the radius (both squared); otherwise
/// report the nearer of the two quadratic roots that is not behind the
/// ray's origin, and reject when both roots are.
pub open spec fn spec_sphere_hit(
    opposite_squared: u64,
    radius_squared: u64,
    root0: u64,
    root1: u64,
    zero: u64,
) -> Option<u64> {
    if opposite_squared > radius_squared {
        None
    } else if root0 < zero && root1 < zero {
        None
    } else if root0 < zero {
        Some(root1)
    } else if root1 < zero {
        Some(root0)
    } else if root0 <= root1 {
        Some(root0)
    } else {
        Some(root1)
    }
}

/// Decides the sphere intersection from its derived scalars.
pub fn sphere_hit(
    opposite_squared: u64,
    radius_squared: u64,
    root0: u64,
    root1: u64,
    zero: u64,
) -> (r: Option<u64>)
    ensures
        r == spec_sphere_hit(opposite_squared, radius_squared, root0, root1, zero),
{
    if opposite_squared > radius_squared {
        return None;
    }
    if root0 < zero && root1 < zero {
        None
    } else if root0 < zero {
        Some(root1)
    } else if root1 < zero {
        Some(root0)
    } else if root0 <= root1 {
        Some(root0)
    } else {
        Some(root1)
    }
}

/// A ray that passes the sphere wider than its radius never hits; a ray
/// that reaches the sphere is reported at the smallest root not behind
/// the origin, and only a ray whose roots both lie behind the origin
/// (one pointing away from the sphere) is rejected.
pub proof fn lemma_sphere_hit_properties(
    opposite_squared: u64,
    radius_squared: u64,
    root0: u64,
    root1: u64,
    zero: u64,
)
    ensures
        opposite_squared > radius_squared ==> spec_sphere_hit(
            opposite_squared,
            radius_squared,
            root0,
            root1,
            zero,
        ) is None,
        ({
            let r = spec_sphere_hit(opposite_squared, radius_squared, root0, root1, zero);
            r is Some ==> r->0 >= zero && (r->0 == root0 || r->0 == root1) && (root0 >= zero
                ==> r->0 <= root0) && (root1 >= zero ==> r->0 <= root1)
        }),
        opposite_squared <= radius_squared && (root0 >= zero || root1 >= zero)
            ==> spec_sphere_hit(opposite_squared, radius_squared, root0, root1, zero) is Some,
{
}

/// The plane test's decision: a hit exactly when the ray approaches the
/// plane's front side steeply enough (denominator above the parallel
/// threshold) at a distance not behind the origin.
pub open spec fn spec_plane_hit(
    denominator: u64,
    epsilon: u64,
    distance: u64,
    zero: u64,
) -> Option<u64> {
    if denominator > epsilon && distance >= zero {
        Some(distance)
    } else {
        None
    }
}

/// Decides the plane intersection from its derived scalars.
pub fn plane_hit(denominator: u64, epsilon: u64, distance: u64, zero: u64) -> (r: Option<u64>)
    ensures
        r == spec_plane_hit(denominator, epsilon, distance, zero),
{
    if denominator > epsilon {
        if distance >= zero {
            return Some(distance);
        }
    }
    None
}

/// Planes are one-sided: a ray parallel to the plane, or approaching it
/// from the back face, has its denominator at or below the threshold and
/// never intersects; any reported hit lies at the derived distance, not
/// behind the origin.
pub proof fn lemma_plane_one_sided(denominator: u64, epsilon: u64, distance: u64, zero: u64)
    ensures
        denominator <= epsilon ==> spec_plane_hit(denominator, epsilon, distance, zero) is None,
        ({
            let r = spec_plane_hit(denominator, epsilon, distance, zero);
            r is Some ==> r->0 == distance && distance >= zero && denominator > epsilon
        }),
{
}

/// The disk test's decision: the plane decision, additionally rejecting
/// hit points farther from the disk's origin than its radius.
pub open spec fn spec_disk_hit(
    denominator: u64,
    epsilon: u64,
    distance: u64,
    zero: u64,
    center_distance: u64,
    radius: u64,
) -> Option<u64> {
    if denominator > epsilon && distance >= zero && center_distance < radius {
        Some(distance)
    } else {
        None
    }
}

/// Decides the disk intersection from its derived scalars.
pub fn disk_hit(
    denominator: u64,
    epsilon: u64,
    distance: u64,
    zero: u64,
    center_distance: u64,
    radius: u64,
) -> (r: Option<u64>)
    ensures
        r == spec_disk_hit(denominator, epsilon, distance, zero, center_distance, radius),
{
    if denominator > epsilon {
        if distance >= zero {
            if center_distance < radius {
                return Some(distance);
            }
        }
    }
    None
}

/// A disk hits only where its plane hits, and never beyond its rim.
pub proof fn lemma_disk_within_plane(
    denominator: u64,
    epsilon: u64,
    distance: u64,
    zero: u64,
    center_distance: u64,
    radius: u64,
)
    ensures
        ({
            let r = spec_disk_hit(denominator, epsilon, distance, zero, center_distance, radius);
            &&& r is Some ==> r == spec_plane_hit(denominator, epsilon, distance, zero)
            &&& center_distance >= radius ==> r is None
            &&& spec_plane_hit(denominator, epsilon, distance, zero) is None ==> r is None
        }),
{
}

/// The box test's decision: the slab method. The ray's parameter interval
/// is clipped against the x, y and z slabs in turn; an empty intersection
/// at any step rejects. Of the final interval the entry distance is
/// reported, falling back to the exit distance when the entry lies behind
/// the origin (the origin inside the box), and rejecting when both do.
pub open spec fn spec_aabb_clip(
    tx_min: u64,
    tx_max: u64,
    ty_min: u64,
    ty_max: u64,
    tz_min: u64,
    tz_max: u64,
    zero: u64,
) -> Option<u64> {
    if tx_min > ty_max || ty_min > tx_max {
        None
    } else {
        let t_min = if ty_min > tx_min { ty_min } else { tx_min };
        let t_max = if ty_max < tx_max { ty_max } else { tx_max };
        if t_min > tz_max || tz_min > t_max {
            None
        } else {
            let t_min2 = if tz_min > t_min { tz_min } else { t_min };
            let t_max2 = if tz_max < t_max { tz_max } else { t_max };
            if t_min2 >= zero {
                Some(t_min2)
            } else if t_max2 >= zero {
                Some(t_max2)
            } else {
                None
            }
        }
    }
}

/// Decides the box intersection from its six slab boundaries.
pub fn aabb_clip(
    tx_min: u64,
    tx_max: u64,
    ty_min: u64,
    ty_max: u64,
    tz_min: u64,
    tz_max: u64,
    zero: u64,
) -> (r: Option<u64>)
    ensures
        r == spec_aabb_clip(tx_min, tx_max, ty_min, ty_max, tz_min, tz_max, zero),
{
    let mut t_min = tx_min;
    let mut t_max = tx_max;

    if t_min > ty_max || ty_min > t_max {
        return None;
    }
    if ty_min > t_min {
        t_min = ty_min;
    }
    if ty_max < t_max {
        t_max = ty_max;
    }

    if t_min > tz_max || tz_min > t_max {
        return None;
    }
    if tz_min > t_min {
        t_min = tz_min;
    }
    if tz_max < t_max {
        t_max = tz_max;
    }

    if t_min >= zero {
        Some(t_min)
    } else if t_max >= zero {
        Some(t_max)
    } else {
        None
    }
}

/// A reported box hit is never behind the ray's origin, and is one of the
/// six slab boundaries.
pub proof fn lemma_aabb_clip_properties(
    tx_min: u64,
    tx_max: u64,
    ty_min: u64,
    ty_max: u64,
    tz_min: u64,
    tz_max: u64,
    zero: u64,
)
    ensures
        ({
            let r = spec_aabb_clip(tx_min, tx_max, ty_min, ty_max, tz_min, tz_max, zero);
            r is Some ==> r->0 >= zero && (r->0 == tx_min || r->0 == tx_max || r->0 == ty_min
                || r->0 == ty_max || r->0 == tz_min || r->0 == tz_max)
        }),
{
}

/// The box normal's axis selection: of the three per-axis face distances
/// the smallest wins, earlier axes on ties, mirroring the renderer's
/// running-minimum scan seeded with `initial` (the largest representable
/// distance). `None` only when no distance undercuts the seed.
pub open spec fn spec_box_face_axis(dx: u64, dy: u64, dz: u64, initial: u64) -> Option<usize> {
    let axis_x = if dx < initial { Some(0usize) } else { None };
    let min_x = if dx < initial { dx } else { initial };
    let axis_y = if dy < min_x { Some(1usize) } else { axis_x };
    let min_y = if dy < min_x { dy } else { min_x };
    if dz < min_y {
        Some(2usize)
    } else {
        axis_y
    }
}

/// Selects the axis of the box face a hit point lies on.
pub fn box_face_axis(dx: u64, dy: u64, dz: u64, initial: u64) -> (r: Option<usize>)
    ensures
        r == spec_box_face_axis(dx, dy, dz, initial),
{
    let mut min = initial;
    let mut axis: Option<usize> = None;
    if dx < min {
        min = dx;
        axis = Some(0);
    }
    if dy < min {
        min = dy;
        axis = Some(1);
    }
    if dz < min {
        axis = Some(2);
    }
    axis
}

} // verus!
