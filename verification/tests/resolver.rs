use raingun::resolver::{in_light, nearest_hit};

/// Order-embeds a non-negative double into the resolver's distance keys:
/// for non-negative IEEE doubles the raw bit pattern is order-preserving.
fn dist_key(d: f64) -> u64 {
    assert!(d >= 0.0);
    d.to_bits()
}

#[test]
fn tracing_an_empty_scene_misses() {
    let distances: Vec<Option<u64>> = Vec::new();
    assert_eq!(nearest_hit(&distances), None);
}

#[test]
fn tracing_misses_when_every_body_misses() {
    let distances: Vec<Option<u64>> = vec![None, None, None];
    assert_eq!(nearest_hit(&distances), None);
}

#[test]
fn tracing_selects_the_nearest_body() {
    let distances = vec![
        Some(dist_key(7.5)),
        None,
        Some(dist_key(3.25)),
        Some(dist_key(4.0)),
    ];
    assert_eq!(nearest_hit(&distances), Some((2, dist_key(3.25))));
}

#[test]
fn tracing_breaks_ties_toward_the_first_body() {
    let distances = vec![
        Some(dist_key(9.0)),
        Some(dist_key(2.5)),
        Some(dist_key(2.5)),
    ];
    assert_eq!(nearest_hit(&distances), Some((1, dist_key(2.5))));
}

#[test]
fn tracing_twice_yields_identical_results() {
    let distances = vec![
        Some(dist_key(1.5)),
        Some(dist_key(0.25)),
        None,
        Some(dist_key(12.0)),
    ];
    let first = nearest_hit(&distances);
    let second = nearest_hit(&distances);
    assert_eq!(first, second);
    assert_eq!(first, Some((1, dist_key(0.25))));
}

#[test]
fn a_hit_beyond_the_light_casts_no_shadow() {
    // The occluder sits 10 units out, the spherical light only 2.
    assert!(!in_light(Some(dist_key(2.0)), dist_key(10.0)));
    assert!(in_light(Some(dist_key(10.0)), dist_key(2.0)));
}

#[test]
fn shadow_occlusion_blocks_a_directional_light() {
    // A directional light lies at infinite distance, so any body the
    // shadow ray hits occludes it; with nothing in between the point is
    // lit.
    let infinite = dist_key(f64::INFINITY);
    assert!(!in_light(Some(dist_key(1.0)), infinite));
    assert!(in_light(None, infinite));
}
