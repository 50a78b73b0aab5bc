use cgmath::InnerSpace;
use raingun::intersect::sphere_hit;
use raingun::resolver::{in_light, nearest_hit};

type Vector3 = cgmath::Vector3<f64>;

/// Order-embeds a double into a distance key, as the renderer does before
/// handing distances to the verified selection logic.
fn scene_key(x: f64) -> u64 {
    let b = x.to_bits();
    if b & 0x8000_0000_0000_0000 != 0 {
        !b
    } else {
        b | 0x8000_0000_0000_0000
    }
}

/// The camera ray of pixel (x, y), exactly as the renderer derives it:
/// sensor plane at z = -1, adjusted for aspect ratio and field of view.
fn prime_ray_direction(x: u32, y: u32, fov: f64, width: u32, height: u32) -> Vector3 {
    assert!(width >= height);
    let aspect_ratio = width as f64 / height as f64;
    let fov_adjustment = (fov.to_radians() / 2.0).tan();
    let sensor_x = (((x as f64 + 0.5) / width as f64) * 2.0 - 1.0) * aspect_ratio * fov_adjustment;
    let sensor_y = (1.0 - ((y as f64 + 0.5) / height as f64) * 2.0) * fov_adjustment;
    Vector3::new(sensor_x, sensor_y, -1.0).normalize()
}

/// The sphere intersection of a camera ray from the origin, through the
/// verified decision core.
fn trace_sphere(direction: Vector3, center: Vector3, radius: f64) -> Option<u64> {
    let hypothenuse = center;
    let adjacent = hypothenuse.dot(direction);
    let opposite_squared = hypothenuse.dot(hypothenuse) - adjacent * adjacent;
    let radius_squared = radius * radius;
    let thickness = (radius_squared - opposite_squared).max(0.0).sqrt();
    sphere_hit(
        scene_key(opposite_squared),
        scene_key(radius_squared),
        scene_key(adjacent - thickness),
        scene_key(adjacent + thickness),
        scene_key(0.0),
    )
}

#[test]
fn center_pixel_hits_the_sphere_and_corners_miss() {
    // A 100x100 render with a 90 degree field of view of a single
    // radius-1 diffuse sphere at (0, 0, -5): the center pixel's ray hits
    // it, the corner pixel's ray misses every body and keeps the default
    // color.
    let center = Vector3::new(0.0, 0.0, -5.0);

    let center_ray = prime_ray_direction(50, 50, 90.0, 100, 100);
    let center_distances = vec![trace_sphere(center_ray, center, 1.0)];
    let center_hit = nearest_hit(&center_distances);
    assert!(center_hit.is_some());
    let (body_index, distance) = center_hit.unwrap();
    assert_eq!(body_index, 0);
    // The hit lies just inside 4 units out (the sphere's near surface).
    assert!(distance >= scene_key(3.9) && distance <= scene_key(4.1));

    let corner_ray = prime_ray_direction(0, 0, 90.0, 100, 100);
    let corner_distances = vec![trace_sphere(corner_ray, center, 1.0)];
    assert_eq!(nearest_hit(&corner_distances), None);
}

#[test]
fn occluded_sphere_gets_no_light() {
    // A diffuse sphere shaded under a single directional light, with an
    // opaque body 1 unit along the shadow ray: the shadow test reports
    // the point occluded, so the light contributes zero intensity.
    let shadow_hit = Some(scene_key(1.0));
    let light_distance = scene_key(f64::INFINITY);
    assert!(!in_light(shadow_hit, light_distance));
}
