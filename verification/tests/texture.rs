use raingun::texture::wrap_coordinate;

#[test]
fn coordinates_inside_the_image_stay_put() {
    assert_eq!(wrap_coordinate(0, 64), 0);
    assert_eq!(wrap_coordinate(17, 64), 17);
    assert_eq!(wrap_coordinate(63, 64), 63);
}

#[test]
fn coordinates_past_the_edge_wrap_around() {
    assert_eq!(wrap_coordinate(64, 64), 0);
    assert_eq!(wrap_coordinate(65, 64), 1);
    assert_eq!(wrap_coordinate(200, 64), 200 % 64);
}

#[test]
fn negative_coordinates_wrap_from_the_far_edge() {
    assert_eq!(wrap_coordinate(-1, 64), 63);
    assert_eq!(wrap_coordinate(-64, 64), 0);
    assert_eq!(wrap_coordinate(-65, 64), 63);
    assert_eq!(wrap_coordinate(i32::MIN, 64), (i32::MIN).rem_euclid(64) as u32);
}
