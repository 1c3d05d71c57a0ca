use raytrace::world::nearest_hit;

#[test]
fn no_candidates_means_the_ray_escapes() {
    assert_eq!(nearest_hit(&vec![], 0, 100), None);
}

#[test]
fn candidates_below_the_lower_bound_are_rejected() {
    assert_eq!(nearest_hit(&vec![1, 2, 3], 5, 100), None);
    assert_eq!(nearest_hit(&vec![-4, 2, 30, 7], 5, 100), Some(3));
}

#[test]
fn candidates_at_or_above_the_upper_bound_are_rejected() {
    assert_eq!(nearest_hit(&vec![100, 150], 0, 100), None);
    assert_eq!(nearest_hit(&vec![100, 99], 0, 100), Some(1));
}

#[test]
fn the_lower_bound_itself_counts() {
    assert_eq!(nearest_hit(&vec![9, 5], 5, 100), Some(1));
}

#[test]
fn nearest_of_several() {
    assert_eq!(nearest_hit(&vec![40, 12, 33, 12, 80], 10, 100), Some(1));
}

#[test]
fn equal_keys_resolve_to_the_first() {
    assert_eq!(nearest_hit(&vec![7, 7, 7], 0, 100), Some(0));
}

#[test]
fn repeated_queries_agree() {
    let keys = vec![i64::MAX, 3, i64::MIN, 3, 2];
    let first = nearest_hit(&keys, 1, i64::MAX);
    let second = nearest_hit(&keys, 1, i64::MAX);
    assert_eq!(first, Some(4));
    assert_eq!(first, second);
}

#[test]
fn listing_order_does_not_change_the_nearest_distance() {
    let keys = vec![50, 20, 90, 30];
    let shuffled = vec![90, 30, 50, 20];
    let a = nearest_hit(&keys, 0, 100).unwrap();
    let b = nearest_hit(&shuffled, 0, 100).unwrap();
    assert_eq!(keys[a], shuffled[b]);
    assert_eq!(keys[a], 20);
}

#[test]
fn from_inside_a_sphere_only_the_far_root_counts() {
    assert_eq!(nearest_hit(&vec![-30, 40], 1, 100), Some(1));
}
