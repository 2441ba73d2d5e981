use crusade_roguelite::formation_overflow::overflow_indices_by_distance;

fn keys(distances_sq: &[f32]) -> Vec<u32> {
    distances_sq.iter().map(|distance_sq| distance_sq.to_bits()).collect()
}

#[test]
fn overflow_selection_keeps_outermost_inside_formation_cap() {
    let overflow = overflow_indices_by_distance(&keys(&[16.0, 4.0, 9.0, 1.0, 25.0]), 2);
    assert_eq!(overflow.len(), 3);
    assert!(overflow.contains(&1));
    assert!(overflow.contains(&2));
    assert!(overflow.contains(&3));
}

#[test]
fn overflow_lists_the_innermost_nearest_first_and_ties_by_order() {
    assert_eq!(overflow_indices_by_distance(&keys(&[16.0, 4.0, 9.0, 1.0, 25.0]), 2), vec![3, 1, 2]);
    assert_eq!(overflow_indices_by_distance(&keys(&[4.0, 4.0, 1.0, 4.0]), 1), vec![2, 0, 1]);
    assert!(overflow_indices_by_distance(&keys(&[4.0, 1.0]), 2).is_empty());
    assert!(overflow_indices_by_distance(&[], 0).is_empty());
    assert_eq!(overflow_indices_by_distance(&keys(&[9.0, 1.0]), 0), vec![1, 0]);
}
