use crusade_roguelite::archive::{validate_archive_entries, ArchiveCategory, ArchiveEntry, ArchiveEntryError};
use crusade_roguelite::map::{pseudo_hash, should_place_foliage_tile};
use crusade_roguelite::morale::{crossed_threshold_edges, MoraleThresholdDirection};

const MORALE_THRESHOLD_EDGES: [f32; 4] = [0.25, 0.50, 0.80, 1.00];

fn crossed_thresholds(from_bucket: u8, to_bucket: u8) -> Vec<(f32, MoraleThresholdDirection)> {
    crossed_threshold_edges(from_bucket, to_bucket)
        .into_iter()
        .map(|(index, direction)| (MORALE_THRESHOLD_EDGES[index], direction))
        .collect()
}

#[test]
fn foliage_placement_is_stable_and_sparse() {
    assert_eq!(should_place_foliage_tile(10, 22), should_place_foliage_tile(10, 22));
    let mut placed = 0;
    for y in 0..20 {
        for x in 0..20 {
            if should_place_foliage_tile(x, y) {
                placed += 1;
            }
        }
    }
    assert!(placed > 0);
    assert!(placed < 40);
}

#[test]
fn foliage_hash_rotates_the_mixed_coordinates() {
    for (x, y) in [(0i32, 0i32), (3, -7), (-1, -1), (i32::MAX, i32::MIN)] {
        let mixed = (x as u32).wrapping_mul(1_103_515_245).wrapping_add((y as u32).wrapping_mul(97_867_311));
        assert_eq!(pseudo_hash(x, y), mixed.rotate_left(11));
        assert_eq!(should_place_foliage_tile(x, y), mixed.rotate_left(11) % 29 == 0);
    }
}

#[test]
fn thresholds_emit_all_crossed_edges_in_direction_order() {
    let rising = crossed_thresholds(1, 4);
    assert_eq!(
        rising,
        vec![
            (0.50, MoraleThresholdDirection::Rising),
            (0.80, MoraleThresholdDirection::Rising),
            (1.00, MoraleThresholdDirection::Rising),
        ]
    );

    let falling = crossed_thresholds(4, 1);
    assert_eq!(
        falling,
        vec![
            (1.00, MoraleThresholdDirection::Falling),
            (0.80, MoraleThresholdDirection::Falling),
            (0.50, MoraleThresholdDirection::Falling),
        ]
    );
}

#[test]
fn crossing_back_gives_the_same_edges_reversed() {
    assert!(crossed_threshold_edges(2, 2).is_empty());
    let up = crossed_threshold_edges(0, 3);
    let down = crossed_threshold_edges(3, 0);
    assert_eq!(up.len(), down.len());
    for (k, (index, direction)) in up.iter().enumerate() {
        assert_eq!(*index, down[down.len() - 1 - k].0);
        assert_eq!(*direction, MoraleThresholdDirection::Rising);
        assert_eq!(down[k].1, MoraleThresholdDirection::Falling);
    }
    assert_eq!(crossed_threshold_edges(0, 9).len(), 4);
    assert_eq!(crossed_threshold_edges(200, 3), vec![(3, MoraleThresholdDirection::Falling)]);
}

#[test]
fn validator_rejects_empty_titles_or_descriptions() {
    let invalid = vec![ArchiveEntry {
        category: ArchiveCategory::Units,
        title: " ".to_string(),
        description: "x".to_string(),
    }];
    assert!(validate_archive_entries(&invalid).is_err());
}

#[test]
fn archive_validation_reports_the_first_problem() {
    assert_eq!(validate_archive_entries(&[]), Err(ArchiveEntryError::Empty));
    let entries = vec![
        ArchiveEntry { category: ArchiveCategory::Units, title: "Spearman".to_string(), description: "Holds".to_string() },
        ArchiveEntry { category: ArchiveCategory::Drops, title: "Chest".to_string(), description: "\t\n".to_string() },
        ArchiveEntry { category: ArchiveCategory::Skills, title: "".to_string(), description: "".to_string() },
    ];
    assert_eq!(validate_archive_entries(&entries), Err(ArchiveEntryError::EmptyDescription(1)));
    assert_eq!(validate_archive_entries(&entries[..1]), Ok(()));
    assert_eq!(validate_archive_entries(&entries[2..]), Err(ArchiveEntryError::EmptyTitle(0)));
}

#[test]
fn archive_categories_have_labels() {
    let labels: Vec<&str> = ArchiveCategory::all().iter().map(|category| category.label()).collect();
    assert_eq!(labels, vec!["Units", "Enemies", "Skills", "Stats", "Bonuses", "Drops"]);
}
