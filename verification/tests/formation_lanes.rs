use crusade_roguelite::formation::{
    assign_lanes_in_order, lane_priority_key, ActiveFormation, FormationLane, LaneOffsetBuckets,
};
use crusade_roguelite::model::{PlayerFaction, UnitKind};

fn kind(id: &str) -> UnitKind {
    UnitKind::from_faction_and_unit_id(PlayerFaction::Christian, id, false).expect("unit should resolve")
}

fn ordered(mut members: Vec<(u32, UnitKind)>, formation: ActiveFormation) -> Vec<(u32, UnitKind)> {
    members.sort_by_key(|(id, kind)| (lane_priority_key(*kind, formation), *id));
    members
}

#[test]
fn lane_assignment_places_frontline_outer_and_support_inner() {
    let members = ordered(
        vec![(10, kind("peasant_infantry")), (11, kind("peasant_archer")), (12, kind("peasant_priest"))],
        ActiveFormation::Square,
    );
    let buckets = LaneOffsetBuckets::new(vec![(30.0f32, 0.0f32)], vec![(-30.0, 0.0)], vec![(0.0, 0.0)]);
    let assignments = assign_lanes_in_order(&members, ActiveFormation::Square, buckets, 1);
    let lane_of = |id: u32| assignments.iter().find(|(entity, _, _)| *entity == id).map(|(_, lane, _)| *lane);
    assert_eq!(lane_of(10), Some(FormationLane::Outer));
    assert_eq!(lane_of(11), Some(FormationLane::Middle));
    assert_eq!(lane_of(12), Some(FormationLane::Inner));
}

#[test]
fn lane_assignment_is_deterministic_for_identical_input() {
    let members = ordered(
        vec![
            (1, kind("peasant_infantry")),
            (2, kind("peasant_archer")),
            (3, kind("peasant_priest")),
            (4, kind("tracker")),
            (5, kind("squire")),
        ],
        ActiveFormation::Square,
    );
    let make = || LaneOffsetBuckets::new(vec![1u8, 2, 3], vec![4, 5], vec![6, 7, 8]);
    let first = assign_lanes_in_order(&members, ActiveFormation::Square, make(), 1);
    let second = assign_lanes_in_order(&members, ActiveFormation::Square, make(), 1);
    assert_eq!(first, second);
    assert_eq!(first.len(), 5);
}

#[test]
fn support_units_stay_off_the_outer_ring_while_inner_rings_have_room() {
    let members: Vec<(u32, UnitKind)> = (0..4).map(|i| (i, kind("divine_speaker"))).collect();
    let buckets = LaneOffsetBuckets::new(vec![1u8, 2, 3, 4], vec![5], vec![6]);
    let assignments = assign_lanes_in_order(&members, ActiveFormation::Square, buckets, 0);
    let lanes: Vec<FormationLane> = assignments.iter().map(|(_, lane, _)| *lane).collect();
    assert_eq!(lanes, vec![FormationLane::Inner, FormationLane::Middle, FormationLane::Outer, FormationLane::Outer]);
}

#[test]
fn placement_stops_when_the_rings_are_full() {
    let members: Vec<(u32, UnitKind)> = (0..5).map(|i| (i, kind("peasant_infantry"))).collect();
    let buckets = LaneOffsetBuckets::new(vec!['a'], vec!['b'], vec!['c']);
    let assignments = assign_lanes_in_order(&members, ActiveFormation::Loose, buckets, 3);
    assert_eq!(assignments.len(), 3);
    let ids: Vec<u32> = assignments.iter().map(|(id, _, _)| *id).collect();
    assert_eq!(ids, vec![0, 1, 2]);
    let mut offsets: Vec<char> = assignments.iter().map(|(_, _, offset)| *offset).collect();
    offsets.sort();
    assert_eq!(offsets, vec!['a', 'b', 'c']);
}

#[test]
fn buckets_pop_front_first_and_outermost_first() {
    let mut buckets = LaneOffsetBuckets::new(vec![1u8], vec![], vec![7u8, 8]);
    assert_eq!(buckets.outer_capacity(), 1);
    assert!(!buckets.lane_has_slots(FormationLane::Middle));
    assert_eq!(buckets.pop_lane(FormationLane::Inner), Some(7));
    assert_eq!(buckets.pop_any(), Some((FormationLane::Outer, 1)));
    assert_eq!(buckets.pop_any(), Some((FormationLane::Inner, 8)));
    assert_eq!(buckets.pop_any(), None);
    assert_eq!(buckets.outer_capacity(), 0);
}
