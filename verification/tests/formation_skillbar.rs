use crusade_roguelite::formation::{
    lane_orders_for_formation, lane_preference_for_unit, lane_priority_key, skill_for_formation, ActiveFormation,
    FormationLane, FormationSkillBar, SkillBarSkill, SkillBarSkillKind, SKILL_BAR_CAPACITY,
};
use crusade_roguelite::model::{PlayerFaction, UnitKind};

#[test]
fn skillbar_starts_with_square_in_first_slot_active() {
    let skillbar = FormationSkillBar::default();
    assert_eq!(skillbar.slots.len(), 1);
    assert_eq!(skillbar.active_slot, Some(0));
    assert!(skillbar.has_formation(ActiveFormation::Square));
}

#[test]
fn skillbar_add_and_activate_diamond() {
    let mut skillbar = FormationSkillBar::default();
    assert!(skillbar.try_add_formation(ActiveFormation::Diamond));
    let activated = skillbar.activate_slot(1);
    assert_eq!(activated, Some(SkillBarSkillKind::Formation(ActiveFormation::Diamond)));
    assert_eq!(skillbar.active_slot, Some(1));
}

#[test]
fn skillbar_rejects_duplicate_or_full_adds() {
    let mut skillbar = FormationSkillBar::default();
    assert!(!skillbar.try_add_formation(ActiveFormation::Square));

    skillbar.slots = (0..SKILL_BAR_CAPACITY)
        .map(|i| SkillBarSkill {
            id: format!("slot_{i}"),
            label: format!("Slot {i}"),
            kind: SkillBarSkillKind::Formation(ActiveFormation::Square),
        })
        .collect();
    assert!(skillbar.is_full());
    assert!(!skillbar.try_add_formation(ActiveFormation::Diamond));
}

#[test]
fn active_formation_ids_cover_all_runtime_formations() {
    let ids = [
        ("square", ActiveFormation::Square),
        ("circle", ActiveFormation::Circle),
        ("skean", ActiveFormation::Skean),
        ("diamond", ActiveFormation::Diamond),
        ("shield_wall", ActiveFormation::ShieldWall),
        ("loose", ActiveFormation::Loose),
    ];
    for (id, expected) in ids {
        assert_eq!(ActiveFormation::from_id(id), Some(expected));
    }
}

#[test]
fn skillbar_can_add_and_activate_all_formations() {
    let mut skillbar = FormationSkillBar::default();
    for formation in ActiveFormation::all() {
        if formation == ActiveFormation::Square {
            continue;
        }
        assert!(skillbar.try_add_formation(formation));
    }
    assert_eq!(skillbar.slots.len(), ActiveFormation::all().len());
    for (index, formation) in ActiveFormation::all().iter().enumerate() {
        let activated = skillbar.activate_slot(index);
        assert_eq!(activated, Some(SkillBarSkillKind::Formation(*formation)));
    }
}

#[test]
fn lane_preferences_are_trait_based_and_faction_agnostic() {
    let fixture_ids = [
        ("peasant_infantry", FormationLane::Outer),
        ("peasant_archer", FormationLane::Middle),
        ("peasant_priest", FormationLane::Inner),
        ("fanatic", FormationLane::Outer),
        ("tracker", FormationLane::Middle),
        ("scout", FormationLane::Middle),
        ("squire", FormationLane::Inner),
    ];

    for (unit_id, expected_lane) in fixture_ids {
        let christian = UnitKind::from_faction_and_unit_id(PlayerFaction::Christian, unit_id, false)
            .expect("christian unit should resolve");
        let muslim = UnitKind::from_faction_and_unit_id(PlayerFaction::Muslim, unit_id, false)
            .expect("muslim unit should resolve");
        assert_eq!(
            lane_preference_for_unit(christian, ActiveFormation::Square)[0],
            expected_lane,
            "unexpected christian lane for {unit_id}"
        );
        assert_eq!(
            lane_preference_for_unit(muslim, ActiveFormation::Square)[0],
            expected_lane,
            "unexpected muslim lane for {unit_id}"
        );
    }
}

#[test]
fn diamond_prefers_skirmisher_outer_while_square_prefers_middle() {
    let scout = UnitKind::from_faction_and_unit_id(PlayerFaction::Christian, "scout", false).expect("scout should resolve");
    assert_eq!(lane_preference_for_unit(scout, ActiveFormation::Square)[0], FormationLane::Middle);
    assert_eq!(lane_preference_for_unit(scout, ActiveFormation::Diamond)[0], FormationLane::Outer);
}

#[test]
fn tracker_and_support_lane_preferences_vary_by_formation_profile() {
    let tracker =
        UnitKind::from_faction_and_unit_id(PlayerFaction::Christian, "tracker", false).expect("tracker should resolve");
    let speaker = UnitKind::from_faction_and_unit_id(PlayerFaction::Christian, "divine_speaker", false)
        .expect("support hero should resolve");

    assert_eq!(lane_preference_for_unit(tracker, ActiveFormation::ShieldWall)[0], FormationLane::Middle);
    assert_eq!(lane_preference_for_unit(tracker, ActiveFormation::Skean)[0], FormationLane::Outer);
    assert_eq!(lane_preference_for_unit(speaker, ActiveFormation::Skean)[0], FormationLane::Middle);
    assert_eq!(lane_preference_for_unit(speaker, ActiveFormation::ShieldWall)[0], FormationLane::Inner);
}

#[test]
fn formation_ids_round_trip() {
    for formation in ActiveFormation::all() {
        assert_eq!(ActiveFormation::from_id(formation.id()), Some(formation));
    }
    assert_eq!(ActiveFormation::from_id("phalanx"), None);
}

#[test]
fn adding_a_formation_makes_it_activatable() {
    let mut skillbar = FormationSkillBar::default();
    assert!(skillbar.try_add_formation(ActiveFormation::Loose));
    assert!(skillbar.has_formation(ActiveFormation::Loose));
    let index = skillbar.slots.len() - 1;
    assert_eq!(skillbar.activate_slot(index), Some(SkillBarSkillKind::Formation(ActiveFormation::Loose)));
    assert_eq!(skillbar.activate_slot(index + 1), None);
    assert_eq!(skillbar.active_slot, Some(index));
}

#[test]
fn skill_for_formation_names_the_formation() {
    let skill = skill_for_formation(ActiveFormation::ShieldWall);
    assert_eq!(skill.kind, SkillBarSkillKind::Formation(ActiveFormation::ShieldWall));
    assert!(skill.id.contains("shield_wall"));
}

#[test]
fn lane_preferences_are_permutations_of_the_three_lanes() {
    for formation in ActiveFormation::all() {
        let orders = lane_orders_for_formation(formation);
        for order in [orders.support_order, orders.frontline_order, orders.ranged_order, orders.skirmisher_order] {
            assert!(order.contains(&FormationLane::Outer));
            assert!(order.contains(&FormationLane::Middle));
            assert!(order.contains(&FormationLane::Inner));
        }
        for kind in [UnitKind::ChristianPeasantInfantry, UnitKind::MuslimTracker, UnitKind::ChristianDivineSpeaker] {
            let order = lane_preference_for_unit(kind, formation);
            assert!(order.contains(&FormationLane::Outer));
            assert!(order.contains(&FormationLane::Middle));
            assert!(order.contains(&FormationLane::Inner));
        }
    }
}

#[test]
fn lane_priority_puts_frontline_outer_first() {
    let infantry = lane_priority_key(UnitKind::ChristianPeasantInfantry, ActiveFormation::Square);
    let priest = lane_priority_key(UnitKind::ChristianPeasantPriest, ActiveFormation::Square);
    assert_eq!(infantry, 0);
    assert!(priest > infantry);
}
