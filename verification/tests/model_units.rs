use crusade_roguelite::model::{
    level_cap_from_locked_budget, PlayerFaction, RecruitArchetype, RecruitUnitKind, UnitArmorClass, UnitKind,
    UnitRoleTag,
};

#[test]
fn recruit_unit_kind_maps_from_friendly_unit_kind() {
    assert_eq!(
        UnitKind::ChristianPeasantInfantry.as_recruit_unit_kind(),
        Some(RecruitUnitKind::from_faction_and_archetype(PlayerFaction::Christian, RecruitArchetype::Infantry))
    );
    assert_eq!(
        UnitKind::MuslimPeasantArcher.as_recruit_unit_kind(),
        Some(RecruitUnitKind::from_faction_and_archetype(PlayerFaction::Muslim, RecruitArchetype::Archer))
    );
    assert_eq!(UnitKind::Commander.as_recruit_unit_kind(), None);
    assert_eq!(UnitKind::RescuableChristianPeasantPriest.as_recruit_unit_kind(), None);
}

#[test]
fn recruit_kind_resolvers_are_faction_and_unit_id_driven() {
    for faction in PlayerFaction::all() {
        for archetype in [RecruitArchetype::Infantry, RecruitArchetype::Archer, RecruitArchetype::Priest] {
            let recruit = RecruitUnitKind::from_faction_and_archetype(faction, archetype);
            let unit = recruit.as_unit_kind();
            let rescuable = recruit.as_rescuable_unit_kind();

            assert_eq!(unit.faction(), Some(faction));
            assert_eq!(unit.unit_id(), recruit.unit_id());
            assert!(!unit.is_rescuable_variant());
            assert_eq!(rescuable.faction(), Some(faction));
            assert_eq!(rescuable.unit_id(), recruit.unit_id());
            assert!(rescuable.is_rescuable_variant());
        }
    }
}

#[test]
fn unit_ref_contract_is_generic_and_faction_scoped() {
    let christian = UnitKind::ChristianPeasantInfantry.as_unit_ref();
    assert_eq!(christian.unit_id, "peasant_infantry");
    assert_eq!(christian.faction, Some(PlayerFaction::Christian));
    assert!(!christian.rescuable);

    let muslim = UnitKind::MuslimPeasantInfantry.as_unit_ref();
    assert_eq!(muslim.unit_id, "peasant_infantry");
    assert_eq!(muslim.faction, Some(PlayerFaction::Muslim));
    assert!(!muslim.rescuable);

    let rescuable = UnitKind::RescuableMuslimPeasantInfantry.as_unit_ref();
    assert_eq!(rescuable.unit_id, "peasant_infantry");
    assert_eq!(rescuable.faction, Some(PlayerFaction::Muslim));
    assert!(rescuable.rescuable);
}

#[test]
fn unit_identity_helpers_resolve_shared_lineage_tags() {
    assert!(UnitKind::ChristianTracker.is_tracker_line());
    assert!(UnitKind::MuslimTracker.is_tracker_line());
    assert!(UnitKind::ChristianShockCavalry.is_scout_line());
    assert!(UnitKind::MuslimDivineJudge.is_fanatic_line());
    assert!(UnitKind::ChristianDevoted.is_support_priest_line());
    assert!(UnitKind::ChristianDivineJudge.is_priest_family_line());
    assert!(UnitKind::MuslimPeasantInfantry.is_block_infantry_line());
    assert!(UnitKind::MuslimPeasantInfantry.has_shielded_trait());
    assert!(!UnitKind::MuslimSpearman.has_shielded_trait());
    assert!(UnitKind::ChristianEliteLongbowman.is_archer_line());
    assert_eq!(UnitKind::ChristianBowman.tier_hint(), Some(1));
    assert_eq!(UnitKind::MuslimEliteShockCavalry.tier_hint(), Some(5));
    assert_eq!(UnitKind::RescuableChristianPeasantInfantry.tier_hint(), None);
}

#[test]
fn unit_role_tags_and_armor_classes_are_faction_agnostic() {
    let anti_cavalry = UnitKind::from_faction_and_unit_id(PlayerFaction::Christian, "armored_halberdier", false)
        .expect("christian anti-cavalry should resolve");
    let cavalry = UnitKind::from_faction_and_unit_id(PlayerFaction::Muslim, "elite_shock_cavalry", false)
        .expect("muslim cavalry should resolve");
    let anti_armor = UnitKind::from_faction_and_unit_id(PlayerFaction::Christian, "siege_crossbowman", false)
        .expect("anti-armor should resolve");
    let support = UnitKind::from_faction_and_unit_id(PlayerFaction::Muslim, "divine_speaker", false)
        .expect("support should resolve");

    assert!(anti_cavalry.has_role_tag(UnitRoleTag::AntiCavalry));
    assert!(anti_cavalry.has_role_tag(UnitRoleTag::AntiArmor));
    assert!(anti_cavalry.has_role_tag(UnitRoleTag::HeroDoctrine));
    assert_eq!(anti_cavalry.armor_class(), UnitArmorClass::Heavy);

    assert!(cavalry.has_role_tag(UnitRoleTag::Cavalry));
    assert!(cavalry.has_role_tag(UnitRoleTag::HeroDoctrine));
    assert_eq!(cavalry.armor_class(), UnitArmorClass::Armored);

    assert!(anti_armor.has_role_tag(UnitRoleTag::AntiArmor));
    assert_eq!(anti_armor.armor_class(), UnitArmorClass::Armored);

    assert!(support.has_role_tag(UnitRoleTag::Support));
    assert!(support.has_role_tag(UnitRoleTag::HeroDoctrine));
    assert_eq!(support.armor_class(), UnitArmorClass::Light);
}

#[test]
fn unit_kind_resolver_supports_generic_unit_ids_with_faction_context() {
    let christian = UnitKind::from_faction_and_unit_id(PlayerFaction::Christian, "pathfinder", false);
    let muslim = UnitKind::from_faction_and_unit_id(PlayerFaction::Muslim, "pathfinder", false);
    let rescuable = UnitKind::from_faction_and_unit_id(PlayerFaction::Muslim, "peasant_archer", true);

    assert_eq!(christian, Some(UnitKind::ChristianPathfinder));
    assert_eq!(muslim, Some(UnitKind::MuslimPathfinder));
    assert_eq!(rescuable, Some(UnitKind::RescuableMuslimPeasantArcher));

    assert!(UnitKind::from_faction_and_unit_id(PlayerFaction::Christian, "unknown_unit", false).is_none());
    assert!(UnitKind::from_faction_and_unit_id(PlayerFaction::Christian, "tracker", true).is_none());
}

#[test]
fn every_unit_id_resolves_back_to_its_kind() {
    for faction in PlayerFaction::all() {
        for id in ["peasant_infantry", "pathfinder", "divine_judge", "elite_shock_cavalry", "tracker"] {
            let kind = UnitKind::from_faction_and_unit_id(faction, id, false).expect("known id");
            assert_eq!(kind.unit_id(), id);
            assert_eq!(kind.faction(), Some(faction));
            assert_eq!(UnitKind::from_faction_and_unit_id(faction, kind.unit_id(), false), Some(kind));
        }
    }
}

#[test]
fn factions_oppose_each_other() {
    assert_eq!(PlayerFaction::Christian.opposing(), PlayerFaction::Muslim);
    assert_eq!(PlayerFaction::Muslim.opposing(), PlayerFaction::Christian);
    for faction in PlayerFaction::all() {
        assert_eq!(faction.opposing().opposing(), faction);
    }
}

#[test]
fn locked_level_budget_lowers_the_level_cap() {
    assert_eq!(level_cap_from_locked_budget(0), 100);
    assert_eq!(level_cap_from_locked_budget(30), 70);
    assert_eq!(level_cap_from_locked_budget(100), 0);
    assert_eq!(level_cap_from_locked_budget(250), 0);
}
