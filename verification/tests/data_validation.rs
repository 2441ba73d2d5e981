use crusade_roguelite::data::{
    enemy_profile_key_for_kind, opposing_enemy_pool,
    default_start_faction_key, deprecated_upgrade_replacement, is_supported_faction_key, is_supported_formation_id,
    parse_faction_override_key, tier2_config_key_for_kind, validate_enemy_tier_pool_ids, validate_enemy_tier_pools,
    EnemyTierPoolTierConfig, EnemyTierPoolsConfigFile, TierPoolError, TierPoolIdProblem,
};
use crusade_roguelite::model::{PlayerFaction, RecruitArchetype, UnitKind};

fn ids(list: &[&str]) -> Vec<String> {
    list.iter().map(|id| id.to_string()).collect()
}

fn tier_entry(tier: u8, melee: &str, ranged: &str, support: &str) -> EnemyTierPoolTierConfig {
    EnemyTierPoolTierConfig { tier, melee: ids(&[melee]), ranged: ids(&[ranged]), support: ids(&[support]) }
}

pub fn full_tier_pools() -> EnemyTierPoolsConfigFile {
    EnemyTierPoolsConfigFile {
        tiers: vec![
            tier_entry(0, "peasant_infantry", "peasant_archer", "peasant_priest"),
            tier_entry(1, "men_at_arms", "bowman", "devoted"),
            tier_entry(2, "shield_infantry", "experienced_bowman", "devoted_one"),
            tier_entry(3, "experienced_shield_infantry", "elite_bowman", "cardinal"),
            tier_entry(4, "elite_shield_infantry", "longbowman", "elite_cardinal"),
            tier_entry(5, "citadel_guard", "elite_longbowman", "divine_speaker"),
        ],
    }
}

#[test]
fn tier2_tuning_key_uses_faction_prefix_plus_generic_unit_id() {
    let christian = UnitKind::from_faction_and_unit_id(PlayerFaction::Christian, "shield_infantry", false)
        .expect("christian tier2 kind");
    let muslim =
        UnitKind::from_faction_and_unit_id(PlayerFaction::Muslim, "shield_infantry", false).expect("muslim tier2 kind");
    let tier1 = UnitKind::from_faction_and_unit_id(PlayerFaction::Christian, "men_at_arms", false).expect("tier1 kind");

    assert_eq!(tier2_config_key_for_kind(christian).as_deref(), Some("christian_shield_infantry"));
    assert_eq!(tier2_config_key_for_kind(muslim).as_deref(), Some("muslim_shield_infantry"));
    assert!(tier2_config_key_for_kind(tier1).is_none());
}

#[test]
fn faction_key_helpers_follow_player_faction_registry() {
    for faction in PlayerFaction::all() {
        assert!(is_supported_faction_key(faction.config_key()));
        assert!(is_supported_faction_key(&faction.config_key().to_ascii_uppercase()));
    }
    assert!(!is_supported_faction_key("unknown_faction"));
    assert_eq!(default_start_faction_key(), PlayerFaction::default().config_key());
}

#[test]
fn rejects_enemy_tier_pools_without_all_required_tiers() {
    let config = EnemyTierPoolsConfigFile {
        tiers: vec![tier_entry(0, "peasant_infantry", "peasant_archer", "peasant_priest")],
    };
    assert_eq!(validate_enemy_tier_pools(&config), Err(TierPoolError::MissingTier(1)));
}

#[test]
fn accepts_complete_tier_pools() {
    assert_eq!(validate_enemy_tier_pools(&full_tier_pools()), Ok(()));
}

#[test]
fn rejects_empty_tier_pools() {
    let config = EnemyTierPoolsConfigFile { tiers: vec![] };
    assert_eq!(validate_enemy_tier_pools(&config), Err(TierPoolError::NoTiers));
}

#[test]
fn rejects_out_of_range_and_duplicate_tiers() {
    let mut config = full_tier_pools();
    config.tiers.push(tier_entry(6, "citadel_guard", "elite_longbowman", "divine_speaker"));
    assert_eq!(validate_enemy_tier_pools(&config), Err(TierPoolError::TierOutOfRange(6)));

    let mut config = full_tier_pools();
    config.tiers.push(tier_entry(2, "shield_infantry", "experienced_bowman", "devoted_one"));
    assert_eq!(validate_enemy_tier_pools(&config), Err(TierPoolError::DuplicateTier(2)));
}

#[test]
fn rejects_pool_ids_of_the_wrong_tier_role_or_name() {
    assert_eq!(
        validate_enemy_tier_pool_ids(1, RecruitArchetype::Infantry, &ids(&["men_at_arms", "citadel_guard"])),
        Err(TierPoolError::BadUnitId {
            tier: 1,
            archetype: RecruitArchetype::Infantry,
            index: 1,
            faction: PlayerFaction::Christian,
            problem: TierPoolIdProblem::TierMismatch(Some(5)),
        })
    );
    assert_eq!(
        validate_enemy_tier_pool_ids(1, RecruitArchetype::Archer, &ids(&["men_at_arms"])),
        Err(TierPoolError::BadUnitId {
            tier: 1,
            archetype: RecruitArchetype::Archer,
            index: 0,
            faction: PlayerFaction::Christian,
            problem: TierPoolIdProblem::WrongArchetype,
        })
    );
    assert_eq!(
        validate_enemy_tier_pool_ids(0, RecruitArchetype::Priest, &ids(&["goblin"])),
        Err(TierPoolError::BadUnitId {
            tier: 0,
            archetype: RecruitArchetype::Priest,
            index: 0,
            faction: PlayerFaction::Christian,
            problem: TierPoolIdProblem::UnknownUnitId,
        })
    );
    assert_eq!(
        validate_enemy_tier_pool_ids(0, RecruitArchetype::Priest, &[]),
        Err(TierPoolError::EmptyList { tier: 0, archetype: RecruitArchetype::Priest })
    );
}

#[test]
fn tier_pool_lookup_takes_the_first_entry_of_a_tier() {
    let pools = full_tier_pools();
    assert_eq!(pools.unit_ids_for_tier_and_archetype(3, RecruitArchetype::Archer), Some(&ids(&["elite_bowman"])[..]));
    assert_eq!(pools.unit_ids_for_tier_and_archetype(9, RecruitArchetype::Archer), None);
    assert_eq!(pools.tier_entry(5).map(|entry| entry.tier), Some(5));
}

#[test]
fn faction_override_keys_parse_case_insensitively() {
    assert_eq!(parse_faction_override_key("Christian"), Some(PlayerFaction::Christian));
    assert_eq!(parse_faction_override_key(" muslim "), parse_faction_override_key("muslim"));
    assert_eq!(parse_faction_override_key("pirates"), None);
}

#[test]
fn formation_ids_and_deprecated_upgrades_are_recognised() {
    assert!(is_supported_formation_id("shield_wall"));
    assert!(!is_supported_formation_id("phalanx"));
    assert_eq!(deprecated_upgrade_replacement("no_such_upgrade"), None);
    assert_eq!(deprecated_upgrade_replacement("fast_learner_up"), Some("quartermaster_up"));
}

#[test]
fn opposing_enemy_pool_swaps_by_player_faction() {
    assert_eq!(
        opposing_enemy_pool(PlayerFaction::Christian),
        [UnitKind::MuslimPeasantInfantry, UnitKind::MuslimPeasantArcher, UnitKind::MuslimPeasantPriest]
    );
    assert_eq!(
        opposing_enemy_pool(PlayerFaction::Muslim),
        [UnitKind::ChristianPeasantInfantry, UnitKind::ChristianPeasantArcher, UnitKind::ChristianPeasantPriest]
    );
}

#[test]
fn enemy_profile_for_kind_rejects_rescuable_variants() {
    assert_eq!(enemy_profile_key_for_kind(UnitKind::RescuableChristianPeasantInfantry), None);
    assert_eq!(enemy_profile_key_for_kind(UnitKind::Commander), None);
}

#[test]
fn enemy_profiles_follow_faction_and_lineage_role() {
    assert_eq!(
        enemy_profile_key_for_kind(UnitKind::ChristianEliteBowman),
        Some((PlayerFaction::Christian, RecruitArchetype::Archer))
    );
    assert_eq!(
        enemy_profile_key_for_kind(UnitKind::MuslimDivineSpeaker),
        Some((PlayerFaction::Muslim, RecruitArchetype::Priest))
    );
    assert_eq!(
        enemy_profile_key_for_kind(UnitKind::MuslimFanatic),
        Some((PlayerFaction::Muslim, RecruitArchetype::Priest))
    );
    assert_eq!(
        enemy_profile_key_for_kind(UnitKind::ChristianPeasantInfantry),
        Some((PlayerFaction::Christian, RecruitArchetype::Infantry))
    );
    assert_eq!(
        enemy_profile_key_for_kind(UnitKind::ChristianCitadelGuard),
        Some((PlayerFaction::Christian, RecruitArchetype::Infantry))
    );
}
