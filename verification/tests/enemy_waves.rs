use crusade_roguelite::data::{EnemyTierPoolTierConfig, EnemyTierPoolsConfigFile};
use crusade_roguelite::enemies::{
    enemy_loadout_seed,
    batch_size_for_wave, build_enemy_pool_roles_for_wave, choose_enemy_kind_for_role,
    choose_enemy_kind_for_tier_and_role, difficulty_seed_salt, enemy_army_level_for_difficulty,
    enemy_loadout_slot_count_for_lane, enemy_spawn_lane_for_army_lane, enemy_sprite_family_for_kind,
    enemy_tier_mix_for_wave, hash_seed, is_major_army_wave, is_minor_army_wave, lane_batch_counts, lane_seed_salt,
    major_army_batch_count_for_wave, major_wave_preview_target_count_for_batch, major_wave_preview_tier,
    max_inside_enemy_count_for_formation, minor_army_batch_count_for_wave, next_random_u32, pick_next_spawn_role,
    rng_state_from_seed, scaled_batch_count, should_trigger_victory, small_army_batch_count_for_wave,
    unlocked_enemy_tier_for_regular_wave, EnemyArmyLane, EnemyRoleCounts, EnemySpawnRole, EnemySpriteFamily,
    EnemyTierWeight, MAX_WAVES,
};
use crusade_roguelite::model::{EnemySpawnLane, GameDifficulty, PlayerFaction, UnitKind};

fn ids(list: &[&str]) -> Vec<String> {
    list.iter().map(|id| id.to_string()).collect()
}

fn tier_entry(tier: u8, melee: &str, ranged: &str, support: &str) -> EnemyTierPoolTierConfig {
    EnemyTierPoolTierConfig { tier, melee: ids(&[melee]), ranged: ids(&[ranged]), support: ids(&[support]) }
}

fn pools() -> EnemyTierPoolsConfigFile {
    EnemyTierPoolsConfigFile {
        tiers: vec![
            tier_entry(0, "peasant_infantry", "peasant_archer", "peasant_priest"),
            tier_entry(1, "men_at_arms", "bowman", "devoted"),
            tier_entry(2, "shield_infantry", "experienced_bowman", "devoted_one"),
            tier_entry(3, "experienced_shield_infantry", "elite_bowman", "cardinal"),
            tier_entry(4, "elite_shield_infantry", "longbowman", "elite_cardinal"),
            tier_entry(5, "citadel_guard", "elite_longbowman", "divine_speaker"),
        ],
    }
}

#[test]
fn enemy_sprite_family_uses_generic_unit_ids() {
    assert_eq!(enemy_sprite_family_for_kind(UnitKind::ChristianTracker), EnemySpriteFamily::Archer);
    assert_eq!(enemy_sprite_family_for_kind(UnitKind::MuslimTracker), EnemySpriteFamily::Archer);
    assert_eq!(enemy_sprite_family_for_kind(UnitKind::ChristianFanatic), EnemySpriteFamily::Priest);
    assert_eq!(enemy_sprite_family_for_kind(UnitKind::MuslimFanatic), EnemySpriteFamily::Priest);
    assert_eq!(enemy_sprite_family_for_kind(UnitKind::ChristianMenAtArms), EnemySpriteFamily::Infantry);
    assert_eq!(enemy_sprite_family_for_kind(UnitKind::Commander), EnemySpriteFamily::Fallback);
    assert_eq!(enemy_sprite_family_for_kind(UnitKind::RescuableMuslimPeasantArcher), EnemySpriteFamily::Fallback);
}

#[test]
fn wave_tier_mix_ramps_between_unlock_milestones() {
    let wave_1 = enemy_tier_mix_for_wave(1, EnemyArmyLane::Small, GameDifficulty::Recruit);
    assert_eq!(
        wave_1,
        [EnemyTierWeight { tier: 0, weight_percent: 100 }, EnemyTierWeight { tier: 0, weight_percent: 0 }]
    );

    let wave_11 = enemy_tier_mix_for_wave(11, EnemyArmyLane::Small, GameDifficulty::Recruit);
    assert_eq!(wave_11[0].tier, 0);
    assert_eq!(wave_11[0].weight_percent, 90);
    assert_eq!(wave_11[1].tier, 1);
    assert_eq!(wave_11[1].weight_percent, 10);

    let wave_20 = enemy_tier_mix_for_wave(20, EnemyArmyLane::Small, GameDifficulty::Recruit);
    assert_eq!(wave_20[0].tier, 0);
    assert_eq!(wave_20[0].weight_percent, 0);
    assert_eq!(wave_20[1].tier, 1);
    assert_eq!(wave_20[1].weight_percent, 100);

    let wave_21 = enemy_tier_mix_for_wave(21, EnemyArmyLane::Small, GameDifficulty::Recruit);
    assert_eq!(wave_21[0].tier, 1);
    assert_eq!(wave_21[0].weight_percent, 90);
    assert_eq!(wave_21[1].tier, 2);
    assert_eq!(wave_21[1].weight_percent, 10);
}

#[test]
fn major_wave_tier_mix_previews_next_tier_by_difficulty() {
    let recruit = enemy_tier_mix_for_wave(20, EnemyArmyLane::Major, GameDifficulty::Recruit);
    assert_eq!(recruit[0].tier, 1);
    assert_eq!(recruit[0].weight_percent, 80);
    assert_eq!(recruit[1].tier, 2);
    assert_eq!(recruit[1].weight_percent, 20);

    let experienced = enemy_tier_mix_for_wave(20, EnemyArmyLane::Major, GameDifficulty::Experienced);
    assert_eq!(experienced[0].weight_percent, 65);
    assert_eq!(experienced[1].weight_percent, 35);

    let hard = enemy_tier_mix_for_wave(20, EnemyArmyLane::Major, GameDifficulty::AloneAgainstTheInfidels);
    assert_eq!(hard[0].weight_percent, 50);
    assert_eq!(hard[1].weight_percent, 50);

    let capped = enemy_tier_mix_for_wave(60, EnemyArmyLane::Major, GameDifficulty::Recruit);
    assert_eq!(capped[0].tier, 5);
    assert_eq!(capped[0].weight_percent, 100);
    assert_eq!(capped[1].weight_percent, 0);
}

#[test]
fn tier_mix_shares_always_add_up_to_one_hundred() {
    for wave in [0u32, 1, 9, 10, 11, 15, 29, 30, 51, 60, 99, 100, 1000, u32::MAX] {
        for lane in [EnemyArmyLane::Small, EnemyArmyLane::Minor, EnemyArmyLane::Major] {
            for difficulty in GameDifficulty::all() {
                let mix = enemy_tier_mix_for_wave(wave, lane, difficulty);
                assert_eq!(mix[0].weight_percent as u32 + mix[1].weight_percent as u32, 100);
                assert!(mix[0].tier <= 5 && mix[1].tier <= 5);
            }
        }
    }
}

#[test]
fn major_preview_target_count_tracks_configured_share() {
    assert_eq!(major_wave_preview_target_count_for_batch(0, 20), 0);
    assert_eq!(major_wave_preview_target_count_for_batch(1, 20), 1);
    assert_eq!(major_wave_preview_target_count_for_batch(3, 20), 1);
    assert_eq!(major_wave_preview_target_count_for_batch(10, 20), 2);
    assert_eq!(major_wave_preview_target_count_for_batch(9, 35), 3);
    assert_eq!(major_wave_preview_target_count_for_batch(20, 50), 10);
    assert_eq!(major_wave_preview_target_count_for_batch(7, 0), 0);
    assert_eq!(major_wave_preview_target_count_for_batch(2, 100), 2);
}

#[test]
fn preview_tier_only_for_major_armies_below_the_top_tier() {
    assert_eq!(major_wave_preview_tier(20, EnemyArmyLane::Major), Some(2));
    assert_eq!(major_wave_preview_tier(20, EnemyArmyLane::Small), None);
    assert_eq!(major_wave_preview_tier(60, EnemyArmyLane::Major), None);
    assert_eq!(unlocked_enemy_tier_for_regular_wave(0), 0);
    assert_eq!(unlocked_enemy_tier_for_regular_wave(10), 0);
    assert_eq!(unlocked_enemy_tier_for_regular_wave(11), 1);
    assert_eq!(unlocked_enemy_tier_for_regular_wave(500), 5);
}

#[test]
fn wave_enemy_pool_builder_uses_expected_tier_bands() {
    let data = pools();
    let wave_20_pool =
        build_enemy_pool_roles_for_wave(&data, PlayerFaction::Muslim, 20, EnemyArmyLane::Small, GameDifficulty::Recruit);
    assert!(!wave_20_pool.is_empty());
    assert!(
        wave_20_pool.iter().all(|(kind, _)| kind.tier_hint() == Some(1)),
        "wave 20 regular should be fully tier-1"
    );

    let wave_21_pool =
        build_enemy_pool_roles_for_wave(&data, PlayerFaction::Muslim, 21, EnemyArmyLane::Small, GameDifficulty::Recruit);
    assert!(wave_21_pool.iter().any(|(kind, _)| kind.tier_hint() == Some(1)));
    assert!(wave_21_pool.iter().any(|(kind, _)| kind.tier_hint() == Some(2)));

    let wave_20_major_pool =
        build_enemy_pool_roles_for_wave(&data, PlayerFaction::Muslim, 20, EnemyArmyLane::Major, GameDifficulty::Recruit);
    assert!(
        wave_20_major_pool.iter().any(|(kind, _)| kind.tier_hint() == Some(2)),
        "major wave should include next-tier preview"
    );
}

#[test]
fn enemy_pool_repeats_each_unit_by_its_tier_share() {
    let data = pools();
    let pool = build_enemy_pool_roles_for_wave(&data, PlayerFaction::Christian, 11, EnemyArmyLane::Minor, GameDifficulty::Recruit);
    assert_eq!(pool.len(), 3 * 90 + 3 * 10);
    assert_eq!(pool[0], (UnitKind::ChristianPeasantInfantry, EnemySpawnRole::Melee));
    assert_eq!(pool[90], (UnitKind::ChristianPeasantArcher, EnemySpawnRole::Ranged));
    assert_eq!(pool[180], (UnitKind::ChristianPeasantPriest, EnemySpawnRole::Support));
    assert_eq!(pool[270], (UnitKind::ChristianMenAtArms, EnemySpawnRole::Melee));
    assert_eq!(pool.iter().filter(|(kind, _)| *kind == UnitKind::ChristianBowman).count(), 10);
}

#[test]
fn enemy_pool_falls_back_to_the_first_tier0_units() {
    let data = EnemyTierPoolsConfigFile {
        tiers: vec![EnemyTierPoolTierConfig {
            tier: 0,
            melee: ids(&["goblin", "peasant_infantry"]),
            ranged: ids(&["peasant_archer"]),
            support: vec![],
        }],
    };
    let pool = build_enemy_pool_roles_for_wave(&data, PlayerFaction::Muslim, 35, EnemyArmyLane::Small, GameDifficulty::Recruit);
    assert_eq!(pool, vec![(UnitKind::MuslimPeasantArcher, EnemySpawnRole::Ranged)]);
}

#[test]
fn enemy_army_level_depends_on_difficulty() {
    assert_eq!(enemy_army_level_for_difficulty(GameDifficulty::Recruit, 30), 15);
    assert_eq!(enemy_army_level_for_difficulty(GameDifficulty::Experienced, 30), 30);
    assert_eq!(enemy_army_level_for_difficulty(GameDifficulty::AloneAgainstTheInfidels, 30), 30);
    assert_eq!(enemy_army_level_for_difficulty(GameDifficulty::Recruit, 1), 1);
    assert_eq!(enemy_army_level_for_difficulty(GameDifficulty::Experienced, 0), 1);
}

#[test]
fn wave_role_picker_enforces_support_cap_and_target_mix() {
    let mut counts = EnemyRoleCounts::default();
    for seed in 0..40 {
        let role = pick_next_spawn_role(counts, true, true, true, seed);
        counts.register(role);
        assert!(counts.support <= counts.total / 4);
    }
    assert_eq!(counts.total, 40);
    assert_eq!(counts.support, 10);
    assert_eq!(counts.melee + counts.ranged, 30);
    assert!((counts.melee as i32 - counts.ranged as i32).abs() <= 1);
}

#[test]
fn wave_role_picker_falls_back_when_support_is_only_available_role() {
    let mut counts = EnemyRoleCounts::default();
    for seed in 0..7 {
        let role = pick_next_spawn_role(counts, false, false, true, seed);
        assert_eq!(role, EnemySpawnRole::Support);
        counts.register(role);
    }
    assert_eq!(counts.total, 7);
    assert_eq!(counts.support, 7);
    assert_eq!(counts.melee, 0);
    assert_eq!(counts.ranged, 0);
}

#[test]
fn role_picker_defaults_to_melee_and_breaks_ties_by_seed() {
    let counts = EnemyRoleCounts::default();
    assert_eq!(pick_next_spawn_role(counts, false, false, false, 3), EnemySpawnRole::Melee);
    assert_eq!(pick_next_spawn_role(counts, true, true, false, 0), EnemySpawnRole::Melee);
    assert_eq!(pick_next_spawn_role(counts, true, true, false, 1), EnemySpawnRole::Ranged);
    let ahead = EnemyRoleCounts { total: 3, melee: 2, ranged: 1, support: 0 };
    assert_eq!(pick_next_spawn_role(ahead, true, true, false, 0), EnemySpawnRole::Ranged);
    assert_eq!(ahead.count_for(EnemySpawnRole::Melee), 2);
}

#[test]
fn role_counts_saturate() {
    let mut counts = EnemyRoleCounts { total: u32::MAX, melee: u32::MAX, ranged: 0, support: 0 };
    counts.register(EnemySpawnRole::Melee);
    assert_eq!(counts, EnemyRoleCounts { total: u32::MAX, melee: u32::MAX, ranged: 0, support: 0 });
    counts.register(EnemySpawnRole::Ranged);
    assert_eq!(counts.ranged, 1);
}

#[test]
fn enemy_kind_picker_uses_faction_aware_fallback_when_pool_is_empty() {
    let fallback = UnitKind::from_faction_and_unit_id(PlayerFaction::Muslim, "peasant_infantry", false)
        .expect("fallback kind should resolve");
    let selected = choose_enemy_kind_for_role(&[], EnemySpawnRole::Melee, 42, fallback);
    assert_eq!(selected, UnitKind::MuslimPeasantInfantry);
}

#[test]
fn enemy_kind_picker_prefers_the_requested_role() {
    let pool = [
        (UnitKind::MuslimPeasantInfantry, EnemySpawnRole::Melee),
        (UnitKind::MuslimPeasantArcher, EnemySpawnRole::Ranged),
        (UnitKind::MuslimMenAtArms, EnemySpawnRole::Melee),
    ];
    let fallback = UnitKind::Commander;
    assert_eq!(choose_enemy_kind_for_role(&pool, EnemySpawnRole::Melee, 0, fallback), UnitKind::MuslimPeasantInfantry);
    assert_eq!(choose_enemy_kind_for_role(&pool, EnemySpawnRole::Melee, 3, fallback), UnitKind::MuslimMenAtArms);
    assert_eq!(choose_enemy_kind_for_role(&pool, EnemySpawnRole::Ranged, 7, fallback), UnitKind::MuslimPeasantArcher);
    assert_eq!(choose_enemy_kind_for_role(&pool, EnemySpawnRole::Support, 4, fallback), UnitKind::MuslimPeasantArcher);
}

#[test]
fn tier_pool_kind_picker_resolves_by_seed() {
    let data = pools();
    assert_eq!(
        choose_enemy_kind_for_tier_and_role(&data, PlayerFaction::Christian, 5, EnemySpawnRole::Support, 9),
        Some(UnitKind::ChristianDivineSpeaker)
    );
    assert_eq!(choose_enemy_kind_for_tier_and_role(&data, PlayerFaction::Christian, 7, EnemySpawnRole::Support, 9), None);
}

#[test]
fn inside_formation_cap_scales_with_roster_size() {
    assert_eq!(max_inside_enemy_count_for_formation(0, false, false), 0);
    assert_eq!(max_inside_enemy_count_for_formation(3, false, false), 0);
    assert_eq!(max_inside_enemy_count_for_formation(4, false, false), 1);
    assert_eq!(max_inside_enemy_count_for_formation(40, false, false), 10);
    assert_eq!(max_inside_enemy_count_for_formation(180, false, false), 45);
    assert_eq!(max_inside_enemy_count_for_formation(40, true, false), 0);
    assert_eq!(max_inside_enemy_count_for_formation(40, false, true), usize::MAX);
}

#[test]
fn army_waves_follow_their_cadence() {
    assert!(!is_minor_army_wave(0));
    assert!(is_minor_army_wave(2));
    assert!(!is_minor_army_wave(3));
    assert!(is_minor_army_wave(10));
    assert!(is_major_army_wave(10));
    assert!(!is_major_army_wave(15));
    assert!(!is_major_army_wave(0));
}

#[test]
fn lane_batch_counts_grow_over_time() {
    assert_eq!(small_army_batch_count_for_wave(1), 1);
    assert_eq!(small_army_batch_count_for_wave(21), 2);
    assert_eq!(small_army_batch_count_for_wave(500), 5);
    assert_eq!(minor_army_batch_count_for_wave(22), 2);
    assert_eq!(minor_army_batch_count_for_wave(2), 1);
    assert_eq!(major_army_batch_count_for_wave(30), 2);
    assert_eq!(major_army_batch_count_for_wave(10), 1);
    assert_eq!(major_army_batch_count_for_wave(1000), 3);
    assert_eq!(scaled_batch_count(45, 20, 0), 1);
}

#[test]
fn lane_batches_split_the_army_evenly() {
    assert_eq!(lane_batch_counts(120, 2), vec![60, 60]);
    assert_eq!(lane_batch_counts(11, 3), vec![4, 4, 3]);
    assert_eq!(lane_batch_counts(2, 5), vec![1, 1]);
    assert_eq!(lane_batch_counts(0, 3), Vec::<u32>::new());
    assert_eq!(lane_batch_counts(9, 0), vec![9]);
    let split = lane_batch_counts(1001, 7);
    assert_eq!(split.iter().sum::<u32>(), 1001);
    assert!(split.iter().max().unwrap() - split.iter().min().unwrap() <= 1);
}

#[test]
fn wave_batches_grow_in_size_up_to_the_cap() {
    assert!(batch_size_for_wave(0) >= 7);
    assert!(batch_size_for_wave(18) > batch_size_for_wave(2));
    assert_eq!(batch_size_for_wave(0), 7);
    assert_eq!(batch_size_for_wave(18), 11);
    assert_eq!(batch_size_for_wave(1000), 22);
}

#[test]
fn victory_needs_the_last_wave_cleared() {
    assert!(should_trigger_victory(true, MAX_WAVES, 0, 0));
    assert!(!should_trigger_victory(false, MAX_WAVES, 0, 0));
    assert!(!should_trigger_victory(true, MAX_WAVES - 1, 0, 0));
    assert!(!should_trigger_victory(true, MAX_WAVES, 1, 0));
    assert!(!should_trigger_victory(true, MAX_WAVES, 0, 3));
}

#[test]
fn lanes_map_to_spawn_lanes_slots_and_salts() {
    assert_eq!(enemy_spawn_lane_for_army_lane(EnemyArmyLane::Small), EnemySpawnLane::Small);
    assert_eq!(enemy_spawn_lane_for_army_lane(EnemyArmyLane::Major), EnemySpawnLane::Major);
    assert_eq!(enemy_loadout_slot_count_for_lane(EnemyArmyLane::Small), 3);
    assert_eq!(enemy_loadout_slot_count_for_lane(EnemyArmyLane::Minor), 4);
    assert_eq!(enemy_loadout_slot_count_for_lane(EnemyArmyLane::Major), 5);
    assert_eq!(lane_seed_salt(EnemyArmyLane::Minor), 0x42C5_B9F0);
    assert_eq!(difficulty_seed_salt(GameDifficulty::Experienced), 0x4B62_D4AF);
}

fn reference_hash(wave_seed: u32, spawn_sequence: u32, attempt: u32) -> u32 {
    let mut value = wave_seed
        .wrapping_mul(1_103_515_245)
        .wrapping_add(spawn_sequence.wrapping_mul(747_796_405))
        .wrapping_add(attempt.wrapping_mul(2_891_336_453))
        .wrapping_add(0x9E37_79B9);
    value ^= value >> 16;
    value = value.wrapping_mul(0x7FEB_352D);
    value ^= value >> 15;
    value = value.wrapping_mul(0x846C_A68B);
    value ^ (value >> 16)
}

#[test]
fn spawn_hash_and_generator_are_deterministic() {
    for (a, b, c) in [(0u32, 0u32, 0u32), (4, 17, 3), (u32::MAX, 1, u32::MAX)] {
        assert_eq!(hash_seed(a, b, c), reference_hash(a, b, c));
    }
    assert_ne!(hash_seed(4, 1, 0), hash_seed(4, 2, 0));
    let mut state = rng_state_from_seed(0);
    assert_eq!(state, 0x9E37_79B9_7F4A_7C15);
    let first = next_random_u32(&mut state);
    let expected = 0x9E37_79B9_7F4A_7C15u64
        .wrapping_mul(6_364_136_223_846_793_005)
        .wrapping_add(1_442_695_040_888_963_407);
    assert_eq!(state, expected);
    assert_eq!(first, (expected >> 32) as u32);
}

#[test]
fn loadout_seed_joins_two_salted_hashes() {
    let seed = enemy_loadout_seed(991, EnemyArmyLane::Major, 20, 40, GameDifficulty::Recruit, 2);
    let high = reference_hash(991 ^ 0x9BA2_11CE, 20 ^ (40 << 8) ^ 0x1A77_91C3, 2);
    let low = reference_hash(991 ^ 0x74AD_1E93, 20 ^ 0x9BA2_11CE, 0x1A77_91C3);
    assert_eq!(seed, ((high as u64) << 32) | low as u64);
    assert_eq!(seed, enemy_loadout_seed(991, EnemyArmyLane::Major, 20, 40, GameDifficulty::Recruit, 2));
    assert_ne!(seed, enemy_loadout_seed(991, EnemyArmyLane::Major, 20, 40, GameDifficulty::Experienced, 2));
}
