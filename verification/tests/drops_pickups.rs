use std::collections::HashSet;

use crusade_roguelite::drops::{
    chest_wave_lifecycle, current_commander_level, current_wave_number, magnet_wave_lifecycle, next_random_u32,
    rng_state_from_seed, should_grant_major_boss_chests, should_spawn_chest_for_wave, should_spawn_magnet_for_wave,
};

#[test]
fn magnet_lifecycle_spawns_every_third_wave_and_expires_next_wave() {
    assert!(!should_spawn_magnet_for_wave(1));
    assert!(!should_spawn_magnet_for_wave(2));
    assert!(should_spawn_magnet_for_wave(3));

    assert_eq!(magnet_wave_lifecycle(2, 2), (false, false));
    assert_eq!(magnet_wave_lifecycle(2, 3), (true, true));
    assert_eq!(magnet_wave_lifecycle(3, 4), (true, false));
}

#[test]
fn chest_lifecycle_spawns_every_third_wave() {
    assert!(!should_spawn_chest_for_wave(1));
    assert!(!should_spawn_chest_for_wave(2));
    assert!(should_spawn_chest_for_wave(3));

    assert_eq!(chest_wave_lifecycle(2, 2), (false, false));
    assert_eq!(chest_wave_lifecycle(2, 3), (true, true));
    assert_eq!(chest_wave_lifecycle(3, 4), (true, false));
}

#[test]
fn major_army_chest_reward_is_only_granted_once_per_wave() {
    let mut granted = HashSet::new();
    assert!(should_grant_major_boss_chests(&mut granted, 10));
    assert!(!should_grant_major_boss_chests(&mut granted, 10));
    assert!(should_grant_major_boss_chests(&mut granted, 20));
    assert_eq!(granted.len(), 2);
}

#[test]
fn wave_zero_never_spawns_pickups() {
    assert!(!should_spawn_magnet_for_wave(0));
    assert!(!should_spawn_chest_for_wave(0));
    assert_eq!(magnet_wave_lifecycle(5, 0), (false, false));
    assert_eq!(chest_wave_lifecycle(5, 0), (false, false));
}

#[test]
fn counters_default_to_one() {
    assert_eq!(current_wave_number(None), 1);
    assert_eq!(current_wave_number(Some(0)), 1);
    assert_eq!(current_wave_number(Some(12)), 12);
    assert_eq!(current_commander_level(None), 1);
    assert_eq!(current_commander_level(Some(0)), 1);
    assert_eq!(current_commander_level(Some(7)), 7);
}

#[test]
fn drop_generator_is_seeded_and_steps_like_the_lcg() {
    let mut state = rng_state_from_seed(5);
    assert_eq!(state, 5u64 ^ 0x9E37_79B9_7F4A_7C15);
    let value = next_random_u32(&mut state);
    let expected =
        (5u64 ^ 0x9E37_79B9_7F4A_7C15).wrapping_mul(6_364_136_223_846_793_005).wrapping_add(1_442_695_040_888_963_407);
    assert_eq!(state, expected);
    assert_eq!(value, (expected >> 32) as u32);
}
