use crusade_roguelite::data::{EnemyTierPoolTierConfig, EnemyTierPoolsConfigFile};
use crusade_roguelite::enemies::{
    batch_size_for_wave, major_wave_preview_tier, should_trigger_victory, EnemyArmyLane, EnemyRoleCounts,
    EnemySpawnRole, WaveCompletedEvent, MAX_WAVES,
};
use crusade_roguelite::enemy_batch::plan_enemy_batch;
use crusade_roguelite::model::{GameDifficulty, PlayerFaction, UnitKind};
use crusade_roguelite::wave_progress::{
    advance_wave_progress, due_batch_split, next_major_army_watch, WaveProgress, WaveStep,
};

fn ids(list: &[&str]) -> Vec<String> {
    list.iter().map(|id| id.to_string()).collect()
}

fn tier_entry(tier: u8, melee: &str, ranged: &str, support: &str) -> EnemyTierPoolTierConfig {
    EnemyTierPoolTierConfig { tier, melee: ids(&[melee]), ranged: ids(&[ranged]), support: ids(&[support]) }
}

fn pools() -> EnemyTierPoolsConfigFile {
    EnemyTierPoolsConfigFile {
        tiers: vec![
            tier_entry(0, "peasant_infantry", "peasant_archer", "peasant_priest"),
            tier_entry(1, "men_at_arms", "bowman", "devoted"),
            tier_entry(2, "shield_infantry", "experienced_bowman", "devoted_one"),
            tier_entry(3, "experienced_shield_infantry", "elite_bowman", "cardinal"),
            tier_entry(4, "elite_shield_infantry", "longbowman", "elite_cardinal"),
            tier_entry(5, "citadel_guard", "elite_longbowman", "divine_speaker"),
        ],
    }
}

#[test]
fn a_run_starts_its_first_wave_then_waits_for_it() {
    let start = WaveProgress::at_run_start();
    assert_eq!(start, WaveProgress { current_wave: 1, wave_started: false, finished_spawning: false });

    let (started, step) = advance_wave_progress(start, true, 0);
    assert_eq!(step, WaveStep::StartWave(1));
    assert_eq!(started, WaveProgress { current_wave: 1, wave_started: true, finished_spawning: false });

    let (waiting, step) = advance_wave_progress(started, false, 0);
    assert_eq!(step, WaveStep::Wait);
    assert_eq!(waiting, started);

    let (still_waiting, step) = advance_wave_progress(started, true, 4);
    assert_eq!(step, WaveStep::Wait);
    assert_eq!(still_waiting, started);
}

#[test]
fn a_cleared_wave_is_completed_and_the_next_one_follows() {
    let fighting = WaveProgress { current_wave: 7, wave_started: true, finished_spawning: false };
    let (next, step) = advance_wave_progress(fighting, true, 0);
    assert_eq!(step, WaveStep::CompleteWave(WaveCompletedEvent { wave_number: 7 }));
    assert_eq!(next, WaveProgress { current_wave: 8, wave_started: false, finished_spawning: false });
}

#[test]
fn a_wave_number_of_zero_counts_as_the_first_wave() {
    let unset = WaveProgress { current_wave: 0, wave_started: false, finished_spawning: false };
    let (next, step) = advance_wave_progress(unset, true, 0);
    assert_eq!(step, WaveStep::StartWave(1));
    assert_eq!(next.current_wave, 1);
}

#[test]
fn clearing_the_last_wave_ends_spawning_and_wins_the_run() {
    let last = WaveProgress { current_wave: MAX_WAVES, wave_started: true, finished_spawning: false };
    let (finished, step) = advance_wave_progress(last, true, 0);
    assert_eq!(step, WaveStep::CompleteWave(WaveCompletedEvent { wave_number: MAX_WAVES }));
    assert_eq!(finished, WaveProgress { current_wave: MAX_WAVES, wave_started: true, finished_spawning: true });
    assert!(should_trigger_victory(finished.finished_spawning, finished.current_wave, 0, 0));

    let (after, step) = advance_wave_progress(finished, true, 0);
    assert_eq!(step, WaveStep::Wait);
    assert_eq!(after, finished);
}

#[test]
fn a_cleared_run_completes_every_wave_once_in_order() {
    let mut progress = WaveProgress::at_run_start();
    let mut completed = Vec::new();
    for _ in 0..(2 * MAX_WAVES + 5) {
        let (next, step) = advance_wave_progress(progress, true, 0);
        if let WaveStep::CompleteWave(event) = step {
            completed.push(event.wave_number);
        }
        progress = next;
    }
    assert_eq!(completed, (1..=MAX_WAVES).collect::<Vec<u32>>());
    assert!(progress.finished_spawning);
}

#[test]
fn a_major_army_defeat_is_announced_once() {
    let (watch, announced) = next_major_army_watch(None, Some(10));
    assert_eq!((watch, announced), (Some(10), None));
    let (watch, announced) = next_major_army_watch(watch, Some(10));
    assert_eq!((watch, announced), (Some(10), None));
    let (watch, announced) = next_major_army_watch(watch, None);
    assert_eq!((watch, announced), (None, Some(10)));
    let (watch, announced) = next_major_army_watch(watch, None);
    assert_eq!((watch, announced), (None, None));
}

#[test]
fn a_due_batch_spawns_up_to_the_wave_batch_size() {
    assert_eq!(batch_size_for_wave(1), 7);
    assert_eq!(due_batch_split(20, 1), (7, 13));
    assert_eq!(due_batch_split(5, 1), (5, 0));
    assert_eq!(due_batch_split(0, 1), (0, 0));
    assert_eq!(due_batch_split(100, 90), (22, 78));
    let mut left = 20;
    let mut turns = 0;
    while left > 0 {
        left = due_batch_split(left, 1).1;
        turns += 1;
    }
    assert_eq!(turns, 3);
}

#[test]
fn a_batch_draws_balanced_peasants_of_the_enemy_faction() {
    let data = pools();
    let mut sequence = 10;
    let mut counts = EnemyRoleCounts::default();
    let spawns = plan_enemy_batch(
        &data,
        PlayerFaction::Christian,
        1,
        EnemyArmyLane::Small,
        GameDifficulty::Recruit,
        3,
        0xABCD,
        &mut sequence,
        &mut counts,
    );
    assert_eq!(spawns.len(), 3);
    assert_eq!(sequence, 13);
    assert_eq!(spawns.iter().map(|spawn| spawn.sequence).collect::<Vec<u32>>(), vec![10, 11, 12]);
    for spawn in &spawns {
        match spawn.role {
            EnemySpawnRole::Melee => assert_eq!(spawn.kind, UnitKind::MuslimPeasantInfantry),
            EnemySpawnRole::Ranged => assert_eq!(spawn.kind, UnitKind::MuslimPeasantArcher),
            EnemySpawnRole::Support => panic!("support comes only once the army has four enemies"),
        }
    }
    assert_eq!(counts.total, 3);
    assert_eq!(counts.support, 0);
    assert!(counts.melee.abs_diff(counts.ranged) <= 1);
}

#[test]
fn a_major_army_batch_opens_with_the_previewed_tier() {
    let data = pools();
    let preview = major_wave_preview_tier(20, EnemyArmyLane::Major);
    assert_eq!(preview, Some(2));
    let mut sequence = 0;
    let mut counts = EnemyRoleCounts::default();
    let spawns = plan_enemy_batch(
        &data,
        PlayerFaction::Muslim,
        20,
        EnemyArmyLane::Major,
        GameDifficulty::Recruit,
        5,
        77,
        &mut sequence,
        &mut counts,
    );
    assert_eq!(spawns.len(), 5);
    assert_eq!(spawns[0].kind.tier_hint(), Some(2));
    assert_eq!(spawns[0].kind.faction(), Some(PlayerFaction::Christian));
    assert_eq!(counts.total, 5);
}

#[test]
fn a_batch_from_an_empty_pool_brings_nobody() {
    let data = EnemyTierPoolsConfigFile { tiers: Vec::new() };
    let mut sequence = 4;
    let mut counts = EnemyRoleCounts::default();
    let spawns = plan_enemy_batch(
        &data,
        PlayerFaction::Christian,
        3,
        EnemyArmyLane::Small,
        GameDifficulty::Experienced,
        6,
        1,
        &mut sequence,
        &mut counts,
    );
    assert!(spawns.is_empty());
    assert_eq!(sequence, 4);
    assert_eq!(counts, EnemyRoleCounts::default());
}
