use crusade_roguelite::ai::chase_target_positions;
use crusade_roguelite::collision::{is_inner_ring_retinue, neighboring_cells, should_resolve_collision_pair};
use crusade_roguelite::combat::{
    attack_target_eligible, enemy_spawn_lane_from_source, enemy_target_allowed, is_melee_reflect_eligible_source_kind,
    is_shielded_block_target_kind, nearest_target, opposing_team, unit_is_non_damaging_support, CombatRngState,
    TargetCandidate, COMBAT_RNG_DEFAULT_STATE,
};
use crusade_roguelite::model::{EnemySpawnLane, EnemySpawnSource, Team, Unit, UnitKind};

fn unit(team: Team, kind: UnitKind) -> Unit {
    Unit { team, kind, level: 1 }
}

fn within(position: (f32, f32), commander: Option<(f32, f32)>, radius: f32) -> bool {
    match commander {
        Some((cx, cy)) => {
            let dx = position.0 - cx;
            let dy = position.1 - cy;
            dx * dx + dy * dy <= radius * radius
        }
        None => false,
    }
}

#[test]
fn collision_rules_match_enemy_and_inner_ring_design() {
    let commander_pos = Some((0.0, 0.0));
    let inner_radius = 24.0;
    let enemy = unit(Team::Enemy, UnitKind::MuslimPeasantInfantry);
    let commander = unit(Team::Friendly, UnitKind::Commander);
    let inner_retinue = unit(Team::Friendly, UnitKind::ChristianPeasantInfantry);
    let outer_retinue = unit(Team::Friendly, UnitKind::ChristianPeasantInfantry);

    assert!(should_resolve_collision_pair(
        enemy,
        within((10.0, 0.0), commander_pos, inner_radius),
        unit(Team::Enemy, UnitKind::MuslimPeasantInfantry),
        within((13.0, 0.0), commander_pos, inner_radius),
    ));
    assert!(!should_resolve_collision_pair(
        enemy,
        within((10.0, 0.0), commander_pos, inner_radius),
        commander,
        within((0.0, 0.0), commander_pos, inner_radius),
    ));
    assert!(should_resolve_collision_pair(
        enemy,
        within((10.0, 0.0), commander_pos, inner_radius),
        inner_retinue,
        within((8.0, 0.0), commander_pos, inner_radius),
    ));
    assert!(!should_resolve_collision_pair(
        enemy,
        within((10.0, 0.0), commander_pos, inner_radius),
        outer_retinue,
        within((50.0, 0.0), commander_pos, inner_radius),
    ));
}

#[test]
fn friendlies_never_push_each_other() {
    let a = unit(Team::Friendly, UnitKind::ChristianPeasantInfantry);
    let b = unit(Team::Friendly, UnitKind::ChristianPeasantArcher);
    assert!(!should_resolve_collision_pair(a, true, b, true));
    assert!(should_resolve_collision_pair(a, true, unit(Team::Enemy, UnitKind::MuslimPeasantInfantry), false));
    assert!(!is_inner_ring_retinue(unit(Team::Enemy, UnitKind::MuslimPeasantInfantry), true));
    assert!(!is_inner_ring_retinue(unit(Team::Friendly, UnitKind::Commander), true));
}

#[test]
fn neighbouring_cells_cover_the_three_by_three_block() {
    let cells = neighboring_cells((4, -2));
    assert_eq!(cells[0], (3, -3));
    assert_eq!(cells[4], (4, -2));
    assert_eq!(cells[8], (5, -1));
    let mut sorted = cells.to_vec();
    sorted.sort();
    sorted.dedup();
    assert_eq!(sorted.len(), 9);
}

#[test]
fn enemies_prioritize_retinue_over_commander() {
    assert!(!enemy_target_allowed(Team::Enemy, UnitKind::Commander, true));
    assert!(enemy_target_allowed(Team::Enemy, UnitKind::Commander, false));
    assert!(enemy_target_allowed(Team::Enemy, UnitKind::ChristianPeasantInfantry, true));
    assert!(enemy_target_allowed(Team::Friendly, UnitKind::Commander, true));
}

#[test]
fn priest_is_always_non_damaging_support() {
    let friendly_priest = Unit { team: Team::Friendly, kind: UnitKind::ChristianPeasantPriest, level: 1 };
    let enemy_priest = Unit { team: Team::Enemy, kind: UnitKind::MuslimPeasantPriest, level: 1 };
    let enemy_raider = Unit { team: Team::Enemy, kind: UnitKind::MuslimPeasantInfantry, level: 1 };
    let friendly_infantry = Unit { team: Team::Friendly, kind: UnitKind::ChristianPeasantInfantry, level: 1 };
    assert!(unit_is_non_damaging_support(friendly_priest));
    assert!(unit_is_non_damaging_support(enemy_priest));
    assert!(!unit_is_non_damaging_support(enemy_raider));
    assert!(!unit_is_non_damaging_support(friendly_infantry));
}

#[test]
fn enemy_spawn_lane_mapping_passes_through_optional_source() {
    let source = EnemySpawnSource { lane: EnemySpawnLane::Minor };
    assert_eq!(enemy_spawn_lane_from_source(Some(&source)), Some(EnemySpawnLane::Minor));
    assert_eq!(enemy_spawn_lane_from_source(None), None);
}

#[test]
fn only_shielded_units_block_and_archers_are_not_reflected() {
    assert!(is_shielded_block_target_kind(UnitKind::MuslimPeasantInfantry));
    assert!(!is_shielded_block_target_kind(UnitKind::MuslimSpearman));
    assert!(!is_melee_reflect_eligible_source_kind(UnitKind::ChristianBowman));
    assert!(is_melee_reflect_eligible_source_kind(UnitKind::ChristianMenAtArms));
}

#[test]
fn combat_generator_steps_like_the_lcg() {
    let mut rng = CombatRngState::default();
    assert_eq!(rng.state, COMBAT_RNG_DEFAULT_STATE);
    let value = rng.next_u32();
    let expected = COMBAT_RNG_DEFAULT_STATE.wrapping_mul(6_364_136_223_846_793_005).wrapping_add(1_442_695_040_888_963_407);
    assert_eq!(rng.state, expected);
    assert_eq!(value, (expected >> 32) as u32);
}

#[test]
fn ai_chase_targets_exclude_commander_when_retinue_exists() {
    let commander = ((0.0f32, 0.0f32), true);
    let retinue = ((10.0f32, 0.0f32), false);
    let targets = chase_target_positions(&[commander, retinue]);
    assert_eq!(targets.len(), 1);
    assert_eq!(targets[0], retinue.0);
}

#[test]
fn enemies_chase_targets_exclude_commander_when_retinue_exists() {
    let commander = ((0.0f32, 0.0f32), true);
    let retinue = ((10.0f32, 0.0f32), false);
    let targets = chase_target_positions(&[commander, retinue]);
    assert_eq!(targets.len(), 1);
    assert_eq!(targets[0], retinue.0);

    let commander_only = chase_target_positions(&[commander]);
    assert_eq!(commander_only, vec![commander.0]);
    assert!(chase_target_positions::<(f32, f32)>(&[]).is_empty());
}

fn candidate(eligible: bool, in_reach: bool, distance_sq: f32) -> TargetCandidate {
    TargetCandidate { eligible, in_reach, distance_key: distance_sq.to_bits() }
}

#[test]
fn the_nearest_reachable_eligible_target_is_chosen() {
    let candidates = [
        candidate(true, true, 400.0),
        candidate(false, true, 1.0),
        candidate(true, false, 4.0),
        candidate(true, true, 100.0),
        candidate(true, true, 100.0),
    ];
    assert_eq!(nearest_target(&candidates), Some(3));
    assert_eq!(nearest_target(&candidates[..3]), Some(0));
    assert_eq!(nearest_target(&candidates[1..3]), None);
    assert_eq!(nearest_target(&[]), None);
}

#[test]
fn squared_distances_order_as_their_bit_patterns() {
    let distances = [0.0f32, 0.5, 1.0, 2.25, 100.0, 1.0e9];
    for pair in distances.windows(2) {
        assert!(pair[0].to_bits() < pair[1].to_bits());
    }
}

#[test]
fn attackers_strike_the_other_side_only() {
    assert_eq!(opposing_team(Team::Friendly), Some(Team::Enemy));
    assert_eq!(opposing_team(Team::Enemy), Some(Team::Friendly));
    assert_eq!(opposing_team(Team::Neutral), None);
    assert!(attack_target_eligible(Team::Friendly, Team::Enemy, true, UnitKind::MuslimPeasantInfantry, true));
    assert!(!attack_target_eligible(Team::Friendly, Team::Friendly, true, UnitKind::ChristianPeasantInfantry, true));
    assert!(!attack_target_eligible(Team::Friendly, Team::Enemy, false, UnitKind::MuslimPeasantInfantry, true));
    assert!(!attack_target_eligible(Team::Enemy, Team::Friendly, true, UnitKind::Commander, true));
    assert!(attack_target_eligible(Team::Enemy, Team::Friendly, true, UnitKind::Commander, false));
    assert!(!attack_target_eligible(Team::Neutral, Team::Enemy, true, UnitKind::MuslimPeasantInfantry, false));
}
