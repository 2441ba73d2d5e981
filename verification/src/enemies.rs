//! Enemy waves: which tiers and roles each wave draws its enemies from,
//! how the armies of a wave are split into batches, the seeded hashes that
//! drive spawning, and the small decisions taken about each enemy.
use vstd::prelude::*;

use crate::data::{
    EnemyTierPoolTierConfig, EnemyTierPoolsConfigFile, first_entry_error, first_id_problem, first_missing_tier,
    fits_archetype, has_tier, id_problem, is_first_tier_entry, pool_ids_error, pool_of, spec_tier_pools_error,
    tier_entry_index,
};
use crate::inventory::lcg_step;
use crate::model::{EnemySpawnLane, GameDifficulty, PlayerFaction, RecruitArchetype, UnitKind, spec_kind_from_parts};
use crate::unit_line::spec_line_from_id;

verus! {

/// The last wave of a run.
pub const MAX_WAVES: u32 = 100;

const WAVE_BATCH_SIZE: u32 = 7;

const MAX_WAVE_BATCH_SIZE: u32 = 22;

const SMALL_ARMY_BATCH_GROWTH_INTERVAL_WAVES: u32 = 20;

const MINOR_ARMY_BATCH_GROWTH_INTERVAL_WAVES: u32 = 20;

const MAJOR_ARMY_BATCH_GROWTH_INTERVAL_WAVES: u32 = 20;

const MAX_SMALL_ARMY_BATCHES_PER_WAVE: u32 = 5;

const MAX_MINOR_ARMY_BATCHES_PER_WAVE: u32 = 4;

const MAX_MAJOR_ARMY_BATCHES_PER_WAVE: u32 = 3;

const SMALL_ARMY_LOADOUT_SLOT_COUNT: usize = 3;

const MINOR_ARMY_LOADOUT_SLOT_COUNT: usize = 4;

const MAJOR_ARMY_LOADOUT_SLOT_COUNT: usize = 5;

/// The three armies a wave can send.
#[derive(Clone, Copy, Debug, PartialEq, Eq, Structural)]
pub enum EnemyArmyLane {
    Small,
    Minor,
    Major,
}

/// Sent once a wave has been fought off.
#[derive(Clone, Copy, Debug, PartialEq, Eq, Structural)]
pub struct WaveCompletedEvent {
    pub wave_number: u32,
}

/// The spawn lane that marks the enemies of an army.
pub fn enemy_spawn_lane_for_army_lane(lane: EnemyArmyLane) -> (r: EnemySpawnLane)
    ensures
        r == (match lane {
            EnemyArmyLane::Small => EnemySpawnLane::Small,
            EnemyArmyLane::Minor => EnemySpawnLane::Minor,
            EnemyArmyLane::Major => EnemySpawnLane::Major,
        }),
{
    match lane {
        EnemyArmyLane::Small => EnemySpawnLane::Small,
        EnemyArmyLane::Minor => EnemySpawnLane::Minor,
        EnemyArmyLane::Major => EnemySpawnLane::Major,
    }
}

/// A tier and the share, in percent, of a wave's enemies drawn from it.
#[derive(Clone, Copy, Debug, PartialEq, Eq, Structural)]
pub struct EnemyTierWeight {
    pub tier: u8,
    pub weight_percent: u8,
}

/// The highest tier unlocked by wave `wave_number`: one more every ten
/// waves, from tier 0 for waves 1 to 10 up to tier 5.
pub open spec fn spec_unlocked_tier(wave_number: u32) -> u8 {
    let steps: int = if wave_number == 0 { 0 } else { (wave_number - 1) / 10 };
    if steps > 5 { 5 } else { steps as u8 }
}

pub fn unlocked_enemy_tier_for_regular_wave(wave_number: u32) -> (r: u8)
    ensures
        r == spec_unlocked_tier(wave_number),
        r <= 5,
{
    let steps = if wave_number == 0 { 0 } else { (wave_number - 1) / 10 };
    if steps > 5 { 5 } else { steps as u8 }
}

/// The share, in percent, of a major army drawn from the next tier.
pub open spec fn spec_preview_percent(difficulty: GameDifficulty) -> u8 {
    match difficulty {
        GameDifficulty::Recruit => 20,
        GameDifficulty::Experienced => 35,
        GameDifficulty::AloneAgainstTheInfidels => 50,
    }
}

pub fn major_army_next_tier_preview_percent(difficulty: GameDifficulty) -> (r: u8)
    ensures
        r == spec_preview_percent(difficulty),
{
    match difficulty {
        GameDifficulty::Recruit => 20,
        GameDifficulty::Experienced => 35,
        GameDifficulty::AloneAgainstTheInfidels => 50,
    }
}

/// How many of a batch of `count` major-army enemies come from the next
/// tier: `preview_percent` of the batch, rounded to nearest, at least one
/// and at most the batch; none for an empty batch or a zero share.
pub open spec fn spec_preview_target_count(count: u32, preview_percent: u8) -> int {
    if count == 0 || preview_percent == 0 {
        0
    } else {
        let rounded = (count * preview_percent + 50) / 100;
        if rounded < 1 {
            1
        } else if rounded > count {
            count as int
        } else {
            rounded
        }
    }
}

pub fn major_wave_preview_target_count_for_batch(count: u32, preview_percent: u8) -> (r: u32)
    requires
        count == 0 || preview_percent == 0 || count * preview_percent + 50 <= u32::MAX,
    ensures
        r == spec_preview_target_count(count, preview_percent),
{
    if count == 0 || preview_percent == 0 {
        return 0;
    }
    let percent = preview_percent as u32;
    let rounded = (count * percent + 50) / 100;
    if rounded < 1 {
        1
    } else if rounded > count {
        count
    } else {
        rounded
    }
}

/// The two tiers a wave's army draws from, with their shares. A major
/// army takes the unlocked tier and previews the next one with the
/// difficulty's share (tier 5 alone once it is unlocked). The small and
/// minor armies move from the previous tier to the unlocked one ten
/// percent per wave over the ten waves after the unlock (tier 0 alone
/// before the first unlock).
pub open spec fn spec_tier_mix(wave_number: u32, lane: EnemyArmyLane, difficulty: GameDifficulty) -> (
    EnemyTierWeight,
    EnemyTierWeight,
) {
    let unlocked = spec_unlocked_tier(wave_number);
    match lane {
        EnemyArmyLane::Major => if unlocked >= 5 {
            (
                EnemyTierWeight { tier: 5, weight_percent: 100 },
                EnemyTierWeight { tier: 5, weight_percent: 0 },
            )
        } else {
            let share = spec_preview_percent(difficulty);
            (
                EnemyTierWeight { tier: unlocked, weight_percent: (100 - share) as u8 },
                EnemyTierWeight { tier: (unlocked + 1) as u8, weight_percent: share },
            )
        },
        _ => if unlocked == 0 {
            (
                EnemyTierWeight { tier: 0, weight_percent: 100 },
                EnemyTierWeight { tier: 0, weight_percent: 0 },
            )
        } else {
            let since_unlock: int = wave_number - unlocked * 10;
            let steps: int = if since_unlock > 10 { 10 } else { since_unlock };
            let share = (steps * 10) as u8;
            (
                EnemyTierWeight { tier: (unlocked - 1) as u8, weight_percent: (100 - share) as u8 },
                EnemyTierWeight { tier: unlocked, weight_percent: share },
            )
        },
    }
}

/// The tier mix of a wave's army; the two shares always add up to 100 and
/// both tiers are at most 5.
pub fn enemy_tier_mix_for_wave(wave_number: u32, lane: EnemyArmyLane, difficulty: GameDifficulty) -> (r: [EnemyTierWeight; 2])
    ensures
        r@[0] == spec_tier_mix(wave_number, lane, difficulty).0,
        r@[1] == spec_tier_mix(wave_number, lane, difficulty).1,
        r@[0].weight_percent + r@[1].weight_percent == 100,
        r@[0].tier <= 5,
        r@[1].tier <= 5,
{
    match lane {
        EnemyArmyLane::Major => {
            let base_tier = unlocked_enemy_tier_for_regular_wave(wave_number);
            if base_tier >= 5 {
                return [
                    EnemyTierWeight { tier: 5, weight_percent: 100 },
                    EnemyTierWeight { tier: 5, weight_percent: 0 },
                ];
            }
            let next_share = major_army_next_tier_preview_percent(difficulty);
            [
                EnemyTierWeight { tier: base_tier, weight_percent: 100 - next_share },
                EnemyTierWeight { tier: base_tier + 1, weight_percent: next_share },
            ]
        },
        EnemyArmyLane::Small | EnemyArmyLane::Minor => {
            let unlocked_tier = unlocked_enemy_tier_for_regular_wave(wave_number);
            if unlocked_tier == 0 {
                return [
                    EnemyTierWeight { tier: 0, weight_percent: 100 },
                    EnemyTierWeight { tier: 0, weight_percent: 0 },
                ];
            }
            let window_start_wave = unlocked_tier as u32 * 10;
            let since_unlock = wave_number - window_start_wave;
            let progress_steps = if since_unlock > 10 { 10 } else { since_unlock };
            let unlocked_share = (progress_steps * 10) as u8;
            [
                EnemyTierWeight { tier: unlocked_tier - 1, weight_percent: 100 - unlocked_share },
                EnemyTierWeight { tier: unlocked_tier, weight_percent: unlocked_share },
            ]
        },
    }
}

/// The next tier a major army previews, while one is left to preview.
pub fn major_wave_preview_tier(wave_number: u32, lane: EnemyArmyLane) -> (r: Option<u8>)
    ensures
        r == (if lane == EnemyArmyLane::Major && spec_unlocked_tier(wave_number) < 5 {
            Some((spec_unlocked_tier(wave_number) + 1) as u8)
        } else {
            None
        }),
{
    if lane != EnemyArmyLane::Major {
        return None;
    }
    let base_tier = unlocked_enemy_tier_for_regular_wave(wave_number);
    if base_tier >= 5 {
        None
    } else {
        Some(base_tier + 1)
    }
}

/// Every second wave brings a minor army.
pub fn is_minor_army_wave(wave_number: u32) -> (r: bool)
    ensures
        r == (wave_number > 0 && wave_number % 2 == 0),
{
    wave_number > 0 && wave_number % 2 == 0
}

/// Every tenth wave brings a major army.
pub fn is_major_army_wave(wave_number: u32) -> (r: bool)
    ensures
        r == (wave_number > 0 && wave_number % 10 == 0),
{
    wave_number > 0 && wave_number % 10 == 0
}

/// One batch more every `growth_interval` waves, from one up to
/// `max_batches` (at least one).
pub open spec fn spec_scaled_batch_count(wave_number: u32, growth_interval: u32, max_batches: u32) -> int {
    let grown: int = 1 + (wave_number as int) / (growth_interval as int);
    let cap: int = if max_batches < 1 { 1 } else { max_batches as int };
    if grown > cap { cap } else { grown }
}

pub fn scaled_batch_count(wave_number: u32, growth_interval: u32, max_batches: u32) -> (r: u32)
    requires
        growth_interval > 0,
        1 + wave_number / growth_interval <= u32::MAX,
    ensures
        r == spec_scaled_batch_count(wave_number, growth_interval, max_batches),
        r >= 1,
{
    let grown = 1 + wave_number / growth_interval;
    let cap = if max_batches < 1 { 1 } else { max_batches };
    if grown > cap { cap } else { grown }
}

/// `wave_number - offset`, stopping at zero.
pub open spec fn waves_since(wave_number: u32, offset: u32) -> u32 {
    if wave_number > offset { (wave_number - offset) as u32 } else { 0 }
}

/// How many batches the small army of a wave is split into.
pub fn small_army_batch_count_for_wave(wave_number: u32) -> (r: u32)
    ensures
        r == spec_scaled_batch_count(waves_since(wave_number, 1), 20, 5),
        1 <= r <= 5,
{
    let since = if wave_number > 1 { wave_number - 1 } else { 0 };
    scaled_batch_count(since, SMALL_ARMY_BATCH_GROWTH_INTERVAL_WAVES, MAX_SMALL_ARMY_BATCHES_PER_WAVE)
}

/// How many batches the minor army of a wave is split into.
pub fn minor_army_batch_count_for_wave(wave_number: u32) -> (r: u32)
    ensures
        r == spec_scaled_batch_count(waves_since(wave_number, 2), 20, 4),
        1 <= r <= 4,
{
    let since = if wave_number > 2 { wave_number - 2 } else { 0 };
    scaled_batch_count(since, MINOR_ARMY_BATCH_GROWTH_INTERVAL_WAVES, MAX_MINOR_ARMY_BATCHES_PER_WAVE)
}

/// How many batches the major army of a wave is split into.
pub fn major_army_batch_count_for_wave(wave_number: u32) -> (r: u32)
    ensures
        r == spec_scaled_batch_count(waves_since(wave_number, 10), 20, 3),
        1 <= r <= 3,
{
    let since = if wave_number > 10 { wave_number - 10 } else { 0 };
    scaled_batch_count(since, MAJOR_ARMY_BATCH_GROWTH_INTERVAL_WAVES, MAX_MAJOR_ARMY_BATCHES_PER_WAVE)
}

/// The sizes of the batches an army of `total_count` enemies is split
/// into: `batch_count` batches (at least one), as even as can be, the
/// larger ones first, empty batches left out.
pub open spec fn spec_lane_batch_size(total_count: u32, batch_count: u32, index: int) -> int {
    let batches: int = if batch_count < 1 { 1 } else { batch_count as int };
    (total_count as int) / batches + (if index < (total_count as int) % batches { 1int } else { 0int })
}

pub open spec fn spec_lane_batch_len(total_count: u32, batch_count: u32) -> int {
    let batches: int = if batch_count < 1 { 1 } else { batch_count as int };
    if total_count >= batches { batches } else { total_count as int }
}

pub fn lane_batch_counts(total_count: u32, batch_count: u32) -> (r: Vec<u32>)
    ensures
        r@.len() == spec_lane_batch_len(total_count, batch_count),
        forall|i: int| 0 <= i < r@.len() ==> #[trigger] r@[i] == spec_lane_batch_size(total_count, batch_count, i),
        forall|i: int| 0 <= i < r@.len() ==> #[trigger] r@[i] > 0,
{
    let mut counts: Vec<u32> = Vec::new();
    if total_count == 0 {
        return counts;
    }
    let batches = if batch_count < 1 { 1 } else { batch_count };
    let base_batch_size = total_count / batches;
    let remainder = total_count % batches;
    let mut batch_index: u32 = 0;
    while batch_index < batches
        invariant
            total_count > 0,
            batches == (if batch_count < 1 { 1 } else { batch_count }),
            base_batch_size == total_count / batches,
            remainder == total_count % batches,
            batch_index <= batches,
            counts@.len() == (if batch_index <= total_count { batch_index as int } else { total_count as int }),
            forall|i: int| 0 <= i < counts@.len() ==> #[trigger] counts@[i] == spec_lane_batch_size(total_count, batch_count, i),
            forall|i: int| 0 <= i < counts@.len() ==> #[trigger] counts@[i] > 0,
        decreases batches - batch_index,
    {
        proof {
            vstd::arithmetic::div_mod::lemma_fundamental_div_mod(total_count as int, batches as int);
            assert(batches * base_batch_size >= base_batch_size) by (nonlinear_arith)
                requires
                    batches >= 1,
                    base_batch_size >= 0,
            ;
            if base_batch_size == 0 {
                assert(batches * base_batch_size == 0) by (nonlinear_arith)
                    requires
                        base_batch_size == 0,
                ;
            }
            if base_batch_size >= 1 {
                assert(batches * base_batch_size >= batches) by (nonlinear_arith)
                    requires
                        batches >= 1,
                        base_batch_size >= 1,
                ;
            }
        }
        let count = if batch_index < remainder { base_batch_size + 1 } else { base_batch_size };
        if count > 0 {
            proof {
                if base_batch_size == 0 {
                    assert(batch_index < remainder);
                    assert(remainder == total_count);
                }
                assert(batch_index < total_count);
            }
            counts.push(count);
        } else {
            proof {
                assert(base_batch_size == 0);
                assert(remainder == total_count);
                assert(batch_index >= total_count);
            }
        }
        batch_index = batch_index + 1;
    }
    proof {
        if batches > total_count {
            assert(total_count / batches == 0) by (nonlinear_arith)
                requires
                    batches > total_count,
                    total_count > 0,
            ;
        } else {
            assert(total_count / batches >= 1) by (nonlinear_arith)
                requires
                    batches <= total_count,
                    batches > 0,
            ;
        }
    }
    counts
}

/// The enemies in the first `n` batches of an army of `total_count`.
pub open spec fn lane_batches_total(total_count: u32, batch_count: u32, n: nat) -> int
    decreases n,
{
    if n == 0 {
        0
    } else {
        lane_batches_total(total_count, batch_count, (n - 1) as nat) + spec_lane_batch_size(
            total_count,
            batch_count,
            n - 1,
        )
    }
}

proof fn lemma_lane_batches_prefix(total_count: u32, batch_count: u32, n: nat)
    requires
        n <= (if batch_count < 1 { 1 } else { batch_count as int }),
    ensures
        ({
            let batches: int = if batch_count < 1 { 1 } else { batch_count as int };
            let base = (total_count as int) / batches;
            let rem = (total_count as int) % batches;
            lane_batches_total(total_count, batch_count, n) == n * base + (if n < rem { n as int } else { rem })
        }),
    decreases n,
{
    let batches: int = if batch_count < 1 { 1 } else { batch_count as int };
    let base = (total_count as int) / batches;
    if n > 0 {
        lemma_lane_batches_prefix(total_count, batch_count, (n - 1) as nat);
        assert((n - 1) * base + base == n * base) by (nonlinear_arith);
    } else {
        assert(n * base == 0) by (nonlinear_arith)
            requires
                n == 0,
        ;
    }
}

/// Splitting an army into batches loses no enemy and spreads them evenly:
/// the batch sizes add up to the army's size, and no two batches differ
/// by more than one enemy.
pub proof fn lemma_lane_batches_split_evenly(total_count: u32, batch_count: u32)
    ensures
        lane_batches_total(
            total_count,
            batch_count,
            spec_lane_batch_len(total_count, batch_count) as nat,
        ) == total_count,
        forall|i: int, j: int|
            0 <= i < spec_lane_batch_len(total_count, batch_count) && 0 <= j < spec_lane_batch_len(
                total_count,
                batch_count,
            ) ==> #[trigger] spec_lane_batch_size(total_count, batch_count, i)
                - #[trigger] spec_lane_batch_size(total_count, batch_count, j) <= 1,
{
    let batches: int = if batch_count < 1 { 1 } else { batch_count as int };
    let total = total_count as int;
    let len = spec_lane_batch_len(total_count, batch_count);
    let base = total / batches;
    let rem = total % batches;
    vstd::arithmetic::div_mod::lemma_fundamental_div_mod(total, batches);
    lemma_lane_batches_prefix(total_count, batch_count, len as nat);
    if total < batches {
        vstd::arithmetic::div_mod::lemma_basic_div(total, batches);
        vstd::arithmetic::div_mod::lemma_small_mod(total as nat, batches as nat);
        assert(base == 0);
        assert(rem == total);
        assert(len == total);
        assert(len * base == 0) by (nonlinear_arith)
            requires
                base == 0,
        ;
    } else {
        assert(len == batches);
        assert(rem < batches);
        assert(batches * base == len * base);
    }
}

/// The level of the enemy armies: half the player's level on Recruit, the
/// player's level otherwise (a level of at least one either way).
pub open spec fn spec_enemy_army_level(difficulty: GameDifficulty, player_level: u32) -> u32 {
    let level: u32 = if player_level < 1 { 1 } else { player_level };
    match difficulty {
        GameDifficulty::Recruit => if level / 2 < 1 { 1 } else { level / 2 },
        _ => level,
    }
}

pub fn enemy_army_level_for_difficulty(difficulty: GameDifficulty, player_level: u32) -> (r: u32)
    ensures
        r == spec_enemy_army_level(difficulty, player_level),
        r >= 1,
{
    let level = if player_level < 1 { 1 } else { player_level };
    match difficulty {
        GameDifficulty::Recruit => if level / 2 < 1 { 1 } else { level / 2 },
        GameDifficulty::Experienced | GameDifficulty::AloneAgainstTheInfidels => level,
    }
}

/// How many equipment slots the enemies of an army have.
pub fn enemy_loadout_slot_count_for_lane(lane: EnemyArmyLane) -> (r: usize)
    ensures
        r == (match lane {
            EnemyArmyLane::Small => 3usize,
            EnemyArmyLane::Minor => 4usize,
            EnemyArmyLane::Major => 5usize,
        }),
{
    match lane {
        EnemyArmyLane::Small => SMALL_ARMY_LOADOUT_SLOT_COUNT,
        EnemyArmyLane::Minor => MINOR_ARMY_LOADOUT_SLOT_COUNT,
        EnemyArmyLane::Major => MAJOR_ARMY_LOADOUT_SLOT_COUNT,
    }
}

/// The salt that a difficulty mixes into the army seeds.
pub fn difficulty_seed_salt(difficulty: GameDifficulty) -> (r: u32)
    ensures
        r == (match difficulty {
            GameDifficulty::Recruit => 0x1A77_91C3u32,
            GameDifficulty::Experienced => 0x4B62_D4AFu32,
            GameDifficulty::AloneAgainstTheInfidels => 0x73D3_2AA1u32,
        }),
{
    match difficulty {
        GameDifficulty::Recruit => 0x1A77_91C3,
        GameDifficulty::Experienced => 0x4B62_D4AF,
        GameDifficulty::AloneAgainstTheInfidels => 0x73D3_2AA1,
    }
}

/// The salt that an army mixes into its seeds.
pub fn lane_seed_salt(lane: EnemyArmyLane) -> (r: u32)
    ensures
        r == (match lane {
            EnemyArmyLane::Small => 0x15F8_2B6Du32,
            EnemyArmyLane::Minor => 0x42C5_B9F0u32,
            EnemyArmyLane::Major => 0x9BA2_11CEu32,
        }),
{
    match lane {
        EnemyArmyLane::Small => 0x15F8_2B6D,
        EnemyArmyLane::Minor => 0x42C5_B9F0,
        EnemyArmyLane::Major => 0x9BA2_11CE,
    }
}

/// How many enemies a batch of wave `wave_number` spawns at once: seven,
/// one more every four waves, at most 22.
pub fn batch_size_for_wave(wave_number: u32) -> (r: u32)
    ensures
        r == (if 7 + wave_number / 4 > 22 { 22 } else { 7 + wave_number / 4 }),
        7 <= r <= 22,
{
    let grown = WAVE_BATCH_SIZE + wave_number / 4;
    if grown > MAX_WAVE_BATCH_SIZE {
        MAX_WAVE_BATCH_SIZE
    } else {
        grown
    }
}

/// The run is won once the last wave has finished spawning, nothing is
/// left to spawn and no enemy is alive.
pub open spec fn spec_should_trigger_victory(
    finished_spawning: bool,
    current_wave: u32,
    pending_batch_count: nat,
    alive_enemy_count: nat,
) -> bool {
    finished_spawning && current_wave >= MAX_WAVES && pending_batch_count == 0 && alive_enemy_count == 0
}

/// Whether the run is won now (see `spec_should_trigger_victory`).
pub fn should_trigger_victory(
    finished_spawning: bool,
    current_wave: u32,
    pending_batch_count: usize,
    alive_enemy_count: usize,
) -> (r: bool)
    ensures
        r == spec_should_trigger_victory(
            finished_spawning,
            current_wave,
            pending_batch_count as nat,
            alive_enemy_count as nat,
        ),
{
    finished_spawning && current_wave >= MAX_WAVES && pending_batch_count == 0 && alive_enemy_count
        == 0
}

/// How many enemies may stand inside the formation: none without
/// recruits or with anti-entry, any number where the formation allows
/// it, else a quarter of the recruits.
pub fn max_inside_enemy_count_for_formation(
    recruit_count: usize,
    anti_entry: bool,
    allow_unlimited_enemy_inside: bool,
) -> (r: usize)
    ensures
        r == (if recruit_count == 0 {
            0
        } else if allow_unlimited_enemy_inside {
            usize::MAX
        } else if anti_entry {
            0
        } else {
            recruit_count / 4
        }),
{
    if recruit_count == 0 {
        return 0;
    }
    if allow_unlimited_enemy_inside {
        return usize::MAX;
    }
    if anti_entry {
        return 0;
    }
    recruit_count / 4
}

/// The role an enemy fills in its army.
#[derive(Clone, Copy, Debug, PartialEq, Eq, Structural)]
pub enum EnemySpawnRole {
    Melee,
    Ranged,
    Support,
}

/// `x + 1`, stopping at `u32::MAX`.
pub open spec fn saturating_inc(x: u32) -> u32 {
    if x == u32::MAX { x } else { (x + 1) as u32 }
}

/// How many enemies of each role a wave has spawned so far.
#[derive(Clone, Copy, Debug, PartialEq, Eq, Structural)]
pub struct EnemyRoleCounts {
    pub total: u32,
    pub melee: u32,
    pub ranged: u32,
    pub support: u32,
}

impl Default for EnemyRoleCounts {
    fn default() -> (r: Self)
        ensures
            r == (EnemyRoleCounts { total: 0, melee: 0, ranged: 0, support: 0 }),
    {
        EnemyRoleCounts { total: 0, melee: 0, ranged: 0, support: 0 }
    }
}

impl EnemyRoleCounts {
    pub open spec fn spec_count_for(self, role: EnemySpawnRole) -> u32 {
        match role {
            EnemySpawnRole::Melee => self.melee,
            EnemySpawnRole::Ranged => self.ranged,
            EnemySpawnRole::Support => self.support,
        }
    }

    /// The counts after one more enemy of `role`, each count stopping at
    /// `u32::MAX`.
    pub open spec fn spec_register(self, role: EnemySpawnRole) -> EnemyRoleCounts {
        EnemyRoleCounts {
            total: saturating_inc(self.total),
            melee: if role == EnemySpawnRole::Melee { saturating_inc(self.melee) } else { self.melee },
            ranged: if role == EnemySpawnRole::Ranged { saturating_inc(self.ranged) } else { self.ranged },
            support: if role == EnemySpawnRole::Support { saturating_inc(self.support) } else { self.support },
        }
    }

    pub fn count_for(self, role: EnemySpawnRole) -> (r: u32)
        ensures
            r == self.spec_count_for(role),
    {
        match role {
            EnemySpawnRole::Melee => self.melee,
            EnemySpawnRole::Ranged => self.ranged,
            EnemySpawnRole::Support => self.support,
        }
    }

    pub fn register(&mut self, role: EnemySpawnRole)
        ensures
            *final(self) == old(self).spec_register(role),
    {
        self.total = self.total.saturating_add(1);
        match role {
            EnemySpawnRole::Melee => {
                self.melee = self.melee.saturating_add(1);
            },
            EnemySpawnRole::Ranged => {
                self.ranged = self.ranged.saturating_add(1);
            },
            EnemySpawnRole::Support => {
                self.support = self.support.saturating_add(1);
            },
        }
    }
}

/// A support enemy may come next while supports stay under a quarter of
/// the wave, counting the one about to spawn.
pub open spec fn support_allowed(counts: EnemyRoleCounts, has_support: bool) -> bool {
    has_support && counts.support < saturating_inc(counts.total) / 4
}

/// The roles the next enemy may take: melee and ranged where the pool has
/// them and support within its cap; support alone, past its cap, where
/// the pool has nothing else.
pub open spec fn spawn_role_candidates(
    counts: EnemyRoleCounts,
    has_melee: bool,
    has_ranged: bool,
    has_support: bool,
) -> Seq<EnemySpawnRole> {
    let primary = (if has_melee { seq![EnemySpawnRole::Melee] } else { Seq::empty() }) + (if has_ranged {
        seq![EnemySpawnRole::Ranged]
    } else {
        Seq::empty()
    }) + (if support_allowed(counts, has_support) { seq![EnemySpawnRole::Support] } else { Seq::empty() });
    if primary.len() > 0 {
        primary
    } else if has_support {
        seq![EnemySpawnRole::Support]
    } else {
        Seq::empty()
    }
}

/// The share of the wave a role aims at, in eighths: a quarter for
/// support where melee or ranged exist (all of it where they do not), the
/// rest split evenly between melee and ranged.
pub open spec fn role_share_eighths(role: EnemySpawnRole, has_support: bool, non_support_roles: int) -> int {
    match role {
        EnemySpawnRole::Support => if !has_support {
            0
        } else if non_support_roles == 0 {
            8
        } else {
            2
        },
        _ => if non_support_roles == 0 {
            0
        } else {
            (if has_support { 6int } else { 8int }) / non_support_roles
        },
    }
}

/// How far a role lags behind its share once the next enemy is counted,
/// in eighths of an enemy.
pub open spec fn role_deficit(counts: EnemyRoleCounts, has_support: bool, non_support_roles: int, role: EnemySpawnRole) -> int {
    saturating_inc(counts.total) * role_share_eighths(role, has_support, non_support_roles) - 8
        * counts.spec_count_for(role)
}

/// The largest deficit among `roles`.
pub open spec fn max_role_deficit(
    counts: EnemyRoleCounts,
    has_support: bool,
    non_support_roles: int,
    roles: Seq<EnemySpawnRole>,
) -> int
    decreases roles.len(),
{
    if roles.len() <= 1 {
        role_deficit(counts, has_support, non_support_roles, roles[0])
    } else {
        let rest = max_role_deficit(counts, has_support, non_support_roles, roles.drop_last());
        let last = role_deficit(counts, has_support, non_support_roles, roles.last());
        if last > rest { last } else { rest }
    }
}

/// The roles among `roles` that lag the most, in their order.
pub open spec fn most_lagging_roles(
    counts: EnemyRoleCounts,
    has_support: bool,
    non_support_roles: int,
    roles: Seq<EnemySpawnRole>,
) -> Seq<EnemySpawnRole> {
    roles.filter(
        |role: EnemySpawnRole|
            role_deficit(counts, has_support, non_support_roles, role) == max_role_deficit(
                counts,
                has_support,
                non_support_roles,
                roles,
            ),
    )
}

/// The role of the next enemy: among the candidate roles, one of those
/// that lag their share the most, picked by `tie_seed`; melee when there
/// is no candidate.
pub open spec fn spec_pick_next_spawn_role(
    counts: EnemyRoleCounts,
    has_melee: bool,
    has_ranged: bool,
    has_support: bool,
    tie_seed: u32,
) -> EnemySpawnRole {
    let candidates = spawn_role_candidates(counts, has_melee, has_ranged, has_support);
    let non_support_roles: int = (if has_melee { 1int } else { 0int }) + (if has_ranged { 1int } else { 0int });
    let best = most_lagging_roles(counts, has_support, non_support_roles, candidates);
    if candidates.len() == 0 {
        EnemySpawnRole::Melee
    } else {
        best[tie_seed as int % best.len() as int]
    }
}

proof fn lemma_max_role_deficit_bounds(
    counts: EnemyRoleCounts,
    has_support: bool,
    non_support_roles: int,
    roles: Seq<EnemySpawnRole>,
)
    requires
        roles.len() > 0,
    ensures
        forall|k: int|
            0 <= k < roles.len() ==> #[trigger] role_deficit(counts, has_support, non_support_roles, roles[k])
                <= max_role_deficit(counts, has_support, non_support_roles, roles),
        exists|k: int|
            0 <= k < roles.len() && #[trigger] role_deficit(counts, has_support, non_support_roles, roles[k])
                == max_role_deficit(counts, has_support, non_support_roles, roles),
    decreases roles.len(),
{
    if roles.len() > 1 {
        let rest = roles.drop_last();
        lemma_max_role_deficit_bounds(counts, has_support, non_support_roles, rest);
        assert forall|k: int| 0 <= k < roles.len() implies #[trigger] role_deficit(
            counts,
            has_support,
            non_support_roles,
            roles[k],
        ) <= max_role_deficit(counts, has_support, non_support_roles, roles) by {
            if k < roles.len() - 1 {
                assert(roles[k] == rest[k]);
            }
        }
        let m = max_role_deficit(counts, has_support, non_support_roles, roles);
        if role_deficit(counts, has_support, non_support_roles, roles.last()) == m {
            assert(role_deficit(counts, has_support, non_support_roles, roles[roles.len() - 1]) == m);
        } else {
            let k = choose|k: int|
                0 <= k < rest.len() && #[trigger] role_deficit(counts, has_support, non_support_roles, rest[k])
                    == max_role_deficit(counts, has_support, non_support_roles, rest);
            assert(roles[k] == rest[k]);
        }
    } else {
        assert(role_deficit(counts, has_support, non_support_roles, roles[0]) == max_role_deficit(
            counts,
            has_support,
            non_support_roles,
            roles,
        ));
    }
}

proof fn lemma_filter_push<A>(s: Seq<A>, x: A, pred: spec_fn(A) -> bool)
    ensures
        s.push(x).filter(pred) == (if pred(x) { s.filter(pred).push(x) } else { s.filter(pred) }),
{
    reveal(Seq::filter);
    assert(s.push(x).drop_last() =~= s);
    assert(s.push(x).last() == x);
}

proof fn lemma_filter_none<A>(s: Seq<A>, pred: spec_fn(A) -> bool)
    requires
        forall|k: int| 0 <= k < s.len() ==> !pred(#[trigger] s[k]),
    ensures
        s.filter(pred).len() == 0,
    decreases s.len(),
{
    reveal(Seq::filter);
    if s.len() > 0 {
        lemma_filter_none(s.drop_last(), pred);
        assert(!pred(s[s.len() - 1]));
    }
}

/// Picks the role of the next enemy of a wave (see
/// `spec_pick_next_spawn_role`).
pub fn pick_next_spawn_role(
    counts: EnemyRoleCounts,
    has_melee: bool,
    has_ranged: bool,
    has_support: bool,
    tie_seed: u32,
) -> (r: EnemySpawnRole)
    ensures
        r == spec_pick_next_spawn_role(counts, has_melee, has_ranged, has_support, tie_seed),
{
    let next_total = counts.total.saturating_add(1);
    let allow_support = has_support && counts.support < next_total / 4;
    let mut candidates: Vec<EnemySpawnRole> = Vec::new();
    if has_melee {
        candidates.push(EnemySpawnRole::Melee);
    }
    if has_ranged {
        candidates.push(EnemySpawnRole::Ranged);
    }
    if allow_support {
        candidates.push(EnemySpawnRole::Support);
    }
    if candidates.len() == 0 && has_support {
        candidates.push(EnemySpawnRole::Support);
    }
    proof {
        let spec_candidates = spawn_role_candidates(counts, has_melee, has_ranged, has_support);
        assert(candidates@ =~= spec_candidates);
    }
    if candidates.len() == 0 {
        return EnemySpawnRole::Melee;
    }
    let non_support_roles: u32 = (if has_melee { 1u32 } else { 0u32 }) + (if has_ranged { 1u32 } else { 0u32 });
    let ghost nsr = non_support_roles as int;
    let mut best: Vec<EnemySpawnRole> = Vec::new();
    let mut best_deficit: i64 = 0;
    let mut i: usize = 0;
    while i < candidates.len()
        invariant
            0 <= i <= candidates@.len(),
            candidates@.len() > 0,
            candidates@.len() <= 3,
            non_support_roles <= 2,
            nsr == non_support_roles as int,
            next_total == saturating_inc(counts.total),
            i > 0 ==> best_deficit == max_role_deficit(counts, has_support, nsr, candidates@.take(i as int)),
            i == 0 ==> best@.len() == 0,
            i > 0 ==> best@ == most_lagging_roles(counts, has_support, nsr, candidates@.take(i as int)),
        decreases candidates@.len() - i,
    {
        let role = candidates[i];
        let share: i64 = match role {
            EnemySpawnRole::Support => if !has_support {
                0
            } else if non_support_roles == 0 {
                8
            } else {
                2
            },
            _ => if non_support_roles == 0 {
                0
            } else {
                (if has_support { 6i64 } else { 8i64 }) / (non_support_roles as i64)
            },
        };
        assert(0 <= share <= 8);
        assert(0 <= (next_total as int) * share <= 8 * 0xffff_ffff) by (nonlinear_arith)
            requires
                0 <= share <= 8,
                0 <= next_total <= 0xffff_ffff,
        ;
        let deficit: i64 = (next_total as i64) * share - 8 * (counts.count_for(role) as i64);
        let ghost prefix = candidates@.take(i as int);
        let ghost next = candidates@.take(i + 1);
        proof {
            assert(next =~= prefix.push(role));
            assert(deficit == role_deficit(counts, has_support, nsr, role));
            assert(next.drop_last() =~= prefix);
        }
        if i == 0 || deficit > best_deficit {
            proof {
                let pred = |r: EnemySpawnRole| role_deficit(counts, has_support, nsr, r) == deficit;
                if i > 0 {
                    lemma_max_role_deficit_bounds(counts, has_support, nsr, prefix);
                    assert forall|k: int| 0 <= k < prefix.len() implies !pred(#[trigger] prefix[k]) by {}
                }
                lemma_filter_none(prefix, pred);
                lemma_filter_push(prefix, role, pred);
                assert(max_role_deficit(counts, has_support, nsr, next) == deficit);
                assert(prefix.filter(pred) =~= Seq::<EnemySpawnRole>::empty());
            }
            best = Vec::new();
            best.push(role);
            best_deficit = deficit;
            proof {
                let pred = |r: EnemySpawnRole| role_deficit(counts, has_support, nsr, r) == deficit;
                assert(most_lagging_roles(counts, has_support, nsr, next) == next.filter(pred));
                assert(best@ =~= next.filter(pred));
            }
        } else if deficit == best_deficit {
            proof {
                let pred = |r: EnemySpawnRole| role_deficit(counts, has_support, nsr, r) == deficit;
                lemma_filter_push(prefix, role, pred);
                assert(max_role_deficit(counts, has_support, nsr, next) == deficit);
                assert(most_lagging_roles(counts, has_support, nsr, prefix) == prefix.filter(pred));
                assert(most_lagging_roles(counts, has_support, nsr, next) == next.filter(pred));
            }
            best.push(role);
        } else {
            proof {
                let pred = |r: EnemySpawnRole| role_deficit(counts, has_support, nsr, r) == best_deficit;
                lemma_filter_push(prefix, role, pred);
                assert(max_role_deficit(counts, has_support, nsr, next) == best_deficit);
                assert(most_lagging_roles(counts, has_support, nsr, prefix) == prefix.filter(pred));
                assert(most_lagging_roles(counts, has_support, nsr, next) == next.filter(pred));
            }
        }
        i = i + 1;
    }
    proof {
        assert(candidates@.take(candidates@.len() as int) =~= candidates@);
        lemma_max_role_deficit_bounds(counts, has_support, nsr, candidates@);
        let k = choose|k: int|
            0 <= k < candidates@.len() && #[trigger] role_deficit(counts, has_support, nsr, candidates@[k])
                == max_role_deficit(counts, has_support, nsr, candidates@);
        let pred = |r: EnemySpawnRole|
            role_deficit(counts, has_support, nsr, r) == max_role_deficit(counts, has_support, nsr, candidates@);
        candidates@.lemma_filter_contains(pred, k);
    }
    let index = (tie_seed as usize) % best.len();
    best[index]
}

/// Supports never pass a quarter of the wave: where the pool has melee or
/// ranged enemies and supports are within their cap, they still are after
/// the next enemy is picked and counted.
pub proof fn lemma_support_cap_kept(
    counts: EnemyRoleCounts,
    has_melee: bool,
    has_ranged: bool,
    has_support: bool,
    tie_seed: u32,
)
    requires
        has_melee || has_ranged,
        counts.support <= counts.total / 4,
        counts.total < u32::MAX,
    ensures
        ({
            let after = counts.spec_register(
                spec_pick_next_spawn_role(counts, has_melee, has_ranged, has_support, tie_seed),
            );
            after.support <= after.total / 4
        }),
{
    let candidates = spawn_role_candidates(counts, has_melee, has_ranged, has_support);
    let nsr: int = (if has_melee { 1int } else { 0int }) + (if has_ranged { 1int } else { 0int });
    let best = most_lagging_roles(counts, has_support, nsr, candidates);
    let role = spec_pick_next_spawn_role(counts, has_melee, has_ranged, has_support, tie_seed);
    assert(candidates.len() > 0);
    lemma_max_role_deficit_bounds(counts, has_support, nsr, candidates);
    let k = choose|k: int|
        0 <= k < candidates.len() && #[trigger] role_deficit(counts, has_support, nsr, candidates[k])
            == max_role_deficit(counts, has_support, nsr, candidates);
    let pred = |r: EnemySpawnRole|
        role_deficit(counts, has_support, nsr, r) == max_role_deficit(counts, has_support, nsr, candidates);
    candidates.lemma_filter_contains(pred, k);
    assert(best.len() > 0);
    let index = tie_seed as int % best.len() as int;
    assert(best.contains(best[index]));
    candidates.lemma_filter_contains_rev(pred, role);
    if role == EnemySpawnRole::Support {
        assert(support_allowed(counts, has_support));
    }
}

/// Melee and ranged enemies stay level: where the pool has both and their
/// counts differ by at most one, they still do after the next enemy is
/// picked and counted.
pub proof fn lemma_melee_ranged_stay_level(counts: EnemyRoleCounts, has_support: bool, tie_seed: u32)
    requires
        counts.melee <= counts.ranged + 1,
        counts.ranged <= counts.melee + 1,
        counts.total < u32::MAX,
        counts.melee < u32::MAX,
        counts.ranged < u32::MAX,
    ensures
        ({
            let after = counts.spec_register(spec_pick_next_spawn_role(counts, true, true, has_support, tie_seed));
            after.melee <= after.ranged + 1 && after.ranged <= after.melee + 1
        }),
{
    let candidates = spawn_role_candidates(counts, true, true, has_support);
    let nsr: int = 2;
    let best = most_lagging_roles(counts, has_support, nsr, candidates);
    let role = spec_pick_next_spawn_role(counts, true, true, has_support, tie_seed);
    let max = max_role_deficit(counts, has_support, nsr, candidates);
    let pred = |r: EnemySpawnRole| role_deficit(counts, has_support, nsr, r) == max;
    assert(candidates[0] == EnemySpawnRole::Melee);
    assert(candidates[1] == EnemySpawnRole::Ranged);
    lemma_max_role_deficit_bounds(counts, has_support, nsr, candidates);
    let k = choose|k: int| 0 <= k < candidates.len() && #[trigger] role_deficit(counts, has_support, nsr, candidates[k]) == max;
    candidates.lemma_filter_contains(pred, k);
    assert(best.len() > 0);
    let index = tie_seed as int % best.len() as int;
    assert(best[index] == role);
    candidates.lemma_filter_pred(pred, index);
    assert(role_deficit(counts, has_support, nsr, role) == max);
    assert(role_deficit(counts, has_support, nsr, candidates[0]) <= max);
    assert(role_deficit(counts, has_support, nsr, candidates[1]) <= max);
    if role == EnemySpawnRole::Melee && counts.melee > counts.ranged {
        assert(role_deficit(counts, has_support, nsr, EnemySpawnRole::Melee) < role_deficit(
            counts,
            has_support,
            nsr,
            EnemySpawnRole::Ranged,
        ));
    }
    if role == EnemySpawnRole::Ranged && counts.ranged > counts.melee {
        assert(role_deficit(counts, has_support, nsr, EnemySpawnRole::Ranged) < role_deficit(
            counts,
            has_support,
            nsr,
            EnemySpawnRole::Melee,
        ));
    }
}

/// The recruit archetype whose pool feeds a spawn role.
pub open spec fn role_archetype(role: EnemySpawnRole) -> RecruitArchetype {
    match role {
        EnemySpawnRole::Melee => RecruitArchetype::Infantry,
        EnemySpawnRole::Ranged => RecruitArchetype::Archer,
        EnemySpawnRole::Support => RecruitArchetype::Priest,
    }
}

/// The unit ids of a role's pool in the first entry of `tier`.
pub open spec fn spec_role_ids(tiers: Seq<EnemyTierPoolTierConfig>, tier: u8, role: EnemySpawnRole) -> Option<Seq<String>> {
    match tier_entry_index(tiers, tier) {
        Some(i) => Some(pool_of(tiers[i], role_archetype(role))),
        None => None,
    }
}

/// The non-rescuable unit of `faction` that an id names.
pub open spec fn resolve_enemy_id(faction: PlayerFaction, id: Seq<char>) -> Option<UnitKind> {
    match spec_line_from_id(id) {
        Some(line) => spec_kind_from_parts(faction, line, false),
        None => None,
    }
}

pub fn enemy_unit_ids_for_tier_and_role(pools: &EnemyTierPoolsConfigFile, tier: u8, role: EnemySpawnRole) -> (r: Option<&[String]>)
    ensures
        r is Some == spec_role_ids(pools.tiers@, tier, role) is Some,
        r is Some ==> r.unwrap()@ == spec_role_ids(pools.tiers@, tier, role).unwrap(),
{
    let archetype = match role {
        EnemySpawnRole::Melee => RecruitArchetype::Infantry,
        EnemySpawnRole::Ranged => RecruitArchetype::Archer,
        EnemySpawnRole::Support => RecruitArchetype::Priest,
    };
    pools.unit_ids_for_tier_and_archetype(tier, archetype)
}

/// The unit picked by `seed` from a role's pool of `tier`; `None` where
/// the tier or pool is missing or empty, or the picked id names no unit.
pub open spec fn spec_choose_enemy_kind(
    tiers: Seq<EnemyTierPoolTierConfig>,
    faction: PlayerFaction,
    tier: u8,
    role: EnemySpawnRole,
    seed: u32,
) -> Option<UnitKind> {
    match spec_role_ids(tiers, tier, role) {
        Some(ids) => if ids.len() == 0 {
            None
        } else {
            resolve_enemy_id(faction, ids[seed as int % ids.len() as int]@)
        },
        None => None,
    }
}

pub fn choose_enemy_kind_for_tier_and_role(
    pools: &EnemyTierPoolsConfigFile,
    faction: PlayerFaction,
    tier: u8,
    role: EnemySpawnRole,
    seed: u32,
) -> (r: Option<UnitKind>)
    ensures
        r == spec_choose_enemy_kind(pools.tiers@, faction, tier, role, seed),
{
    let ids = match enemy_unit_ids_for_tier_and_role(pools, tier, role) {
        Some(ids) => ids,
        None => return None,
    };
    if ids.len() == 0 {
        return None;
    }
    let pick = ids[(seed as usize) % ids.len()].as_str();
    UnitKind::from_faction_and_unit_id(faction, pick, false)
}

/// The pool entries of role `role`.
pub open spec fn of_role(role: EnemySpawnRole) -> spec_fn((UnitKind, EnemySpawnRole)) -> bool {
    |entry: (UnitKind, EnemySpawnRole)| entry.1 == role
}

/// The entries of a pool that have `role`.
pub open spec fn entries_with_role(pool: Seq<(UnitKind, EnemySpawnRole)>, role: EnemySpawnRole) -> Seq<(UnitKind, EnemySpawnRole)> {
    pool.filter(of_role(role))
}

/// The kind for an enemy of `preferred_role`: the entry picked by `seed`
/// among the pool's entries of that role, or among all entries where none
/// has it; `fallback_kind` for an empty pool.
pub open spec fn spec_choose_enemy_kind_for_role(
    pool: Seq<(UnitKind, EnemySpawnRole)>,
    preferred_role: EnemySpawnRole,
    seed: u32,
    fallback_kind: UnitKind,
) -> UnitKind {
    let matching = entries_with_role(pool, preferred_role);
    if pool.len() == 0 {
        fallback_kind
    } else if matching.len() == 0 {
        pool[seed as int % pool.len() as int].0
    } else {
        matching[seed as int % matching.len() as int].0
    }
}

pub fn choose_enemy_kind_for_role(
    enemy_pool_roles: &[(UnitKind, EnemySpawnRole)],
    preferred_role: EnemySpawnRole,
    seed: u32,
    fallback_kind: UnitKind,
) -> (r: UnitKind)
    ensures
        r == spec_choose_enemy_kind_for_role(enemy_pool_roles@, preferred_role, seed, fallback_kind),
{
    let ghost pool = enemy_pool_roles@;
    let ghost pred = of_role(preferred_role);
    if enemy_pool_roles.len() == 0 {
        return fallback_kind;
    }
    let mut matching_count: usize = 0;
    let mut i: usize = 0;
    while i < enemy_pool_roles.len()
        invariant
            pool == enemy_pool_roles@,
            pred == of_role(preferred_role),
            i <= pool.len(),
            matching_count == pool.take(i as int).filter(pred).len(),
            matching_count <= i,
        decreases pool.len() - i,
    {
        proof {
            assert(pool.take(i + 1) =~= pool.take(i as int).push(pool[i as int]));
            lemma_filter_push(pool.take(i as int), pool[i as int], pred);
        }
        if enemy_pool_roles[i].1 == preferred_role {
            matching_count = matching_count + 1;
        }
        i = i + 1;
    }
    proof {
        assert(pool.take(pool.len() as int) =~= pool);
    }
    if matching_count == 0 {
        return enemy_pool_roles[(seed as usize) % enemy_pool_roles.len()].0;
    }
    let target_match_index = (seed as usize) % matching_count;
    let mut seen: usize = 0;
    let mut j: usize = 0;
    while j < enemy_pool_roles.len()
        invariant
            pool == enemy_pool_roles@,
            pred == of_role(preferred_role),
            matching_count == pool.filter(pred).len(),
            target_match_index < matching_count,
            target_match_index as int == seed as int % matching_count as int,
            j <= pool.len(),
            seen == pool.take(j as int).filter(pred).len(),
            seen <= target_match_index,
        decreases pool.len() - j,
    {
        let entry = enemy_pool_roles[j];
        proof {
            assert(pool.take(j + 1) =~= pool.take(j as int).push(pool[j as int]));
            lemma_filter_push(pool.take(j as int), pool[j as int], pred);
        }
        if entry.1 == preferred_role {
            if seen == target_match_index {
                proof {
                    let head = pool.take(j + 1);
                    let tail = pool.skip(j + 1);
                    assert(pool =~= head + tail);
                    Seq::filter_distributes_over_add(head, tail, pred);
                    assert(head.filter(pred)[seen as int] == entry);
                    assert(pool.filter(pred)[seen as int] == head.filter(pred)[seen as int]);
                }
                return entry.0;
            }
            seen = seen + 1;
        }
        j = j + 1;
    }
    proof {
        assert(pool.take(pool.len() as int) =~= pool);
    }
    enemy_pool_roles[0].0
}

/// The pool entries one list of ids gives: each id that names a unit of
/// `faction` gives `weight` entries of that unit with `role`, in id order.
pub open spec fn resolved_entries(
    ids: Seq<String>,
    faction: PlayerFaction,
    role: EnemySpawnRole,
    weight: u8,
) -> Seq<(UnitKind, EnemySpawnRole)>
    decreases ids.len(),
{
    if ids.len() == 0 {
        Seq::empty()
    } else {
        resolved_entries(ids.drop_last(), faction, role, weight) + match resolve_enemy_id(
            faction,
            ids.last()@,
        ) {
            Some(kind) => Seq::new(weight as nat, |_k: int| (kind, role)),
            None => Seq::empty(),
        }
    }
}

/// The pool entries of one role of one tier.
pub open spec fn role_entries(
    tiers: Seq<EnemyTierPoolTierConfig>,
    faction: PlayerFaction,
    tier: u8,
    role: EnemySpawnRole,
    weight: u8,
) -> Seq<(UnitKind, EnemySpawnRole)> {
    match spec_role_ids(tiers, tier, role) {
        Some(ids) => resolved_entries(ids, faction, role, weight),
        None => Seq::empty(),
    }
}

/// The pool entries of one weighted tier: its melee, ranged and support
/// entries, none for a zero weight.
pub open spec fn weight_entries(
    tiers: Seq<EnemyTierPoolTierConfig>,
    faction: PlayerFaction,
    weight: EnemyTierWeight,
) -> Seq<(UnitKind, EnemySpawnRole)> {
    if weight.weight_percent == 0 {
        Seq::empty()
    } else {
        role_entries(tiers, faction, weight.tier, EnemySpawnRole::Melee, weight.weight_percent)
            + role_entries(tiers, faction, weight.tier, EnemySpawnRole::Ranged, weight.weight_percent)
            + role_entries(tiers, faction, weight.tier, EnemySpawnRole::Support, weight.weight_percent)
    }
}

/// The entry of the first id of a role's tier-0 pool, where it names a
/// unit.
pub open spec fn first_tier0_entry(
    tiers: Seq<EnemyTierPoolTierConfig>,
    faction: PlayerFaction,
    role: EnemySpawnRole,
) -> Seq<(UnitKind, EnemySpawnRole)> {
    match spec_role_ids(tiers, 0, role) {
        Some(ids) => if ids.len() > 0 {
            match resolve_enemy_id(faction, ids[0]@) {
                Some(kind) => seq![(kind, role)],
                None => Seq::empty(),
            }
        } else {
            Seq::empty()
        },
        None => Seq::empty(),
    }
}

/// The weighted pool a wave's army draws its enemies from: each unit of
/// the wave's two tiers, repeated by its tier's share; where that is
/// empty, the first unit of each role's tier-0 pool once.
pub open spec fn spec_enemy_pool_roles(
    tiers: Seq<EnemyTierPoolTierConfig>,
    faction: PlayerFaction,
    wave_number: u32,
    lane: EnemyArmyLane,
    difficulty: GameDifficulty,
) -> Seq<(UnitKind, EnemySpawnRole)> {
    let mix = spec_tier_mix(wave_number, lane, difficulty);
    let main = weight_entries(tiers, faction, mix.0) + weight_entries(tiers, faction, mix.1);
    if main.len() > 0 {
        main
    } else {
        first_tier0_entry(tiers, faction, EnemySpawnRole::Melee) + first_tier0_entry(
            tiers,
            faction,
            EnemySpawnRole::Ranged,
        ) + first_tier0_entry(tiers, faction, EnemySpawnRole::Support)
    }
}

fn push_role_entries(
    pool: &mut Vec<(UnitKind, EnemySpawnRole)>,
    pools: &EnemyTierPoolsConfigFile,
    faction: PlayerFaction,
    tier: u8,
    role: EnemySpawnRole,
    weight: u8,
)
    ensures
        final(pool)@ == old(pool)@ + role_entries(pools.tiers@, faction, tier, role, weight),
{
    let unit_ids = match enemy_unit_ids_for_tier_and_role(pools, tier, role) {
        Some(unit_ids) => unit_ids,
        None => {
            proof {
                assert(old(pool)@ + Seq::<(UnitKind, EnemySpawnRole)>::empty() =~= old(pool)@);
            }
            return;
        },
    };
    let ghost start = pool@;
    let mut i: usize = 0;
    while i < unit_ids.len()
        invariant
            i <= unit_ids@.len(),
            pool@ == start + resolved_entries(unit_ids@.take(i as int), faction, role, weight),
        decreases unit_ids@.len() - i,
    {
        proof {
            assert(unit_ids@.take(i + 1).drop_last() =~= unit_ids@.take(i as int));
            assert(unit_ids@.take(i + 1).last() == unit_ids@[i as int]);
        }
        match UnitKind::from_faction_and_unit_id(faction, unit_ids[i].as_str(), false) {
            Some(kind) => {
                let ghost before = pool@;
                let mut k: u8 = 0;
                while k < weight
                    invariant
                        k <= weight,
                        pool@ == before + Seq::new(k as nat, |_k: int| (kind, role)),
                    decreases weight - k,
                {
                    pool.push((kind, role));
                    k = k + 1;
                    proof {
                        assert(pool@ =~= before + Seq::new(k as nat, |_k: int| (kind, role)));
                    }
                }
                proof {
                    assert(pool@ =~= start + resolved_entries(unit_ids@.take(i + 1), faction, role, weight));
                }
            },
            None => {
                proof {
                    assert(pool@ =~= start + resolved_entries(unit_ids@.take(i + 1), faction, role, weight));
                }
            },
        }
        i = i + 1;
    }
    proof {
        assert(unit_ids@.take(unit_ids@.len() as int) =~= unit_ids@);
    }
}

fn push_weight_entries(
    pool: &mut Vec<(UnitKind, EnemySpawnRole)>,
    pools: &EnemyTierPoolsConfigFile,
    faction: PlayerFaction,
    weight: EnemyTierWeight,
)
    ensures
        final(pool)@ == old(pool)@ + weight_entries(pools.tiers@, faction, weight),
{
    if weight.weight_percent == 0 {
        proof {
            assert(old(pool)@ + Seq::<(UnitKind, EnemySpawnRole)>::empty() =~= old(pool)@);
        }
        return;
    }
    push_role_entries(pool, pools, faction, weight.tier, EnemySpawnRole::Melee, weight.weight_percent);
    push_role_entries(pool, pools, faction, weight.tier, EnemySpawnRole::Ranged, weight.weight_percent);
    push_role_entries(pool, pools, faction, weight.tier, EnemySpawnRole::Support, weight.weight_percent);
    proof {
        assert(pool@ =~= old(pool)@ + weight_entries(pools.tiers@, faction, weight));
    }
}

fn push_first_tier0_entry(
    pool: &mut Vec<(UnitKind, EnemySpawnRole)>,
    pools: &EnemyTierPoolsConfigFile,
    faction: PlayerFaction,
    role: EnemySpawnRole,
)
    ensures
        final(pool)@ == old(pool)@ + first_tier0_entry(pools.tiers@, faction, role),
{
    if let Some(unit_ids) = enemy_unit_ids_for_tier_and_role(pools, 0, role) {
        if unit_ids.len() > 0 {
            if let Some(kind) = UnitKind::from_faction_and_unit_id(faction, unit_ids[0].as_str(), false) {
                pool.push((kind, role));
                proof {
                    assert(pool@ =~= old(pool)@ + first_tier0_entry(pools.tiers@, faction, role));
                }
                return;
            }
        }
    }
    proof {
        assert(old(pool)@ + first_tier0_entry(pools.tiers@, faction, role) =~= old(pool)@);
    }
}

/// Builds the weighted pool a wave's army draws its enemies from (see
/// `spec_enemy_pool_roles`).
pub fn build_enemy_pool_roles_for_wave(
    pools: &EnemyTierPoolsConfigFile,
    enemy_faction: PlayerFaction,
    wave_number: u32,
    lane: EnemyArmyLane,
    difficulty: GameDifficulty,
) -> (r: Vec<(UnitKind, EnemySpawnRole)>)
    ensures
        r@ == spec_enemy_pool_roles(pools.tiers@, enemy_faction, wave_number, lane, difficulty),
{
    let tier_mix = enemy_tier_mix_for_wave(wave_number, lane, difficulty);
    let mut pool: Vec<(UnitKind, EnemySpawnRole)> = Vec::new();
    push_weight_entries(&mut pool, pools, enemy_faction, tier_mix[0]);
    push_weight_entries(&mut pool, pools, enemy_faction, tier_mix[1]);
    proof {
        let mix = spec_tier_mix(wave_number, lane, difficulty);
        assert(pool@ =~= weight_entries(pools.tiers@, enemy_faction, mix.0) + weight_entries(
            pools.tiers@,
            enemy_faction,
            mix.1,
        ));
    }
    if pool.len() == 0 {
        push_first_tier0_entry(&mut pool, pools, enemy_faction, EnemySpawnRole::Melee);
        push_first_tier0_entry(&mut pool, pools, enemy_faction, EnemySpawnRole::Ranged);
        push_first_tier0_entry(&mut pool, pools, enemy_faction, EnemySpawnRole::Support);
        proof {
            assert(pool@ =~= first_tier0_entry(pools.tiers@, enemy_faction, EnemySpawnRole::Melee)
                + first_tier0_entry(pools.tiers@, enemy_faction, EnemySpawnRole::Ranged)
                + first_tier0_entry(pools.tiers@, enemy_faction, EnemySpawnRole::Support));
        }
    }
    pool
}

/// A pool entry is a unit of tier `tier` that fits its role.
pub open spec fn entry_of_tier(entry: (UnitKind, EnemySpawnRole), tier: u8) -> bool {
    entry.0.spec_tier_hint() == Some(tier) && fits_archetype(entry.0, role_archetype(entry.1))
}

proof fn lemma_valid_entries_from(tiers: Seq<EnemyTierPoolTierConfig>, j: int, i: int, archetype: RecruitArchetype)
    requires
        0 <= j <= i < tiers.len(),
        first_entry_error(tiers, j) is None,
    ensures
        tiers[i].tier <= 5,
        pool_ids_error(tiers[i].tier, archetype, pool_of(tiers[i], archetype)) is None,
    decreases i - j,
{
    if j < i {
        lemma_valid_entries_from(tiers, j + 1, i, archetype);
    }
}

proof fn lemma_valid_ids_from(tier: u8, archetype: RecruitArchetype, ids: Seq<String>, j: int, m: int, faction: PlayerFaction)
    requires
        0 <= j <= m < ids.len(),
        first_id_problem(tier, archetype, ids, j) is None,
    ensures
        id_problem(tier, archetype, ids[m]@, faction) is None,
    decreases m - j,
{
    if j < m {
        lemma_valid_ids_from(tier, archetype, ids, j + 1, m, faction);
    } else {
        match faction {
            PlayerFaction::Christian => {},
            PlayerFaction::Muslim => {},
        }
    }
}

proof fn lemma_resolved_entries_of_tier(ids: Seq<String>, faction: PlayerFaction, role: EnemySpawnRole, weight: u8, tier: u8)
    requires
        forall|m: int| 0 <= m < ids.len() ==> #[trigger] id_problem(tier, role_archetype(role), ids[m]@, faction) is None,
    ensures
        forall|k: int|
            0 <= k < resolved_entries(ids, faction, role, weight).len() ==> entry_of_tier(
                #[trigger] resolved_entries(ids, faction, role, weight)[k],
                tier,
            ),
        ids.len() > 0 && weight > 0 ==> resolved_entries(ids, faction, role, weight).len() > 0,
    decreases ids.len(),
{
    if ids.len() > 0 {
        let rest = ids.drop_last();
        assert forall|m: int| 0 <= m < rest.len() implies #[trigger] id_problem(tier, role_archetype(role), rest[m]@, faction) is None by {
            assert(rest[m] == ids[m]);
        }
        lemma_resolved_entries_of_tier(rest, faction, role, weight, tier);
        assert(id_problem(tier, role_archetype(role), ids[ids.len() - 1]@, faction) is None);
        let head = resolved_entries(rest, faction, role, weight);
        let whole = resolved_entries(ids, faction, role, weight);
        assert forall|k: int| 0 <= k < whole.len() implies entry_of_tier(#[trigger] whole[k], tier) by {
            if k < head.len() {
                assert(whole[k] == head[k]);
            }
        }
    }
}

proof fn lemma_role_entries_of_tier(
    tiers: Seq<EnemyTierPoolTierConfig>,
    faction: PlayerFaction,
    tier: u8,
    role: EnemySpawnRole,
    weight: u8,
)
    requires
        spec_tier_pools_error(tiers) is None,
    ensures
        forall|k: int|
            0 <= k < role_entries(tiers, faction, tier, role, weight).len() ==> entry_of_tier(
                #[trigger] role_entries(tiers, faction, tier, role, weight)[k],
                tier,
            ),
        tier <= 5 && weight > 0 ==> role_entries(tiers, faction, tier, role, weight).len() > 0,
{
    let archetype = role_archetype(role);
    if tier <= 5 {
        assert(first_missing_tier(tiers, 0) is None);
        lemma_missing_tier_none(tiers, 0, tier as int);
        let j = choose|j: int| 0 <= j < tiers.len() && #[trigger] tiers[j].tier == tier as int;
        lemma_first_tier_entry_exists(tiers, tier, j);
    }
    match tier_entry_index(tiers, tier) {
        Some(i) => {
            assert(is_first_tier_entry(tiers, tier, i));
            lemma_valid_entries_from(tiers, 0, i, archetype);
            let ids = pool_of(tiers[i], archetype);
            assert(ids.len() > 0);
            assert forall|m: int| 0 <= m < ids.len() implies #[trigger] id_problem(tier, role_archetype(role), ids[m]@, faction) is None by {
                lemma_valid_ids_from(tier, archetype, ids, 0, m, faction);
            }
            lemma_resolved_entries_of_tier(ids, faction, role, weight, tier);
        },
        None => {},
    }
}

proof fn lemma_missing_tier_none(tiers: Seq<EnemyTierPoolTierConfig>, t: int, tier: int)
    requires
        0 <= t <= tier <= 5,
        first_missing_tier(tiers, t) is None,
    ensures
        has_tier(tiers, tier),
    decreases tier - t,
{
    if t < tier {
        lemma_missing_tier_none(tiers, t + 1, tier);
    }
}

proof fn lemma_first_tier_entry_exists(tiers: Seq<EnemyTierPoolTierConfig>, tier: u8, j: int)
    requires
        0 <= j < tiers.len(),
        tiers[j].tier == tier,
    ensures
        exists|i: int| is_first_tier_entry(tiers, tier, i),
    decreases j,
{
    if exists|k: int| 0 <= k < j && #[trigger] tiers[k].tier == tier {
        let k = choose|k: int| 0 <= k < j && #[trigger] tiers[k].tier == tier;
        lemma_first_tier_entry_exists(tiers, tier, k);
    } else {
        assert(is_first_tier_entry(tiers, tier, j));
    }
}

proof fn lemma_weight_entries_of_tier(tiers: Seq<EnemyTierPoolTierConfig>, faction: PlayerFaction, weight: EnemyTierWeight)
    requires
        spec_tier_pools_error(tiers) is None,
    ensures
        forall|k: int|
            0 <= k < weight_entries(tiers, faction, weight).len() ==> entry_of_tier(
                #[trigger] weight_entries(tiers, faction, weight)[k],
                weight.tier,
            ),
        weight.tier <= 5 && weight.weight_percent > 0 ==> weight_entries(tiers, faction, weight).len() > 0,
{
    if weight.weight_percent > 0 {
        let w = weight.weight_percent;
        let melee = role_entries(tiers, faction, weight.tier, EnemySpawnRole::Melee, w);
        let ranged = role_entries(tiers, faction, weight.tier, EnemySpawnRole::Ranged, w);
        let support = role_entries(tiers, faction, weight.tier, EnemySpawnRole::Support, w);
        lemma_role_entries_of_tier(tiers, faction, weight.tier, EnemySpawnRole::Melee, w);
        lemma_role_entries_of_tier(tiers, faction, weight.tier, EnemySpawnRole::Ranged, w);
        lemma_role_entries_of_tier(tiers, faction, weight.tier, EnemySpawnRole::Support, w);
        let all = weight_entries(tiers, faction, weight);
        assert(all == melee + ranged + support);
        assert forall|k: int| 0 <= k < all.len() implies entry_of_tier(#[trigger] all[k], weight.tier) by {
            if k < melee.len() {
                assert(all[k] == melee[k]);
            } else if k < melee.len() + ranged.len() {
                assert(all[k] == ranged[k - melee.len()]);
            } else {
                assert(all[k] == support[k - melee.len() - ranged.len()]);
            }
        }
    }
}

/// With valid tier pools a wave draws only from its own tiers: every
/// entry of the pool built for a wave is a unit of one of the wave's two
/// tiers that has a share, and it fits the role it is drawn for; the pool
/// is never empty.
pub proof fn lemma_wave_pool_uses_wave_tiers(
    tiers: Seq<EnemyTierPoolTierConfig>,
    faction: PlayerFaction,
    wave_number: u32,
    lane: EnemyArmyLane,
    difficulty: GameDifficulty,
)
    requires
        spec_tier_pools_error(tiers) is None,
    ensures
        spec_enemy_pool_roles(tiers, faction, wave_number, lane, difficulty).len() > 0,
        forall|k: int|
            0 <= k < spec_enemy_pool_roles(tiers, faction, wave_number, lane, difficulty).len() ==> {
                let entry = #[trigger] spec_enemy_pool_roles(tiers, faction, wave_number, lane, difficulty)[k];
                let mix = spec_tier_mix(wave_number, lane, difficulty);
                (mix.0.weight_percent > 0 && entry_of_tier(entry, mix.0.tier)) || (mix.1.weight_percent > 0
                    && entry_of_tier(entry, mix.1.tier))
            },
{
    let mix = spec_tier_mix(wave_number, lane, difficulty);
    let first = weight_entries(tiers, faction, mix.0);
    let second = weight_entries(tiers, faction, mix.1);
    lemma_weight_entries_of_tier(tiers, faction, mix.0);
    lemma_weight_entries_of_tier(tiers, faction, mix.1);
    let main = first + second;
    assert(mix.0.tier <= 5 && mix.1.tier <= 5);
    assert(mix.0.weight_percent > 0 || mix.1.weight_percent > 0);
    assert(main.len() > 0);
    let pool = spec_enemy_pool_roles(tiers, faction, wave_number, lane, difficulty);
    assert(pool == main);
    assert forall|k: int| 0 <= k < pool.len() implies {
        let entry = #[trigger] pool[k];
        (mix.0.weight_percent > 0 && entry_of_tier(entry, mix.0.tier)) || (mix.1.weight_percent > 0
            && entry_of_tier(entry, mix.1.tier))
    } by {
        if k < first.len() {
            assert(pool[k] == first[k]);
        } else {
            assert(pool[k] == second[k - first.len()]);
        }
    }
}

/// The seeded hash behind enemy spawning: the three inputs mixed by
/// multiply-add modulo 2^32, then avalanched by three xor-shift and two
/// multiply rounds.
pub open spec fn spec_hash_seed(wave_seed: u32, spawn_sequence: u32, attempt: u32) -> u32 {
    let mixed = vstd::wrapping::u32_specs::wrapping_add(
        vstd::wrapping::u32_specs::wrapping_add(
            vstd::wrapping::u32_specs::wrapping_add(
                vstd::wrapping::u32_specs::wrapping_mul(wave_seed, 1_103_515_245u32),
                vstd::wrapping::u32_specs::wrapping_mul(spawn_sequence, 747_796_405u32),
            ),
            vstd::wrapping::u32_specs::wrapping_mul(attempt, 2_891_336_453u32),
        ),
        0x9E37_79B9u32,
    );
    let first = mixed ^ (mixed >> 16u32);
    let second = vstd::wrapping::u32_specs::wrapping_mul(first, 0x7FEB_352Du32);
    let third = second ^ (second >> 15u32);
    let fourth = vstd::wrapping::u32_specs::wrapping_mul(third, 0x846C_A68Bu32);
    fourth ^ (fourth >> 16u32)
}

pub fn hash_seed(wave_seed: u32, spawn_sequence: u32, attempt: u32) -> (r: u32)
    ensures
        r == spec_hash_seed(wave_seed, spawn_sequence, attempt),
{
    let mut value = wave_seed.wrapping_mul(1_103_515_245).wrapping_add(
        spawn_sequence.wrapping_mul(747_796_405),
    ).wrapping_add(attempt.wrapping_mul(2_891_336_453)).wrapping_add(0x9E37_79B9);
    value = value ^ (value >> 16);
    value = value.wrapping_mul(0x7FEB_352D);
    value = value ^ (value >> 15);
    value = value.wrapping_mul(0x846C_A68B);
    value ^ (value >> 16)
}

/// The generator state for a seed: the seed xor a fixed odd constant, or
/// a second constant should that give zero.
pub open spec fn spec_rng_state_from_seed(seed: u32) -> u64 {
    let mixed = (seed as u64) ^ 0x9E37_79B9_7F4A_7C15u64;
    if mixed == 0 { 0x9D4C_6F82_11B5_A7D3u64 } else { mixed }
}

pub fn rng_state_from_seed(seed: u32) -> (r: u64)
    ensures
        r == spec_rng_state_from_seed(seed),
        r != 0,
{
    let mixed = (seed as u64) ^ 0x9E37_79B9_7F4A_7C15u64;
    if mixed == 0 { 0x9D4C_6F82_11B5_A7D3u64 } else { mixed }
}

/// Advances the generator one step and returns the high 32 bits of the
/// new state.
pub fn next_random_u32(rng_state: &mut u64) -> (r: u32)
    ensures
        *final(rng_state) == lcg_step(*old(rng_state)),
        r == (*final(rng_state) >> 32u64) as u32,
{
    *rng_state = rng_state.wrapping_mul(6_364_136_223_846_793_005).wrapping_add(1_442_695_040_888_963_407);
    (*rng_state >> 32) as u32
}

/// The seed an army's equipment loadout is rolled from: two spawn hashes,
/// salted by lane and difficulty, side by side in one 64-bit value.
pub open spec fn spec_enemy_loadout_seed(
    spawn_seed: u32,
    lane: EnemyArmyLane,
    wave_number: u32,
    army_level: u32,
    difficulty: GameDifficulty,
    filled_slots: u32,
) -> u64 {
    let lane_salt = lane_salt_of(lane);
    let difficulty_salt = difficulty_salt_of(difficulty);
    let high = spec_hash_seed(spawn_seed ^ lane_salt, wave_number ^ (army_level << 8u32) ^ difficulty_salt, filled_slots);
    let low = spec_hash_seed(spawn_seed ^ 0x74AD_1E93u32, wave_number ^ lane_salt, difficulty_salt);
    ((high as u64) << 32u64) | (low as u64)
}

pub open spec fn lane_salt_of(lane: EnemyArmyLane) -> u32 {
    match lane {
        EnemyArmyLane::Small => 0x15F8_2B6Du32,
        EnemyArmyLane::Minor => 0x42C5_B9F0u32,
        EnemyArmyLane::Major => 0x9BA2_11CEu32,
    }
}

pub open spec fn difficulty_salt_of(difficulty: GameDifficulty) -> u32 {
    match difficulty {
        GameDifficulty::Recruit => 0x1A77_91C3u32,
        GameDifficulty::Experienced => 0x4B62_D4AFu32,
        GameDifficulty::AloneAgainstTheInfidels => 0x73D3_2AA1u32,
    }
}

pub fn enemy_loadout_seed(
    spawn_seed: u32,
    lane: EnemyArmyLane,
    wave_number: u32,
    army_level: u32,
    difficulty: GameDifficulty,
    filled_slots: u32,
) -> (r: u64)
    ensures
        r == spec_enemy_loadout_seed(spawn_seed, lane, wave_number, army_level, difficulty, filled_slots),
{
    let lane_salt = lane_seed_salt(lane);
    let difficulty_salt = difficulty_seed_salt(difficulty);
    let high = hash_seed(spawn_seed ^ lane_salt, wave_number ^ (army_level << 8) ^ difficulty_salt, filled_slots);
    let low = hash_seed(spawn_seed ^ 0x74AD_1E93, wave_number ^ lane_salt, difficulty_salt);
    ((high as u64) << 32) | (low as u64)
}

/// The sprite family an enemy is drawn with.
#[derive(Clone, Copy, Debug, PartialEq, Eq, Structural)]
pub enum EnemySpriteFamily {
    Infantry,
    Archer,
    Priest,
    Fallback,
}

/// The commander and the rescuable variants use the fallback sprite;
/// archers, priests and the rest their own family.
pub fn enemy_sprite_family_for_kind(kind: UnitKind) -> (r: EnemySpriteFamily)
    ensures
        r == (if kind == UnitKind::Commander || kind.spec_parts().2 {
            EnemySpriteFamily::Fallback
        } else if kind.spec_line().spec_is_archer_line() {
            EnemySpriteFamily::Archer
        } else if kind.spec_line().spec_is_priest_family_line() {
            EnemySpriteFamily::Priest
        } else {
            EnemySpriteFamily::Infantry
        }),
{
    if kind == UnitKind::Commander || kind.is_rescuable_variant() {
        return EnemySpriteFamily::Fallback;
    }
    if kind.is_archer_line() {
        EnemySpriteFamily::Archer
    } else if kind.is_priest_family_line() {
        EnemySpriteFamily::Priest
    } else {
        EnemySpriteFamily::Infantry
    }
}

/// The visual state of a bandit enemy.
#[derive(Clone, Copy, Debug, PartialEq, Eq, Structural)]
pub enum BanditVisualState {
    Idle,
    Move,
    Attack,
    Hit,
    Dead,
}

} // verus!
