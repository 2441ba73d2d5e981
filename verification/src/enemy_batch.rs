//! Which enemies a spawning batch brings: for each enemy in turn its spawn
//! number, the role that keeps the wave's army balanced, and the unit
//! drawn for that role, with a major army's first enemies drawn from the
//! tier it previews.
use vstd::prelude::*;

use crate::data::{
    EnemyTierPoolTierConfig, EnemyTierPoolsConfigFile, enemy_profile_key_for_kind, opposing_enemy_pool,
    spec_enemy_profile_key,
};
use crate::enemies::{
    EnemyArmyLane, EnemyRoleCounts, EnemySpawnRole, EnemyTierWeight, build_enemy_pool_roles_for_wave,
    choose_enemy_kind_for_role, choose_enemy_kind_for_tier_and_role, enemy_tier_mix_for_wave, entries_with_role,
    first_tier0_entry, hash_seed, lemma_melee_ranged_stay_level, lemma_support_cap_kept,
    major_wave_preview_target_count_for_batch, major_wave_preview_tier, of_role, pick_next_spawn_role,
    resolve_enemy_id, resolved_entries, role_entries, saturating_inc, spec_choose_enemy_kind,
    spec_choose_enemy_kind_for_role, spec_enemy_pool_roles, spec_hash_seed, spec_pick_next_spawn_role,
    spec_preview_target_count, spec_role_ids, spec_tier_mix, spec_unlocked_tier, weight_entries,
};
use crate::model::{
    GameDifficulty, PlayerFaction, RecruitArchetype, UnitKind, archetype_line, spec_kind_from_parts, spec_kind_of,
};
use crate::unit_line::spec_line_from_id;

verus! {

/// One enemy of a batch: its unit, its role in the army, and its spawn
/// number.
#[derive(Clone, Copy, Debug, PartialEq, Eq, Structural)]
pub struct PlannedEnemySpawn {
    pub kind: UnitKind,
    pub role: EnemySpawnRole,
    pub sequence: u32,
}

/// What stays fixed over a batch: the enemy faction, the wave and seed,
/// which roles the wave's pool offers, the tier a major army previews and
/// how many of the batch should come from it, and the unit to fall back
/// on.
#[derive(Clone, Copy, Debug, PartialEq, Eq, Structural)]
pub struct EnemyBatchContext {
    pub enemy_faction: PlayerFaction,
    pub wave_number: u32,
    pub spawn_seed: u32,
    pub has_melee: bool,
    pub has_ranged: bool,
    pub has_support: bool,
    pub preview_tier: Option<u8>,
    pub preview_target: u32,
    pub fallback_kind: UnitKind,
}

/// Where a batch stands between two enemies: the next spawn number, the
/// wave's role counts, and how many previewed-tier enemies it brought.
#[derive(Clone, Copy, Debug, PartialEq, Eq, Structural)]
pub struct EnemyBatchCursor {
    pub sequence: u32,
    pub counts: EnemyRoleCounts,
    pub preview_spawned: u32,
}

/// The pool has an entry of `role`.
pub open spec fn pool_has_role(pool: Seq<(UnitKind, EnemySpawnRole)>, role: EnemySpawnRole) -> bool {
    exists|i: int| 0 <= i < pool.len() && #[trigger] pool[i].1 == role
}

/// The enemy to fall back on: the peasant infantry of the enemy faction.
pub open spec fn spec_fallback_enemy_kind(player_faction: PlayerFaction) -> UnitKind {
    let enemy_faction = player_faction.spec_opposing();
    let named = match spec_line_from_id("peasant_infantry"@) {
        Some(line) => spec_kind_from_parts(enemy_faction, line, false),
        None => None,
    };
    match named {
        Some(kind) => kind,
        None => spec_kind_of(Some(enemy_faction), archetype_line(RecruitArchetype::Infantry), false),
    }
}

/// The fixed inputs of a batch of `count` enemies of wave `wave_number`
/// in army `lane`, drawn from `pool`.
pub open spec fn spec_batch_context(
    pool: Seq<(UnitKind, EnemySpawnRole)>,
    player_faction: PlayerFaction,
    wave_number: u32,
    lane: EnemyArmyLane,
    difficulty: GameDifficulty,
    count: u32,
    spawn_seed: u32,
) -> EnemyBatchContext {
    let preview_tier = if lane == EnemyArmyLane::Major && spec_unlocked_tier(wave_number) < 5 {
        Some((spec_unlocked_tier(wave_number) + 1) as u8)
    } else {
        None
    };
    EnemyBatchContext {
        enemy_faction: player_faction.spec_opposing(),
        wave_number,
        spawn_seed,
        has_melee: pool_has_role(pool, EnemySpawnRole::Melee),
        has_ranged: pool_has_role(pool, EnemySpawnRole::Ranged),
        has_support: pool_has_role(pool, EnemySpawnRole::Support),
        preview_tier,
        preview_target: if preview_tier is Some {
            spec_preview_target_count(count, spec_tier_mix(wave_number, lane, difficulty).1.weight_percent) as u32
        } else {
            0
        },
        fallback_kind: spec_fallback_enemy_kind(player_faction),
    }
}

/// The unit for the enemy with spawn number `sequence` and role `role`:
/// while a major army still owes previewed-tier enemies, one drawn from
/// the previewed tier's pool of that role, if that gives one; otherwise
/// one drawn from the wave's pool.
pub open spec fn spec_batch_kind(
    tiers: Seq<EnemyTierPoolTierConfig>,
    pool: Seq<(UnitKind, EnemySpawnRole)>,
    ctx: EnemyBatchContext,
    sequence: u32,
    role: EnemySpawnRole,
    force_preview: bool,
) -> UnitKind {
    let from_pool = spec_choose_enemy_kind_for_role(
        pool,
        role,
        spec_hash_seed(ctx.wave_number ^ ctx.spawn_seed, sequence ^ ctx.spawn_seed, 0xC55A_A5AAu32),
        ctx.fallback_kind,
    );
    if force_preview {
        match spec_choose_enemy_kind(
            tiers,
            ctx.enemy_faction,
            ctx.preview_tier.unwrap(),
            role,
            spec_hash_seed(ctx.wave_number ^ ctx.spawn_seed, sequence ^ ctx.spawn_seed, 0xD13F_0A1Du32),
        ) {
            Some(kind) => kind,
            None => from_pool,
        }
    } else {
        from_pool
    }
}

/// One enemy of a batch: the spawn number is taken (and advanced), the
/// role is picked from the wave's counts, the unit drawn, a previewed-tier
/// unit counted toward the preview, and the enemy kept, with its role
/// counted, only where its unit has enemy stats.
#[verifier::opaque]
pub open spec fn spec_batch_step(
    tiers: Seq<EnemyTierPoolTierConfig>,
    pool: Seq<(UnitKind, EnemySpawnRole)>,
    ctx: EnemyBatchContext,
    cursor: EnemyBatchCursor,
) -> (Option<PlannedEnemySpawn>, EnemyBatchCursor) {
    let sequence = cursor.sequence;
    let role = spec_pick_next_spawn_role(
        cursor.counts,
        ctx.has_melee,
        ctx.has_ranged,
        ctx.has_support,
        sequence ^ ctx.spawn_seed ^ 0x5F9D_A5C7u32,
    );
    let force_preview = ctx.preview_tier is Some && cursor.preview_spawned < ctx.preview_target;
    let kind = spec_batch_kind(tiers, pool, ctx, sequence, role, force_preview);
    let preview_spawned = if force_preview && kind.spec_tier_hint() == ctx.preview_tier {
        saturating_inc(cursor.preview_spawned)
    } else {
        cursor.preview_spawned
    };
    let kept = spec_enemy_profile_key(kind) is Some;
    (
        if kept {
            Some(PlannedEnemySpawn { kind, role, sequence })
        } else {
            None
        },
        EnemyBatchCursor {
            sequence: saturating_inc(sequence),
            counts: if kept {
                cursor.counts.spec_register(role)
            } else {
                cursor.counts
            },
            preview_spawned,
        },
    )
}

/// The enemies of the first `n` steps of a batch, and where it stands
/// after them.
pub open spec fn spec_batch_plan(
    tiers: Seq<EnemyTierPoolTierConfig>,
    pool: Seq<(UnitKind, EnemySpawnRole)>,
    ctx: EnemyBatchContext,
    cursor: EnemyBatchCursor,
    n: nat,
) -> (Seq<PlannedEnemySpawn>, EnemyBatchCursor)
    decreases n,
{
    if n == 0 {
        (Seq::empty(), cursor)
    } else {
        let (spawns, at) = spec_batch_plan(tiers, pool, ctx, cursor, (n - 1) as nat);
        let (spawn, next) = spec_batch_step(tiers, pool, ctx, at);
        (
            match spawn {
                Some(s) => spawns.push(s),
                None => spawns,
            },
            next,
        )
    }
}

fn pool_has(pool: &[(UnitKind, EnemySpawnRole)], role: EnemySpawnRole) -> (r: bool)
    ensures
        r == pool_has_role(pool@, role),
{
    let mut i: usize = 0;
    while i < pool.len()
        invariant
            i <= pool@.len(),
            forall|k: int| 0 <= k < i ==> #[trigger] pool@[k].1 != role,
        decreases pool@.len() - i,
    {
        if pool[i].1 == role {
            return true;
        }
        i = i + 1;
    }
    false
}

fn fallback_enemy_kind(player_faction: PlayerFaction) -> (r: UnitKind)
    ensures
        r == spec_fallback_enemy_kind(player_faction),
{
    match UnitKind::from_faction_and_unit_id(player_faction.opposing(), "peasant_infantry", false) {
        Some(kind) => kind,
        None => opposing_enemy_pool(player_faction)[0],
    }
}

fn batch_step(
    pools: &EnemyTierPoolsConfigFile,
    pool: &[(UnitKind, EnemySpawnRole)],
    ctx: EnemyBatchContext,
    cursor: EnemyBatchCursor,
) -> (r: (Option<PlannedEnemySpawn>, EnemyBatchCursor))
    ensures
        r == spec_batch_step(pools.tiers@, pool@, ctx, cursor),
{
    reveal(spec_batch_step);
    let sequence = cursor.sequence;
    let role = pick_next_spawn_role(
        cursor.counts,
        ctx.has_melee,
        ctx.has_ranged,
        ctx.has_support,
        sequence ^ ctx.spawn_seed ^ 0x5F9D_A5C7u32,
    );
    let force_preview = match ctx.preview_tier {
        Some(_) => cursor.preview_spawned < ctx.preview_target,
        None => false,
    };
    let pool_seed = hash_seed(ctx.wave_number ^ ctx.spawn_seed, sequence ^ ctx.spawn_seed, 0xC55A_A5AAu32);
    let kind = match ctx.preview_tier {
        Some(preview_tier) if force_preview => {
            let preview_seed = hash_seed(ctx.wave_number ^ ctx.spawn_seed, sequence ^ ctx.spawn_seed, 0xD13F_0A1Du32);
            match choose_enemy_kind_for_tier_and_role(pools, ctx.enemy_faction, preview_tier, role, preview_seed) {
                Some(kind) => kind,
                None => choose_enemy_kind_for_role(pool, role, pool_seed, ctx.fallback_kind),
            }
        },
        _ => choose_enemy_kind_for_role(pool, role, pool_seed, ctx.fallback_kind),
    };
    let previewed = match (kind.tier_hint(), ctx.preview_tier) {
        (Some(tier), Some(preview_tier)) => force_preview && tier == preview_tier,
        (None, None) => force_preview,
        _ => false,
    };
    let preview_spawned = if previewed {
        cursor.preview_spawned.saturating_add(1)
    } else {
        cursor.preview_spawned
    };
    let mut counts = cursor.counts;
    let spawn = if enemy_profile_key_for_kind(kind).is_some() {
        counts.register(role);
        Some(PlannedEnemySpawn { kind, role, sequence })
    } else {
        None
    };
    (spawn, EnemyBatchCursor { sequence: sequence.saturating_add(1), counts, preview_spawned })
}

/// The enemies a batch of `count` enemies of wave `wave_number` in army
/// `lane` brings, against a player of `player_faction` (see
/// `spec_batch_plan`). `spawn_sequence` and `counts`, the wave's role
/// counts, move on with the batch; a wave whose pool is empty brings none
/// and changes neither.
pub fn plan_enemy_batch(
    pools: &EnemyTierPoolsConfigFile,
    player_faction: PlayerFaction,
    wave_number: u32,
    lane: EnemyArmyLane,
    difficulty: GameDifficulty,
    count: u32,
    spawn_seed: u32,
    spawn_sequence: &mut u32,
    counts: &mut EnemyRoleCounts,
) -> (r: Vec<PlannedEnemySpawn>)
    requires
        lane == EnemyArmyLane::Major && spec_unlocked_tier(wave_number) < 5 && count > 0 && spec_tier_mix(
            wave_number,
            lane,
            difficulty,
        ).1.weight_percent > 0 ==> count * spec_tier_mix(wave_number, lane, difficulty).1.weight_percent + 50
            <= u32::MAX,
    ensures
        ({
            let pool = spec_enemy_pool_roles(pools.tiers@, player_faction.spec_opposing(), wave_number, lane, difficulty);
            let ctx = spec_batch_context(pool, player_faction, wave_number, lane, difficulty, count, spawn_seed);
            let start = EnemyBatchCursor { sequence: *old(spawn_sequence), counts: *old(counts), preview_spawned: 0 };
            let (spawns, end) = spec_batch_plan(pools.tiers@, pool, ctx, start, count as nat);
            &&& pool.len() == 0 ==> r@ == Seq::<PlannedEnemySpawn>::empty() && *final(spawn_sequence) == *old(
                spawn_sequence,
            ) && *final(counts) == *old(counts)
            &&& pool.len() > 0 ==> r@ == spawns && *final(spawn_sequence) == end.sequence && *final(counts)
                == end.counts
        }),
{
    let enemy_faction = player_faction.opposing();
    let pool = build_enemy_pool_roles_for_wave(pools, enemy_faction, wave_number, lane, difficulty);
    if pool.len() == 0 {
        return Vec::new();
    }
    let preview_tier = major_wave_preview_tier(wave_number, lane);
    let tier_mix = enemy_tier_mix_for_wave(wave_number, lane, difficulty);
    let preview_target = match preview_tier {
        Some(_) => major_wave_preview_target_count_for_batch(count, tier_mix[1].weight_percent),
        None => 0,
    };
    let ctx = EnemyBatchContext {
        enemy_faction,
        wave_number,
        spawn_seed,
        has_melee: pool_has(pool.as_slice(), EnemySpawnRole::Melee),
        has_ranged: pool_has(pool.as_slice(), EnemySpawnRole::Ranged),
        has_support: pool_has(pool.as_slice(), EnemySpawnRole::Support),
        preview_tier,
        preview_target,
        fallback_kind: fallback_enemy_kind(player_faction),
    };
    let ghost tiers = pools.tiers@;
    let ghost start = EnemyBatchCursor { sequence: *spawn_sequence, counts: *counts, preview_spawned: 0 };
    proof {
        assert(ctx == spec_batch_context(pool@, player_faction, wave_number, lane, difficulty, count, spawn_seed));
    }
    let mut cursor = start_cursor(*spawn_sequence, *counts);
    let mut spawns: Vec<PlannedEnemySpawn> = Vec::new();
    let mut i: u32 = 0;
    while i < count
        invariant
            i <= count,
            pools.tiers@ == tiers,
            (spawns@, cursor) == spec_batch_plan(tiers, pool@, ctx, start, i as nat),
        decreases count - i,
    {
        let (spawn, next) = batch_step(pools, pool.as_slice(), ctx, cursor);
        match spawn {
            Some(s) => spawns.push(s),
            None => {},
        }
        cursor = next;
        i = i + 1;
    }
    *spawn_sequence = cursor.sequence;
    *counts = cursor.counts;
    spawns
}

fn start_cursor(sequence: u32, counts: EnemyRoleCounts) -> (r: EnemyBatchCursor)
    ensures
        r == (EnemyBatchCursor { sequence, counts, preview_spawned: 0 }),
{
    EnemyBatchCursor { sequence, counts, preview_spawned: 0 }
}

/// What one step of a batch does to the spawn number and the counts.
proof fn lemma_batch_step_bookkeeping(
    tiers: Seq<EnemyTierPoolTierConfig>,
    pool: Seq<(UnitKind, EnemySpawnRole)>,
    ctx: EnemyBatchContext,
    cursor: EnemyBatchCursor,
)
    ensures
        ({
            let (spawn, next) = spec_batch_step(tiers, pool, ctx, cursor);
            &&& next.sequence == saturating_inc(cursor.sequence)
            &&& spawn is Some ==> spawn.unwrap().sequence == cursor.sequence && spec_enemy_profile_key(
                spawn.unwrap().kind,
            ) is Some && next.counts.total == saturating_inc(cursor.counts.total)
            &&& spawn is None ==> next.counts == cursor.counts
            &&& spawn is Some ==> next.counts == cursor.counts.spec_register(
                spec_pick_next_spawn_role(
                    cursor.counts,
                    ctx.has_melee,
                    ctx.has_ranged,
                    ctx.has_support,
                    cursor.sequence ^ ctx.spawn_seed ^ 0x5F9D_A5C7u32,
                ),
            )
        }),
{
    reveal(spec_batch_step);
}

/// After `n` steps from `cursor`, the batch has taken `n` spawn numbers
/// and counted each enemy it brings in the wave's total; it brought at
/// most `n` enemies, each with enemy stats for its unit and a spawn number
/// taken in the batch, in increasing order.
pub open spec fn batch_plan_bookkeeping_holds(
    plan: (Seq<PlannedEnemySpawn>, EnemyBatchCursor),
    cursor: EnemyBatchCursor,
    n: nat,
) -> bool {
    let spawns = plan.0;
    let end = plan.1;
    &&& end.sequence == cursor.sequence + n
    &&& end.counts.total == cursor.counts.total + spawns.len()
    &&& spawns.len() <= n
    &&& forall|k: int|
        #![trigger spawns[k]]
        0 <= k < spawns.len() ==> cursor.sequence <= spawns[k].sequence < end.sequence && spec_enemy_profile_key(
            spawns[k].kind,
        ) is Some
    &&& forall|a: int, b: int| 0 <= a < b < spawns.len() ==> #[trigger] spawns[a].sequence < #[trigger] spawns[b].sequence
}

/// Every enemy a batch brings has enemy stats for its unit, and its
/// spawn number is one of the numbers the batch took, in increasing
/// order; a batch of `n` steps takes `n` numbers and counts each enemy it
/// brings in the wave's total, as long as neither runs past `u32::MAX`.
pub proof fn lemma_batch_plan_numbers_and_counts(
    tiers: Seq<EnemyTierPoolTierConfig>,
    pool: Seq<(UnitKind, EnemySpawnRole)>,
    ctx: EnemyBatchContext,
    cursor: EnemyBatchCursor,
    n: nat,
)
    requires
        cursor.sequence + n <= u32::MAX,
        cursor.counts.total + n <= u32::MAX,
    ensures
        batch_plan_bookkeeping_holds(spec_batch_plan(tiers, pool, ctx, cursor, n), cursor, n),
    decreases n,
{
    if n > 0 {
        lemma_batch_plan_numbers_and_counts(tiers, pool, ctx, cursor, (n - 1) as nat);
        let plan = spec_batch_plan(tiers, pool, ctx, cursor, (n - 1) as nat);
        let spawns = plan.0;
        let at = plan.1;
        assert(batch_plan_bookkeeping_holds(plan, cursor, (n - 1) as nat));
        lemma_batch_step_bookkeeping(tiers, pool, ctx, at);
        let step = spec_batch_step(tiers, pool, ctx, at);
        let spawn = step.0;
        let next = step.1;
        match spawn {
            Some(s) => {
                let all = spawns.push(s);
                assert forall|a: int, b: int| 0 <= a < b < all.len() implies #[trigger] all[a].sequence
                    < #[trigger] all[b].sequence by {
                    if b < spawns.len() {
                        assert(all[a] == spawns[a] && all[b] == spawns[b]);
                    } else {
                        assert(all[a] == spawns[a]);
                    }
                }
                assert forall|k: int| #![trigger all[k]] 0 <= k < all.len() implies cursor.sequence <= all[k].sequence
                    < next.sequence && spec_enemy_profile_key(all[k].kind) is Some by {
                    if k < spawns.len() {
                        assert(all[k] == spawns[k]);
                    }
                }
                assert(spec_batch_plan(tiers, pool, ctx, cursor, n) == (all, next));
            },
            None => {
                assert(spec_batch_plan(tiers, pool, ctx, cursor, n) == (spawns, next));
                assert(batch_plan_bookkeeping_holds((spawns, next), cursor, n));
            },
        }
    }
}

/// A batch keeps its wave's army in shape: where the pool offers melee or
/// ranged enemies, supports never pass a quarter of the wave's enemies,
/// and where it offers both, melee and ranged counts stay within one of
/// each other, as long as the counts do not run past `u32::MAX`.
pub proof fn lemma_batch_keeps_army_shape(
    tiers: Seq<EnemyTierPoolTierConfig>,
    pool: Seq<(UnitKind, EnemySpawnRole)>,
    ctx: EnemyBatchContext,
    cursor: EnemyBatchCursor,
    n: nat,
)
    requires
        cursor.counts.total + n <= u32::MAX,
        cursor.counts.melee + n <= u32::MAX,
        cursor.counts.ranged + n <= u32::MAX,
    ensures
        ({
            let end = spec_batch_plan(tiers, pool, ctx, cursor, n).1;
            &&& (ctx.has_melee || ctx.has_ranged) && cursor.counts.support <= cursor.counts.total / 4
                ==> end.counts.support <= end.counts.total / 4
            &&& ctx.has_melee && ctx.has_ranged && cursor.counts.melee <= cursor.counts.ranged + 1
                && cursor.counts.ranged <= cursor.counts.melee + 1 ==> end.counts.melee <= end.counts.ranged + 1
                && end.counts.ranged <= end.counts.melee + 1
            &&& end.counts.total <= cursor.counts.total + n
            &&& end.counts.melee <= cursor.counts.melee + n
            &&& end.counts.ranged <= cursor.counts.ranged + n
        }),
    decreases n,
{
    if n > 0 {
        lemma_batch_keeps_army_shape(tiers, pool, ctx, cursor, (n - 1) as nat);
        let at = spec_batch_plan(tiers, pool, ctx, cursor, (n - 1) as nat).1;
        lemma_batch_step_bookkeeping(tiers, pool, ctx, at);
        let tie_seed = at.sequence ^ ctx.spawn_seed ^ 0x5F9D_A5C7u32;
        let role = spec_pick_next_spawn_role(at.counts, ctx.has_melee, ctx.has_ranged, ctx.has_support, tie_seed);
        if (ctx.has_melee || ctx.has_ranged) && cursor.counts.support <= cursor.counts.total / 4 {
            lemma_support_cap_kept(at.counts, ctx.has_melee, ctx.has_ranged, ctx.has_support, tie_seed);
        }
        if ctx.has_melee && ctx.has_ranged && cursor.counts.melee <= cursor.counts.ranged + 1 && cursor.counts.ranged
            <= cursor.counts.melee + 1 {
            lemma_melee_ranged_stay_level(at.counts, ctx.has_support, tie_seed);
        }
        assert(at.counts.spec_register(role).melee <= at.counts.melee + 1);
    }
}

/// Whether the enemy that a step from `cursor` brings is a forced preview:
/// the army previews a tier, the batch still owes previewed-tier enemies,
/// and the enemy brought is of the previewed tier.
pub open spec fn is_forced_preview(
    ctx: EnemyBatchContext,
    cursor: EnemyBatchCursor,
    spawn: Option<PlannedEnemySpawn>,
) -> bool {
    &&& ctx.preview_tier is Some
    &&& cursor.preview_spawned < ctx.preview_target
    &&& spawn is Some
    &&& spawn.unwrap().kind.spec_tier_hint() == ctx.preview_tier
}

/// How many of the enemies brought by the first `n` steps of a batch were
/// forced previews.
pub open spec fn forced_preview_spawns(
    tiers: Seq<EnemyTierPoolTierConfig>,
    pool: Seq<(UnitKind, EnemySpawnRole)>,
    ctx: EnemyBatchContext,
    cursor: EnemyBatchCursor,
    n: nat,
) -> nat
    decreases n,
{
    if n == 0 {
        0
    } else {
        let at = spec_batch_plan(tiers, pool, ctx, cursor, (n - 1) as nat).1;
        let spawn = spec_batch_step(tiers, pool, ctx, at).0;
        forced_preview_spawns(tiers, pool, ctx, cursor, (n - 1) as nat) + if is_forced_preview(ctx, at, spawn) {
            1nat
        } else {
            0nat
        }
    }
}

/// One step and the preview: a forced preview raises the preview count by
/// one; the count never falls, rises by at most one and never passes the
/// target; and once the target is met (or the army previews no tier) the
/// count stays and the enemy is drawn from the wave's pool.
pub proof fn lemma_batch_step_counts_previews(
    tiers: Seq<EnemyTierPoolTierConfig>,
    pool: Seq<(UnitKind, EnemySpawnRole)>,
    ctx: EnemyBatchContext,
    cursor: EnemyBatchCursor,
)
    requires
        cursor.preview_spawned <= ctx.preview_target,
    ensures
        ({
            let (spawn, next) = spec_batch_step(tiers, pool, ctx, cursor);
            &&& cursor.preview_spawned <= next.preview_spawned <= ctx.preview_target
            &&& next.preview_spawned <= cursor.preview_spawned + 1
            &&& is_forced_preview(ctx, cursor, spawn) ==> next.preview_spawned == cursor.preview_spawned + 1
            &&& (ctx.preview_tier is None || cursor.preview_spawned == ctx.preview_target) ==> next.preview_spawned
                == cursor.preview_spawned
            &&& (ctx.preview_tier is None || cursor.preview_spawned == ctx.preview_target) && spawn is Some
                ==> spawn.unwrap().kind == spec_choose_enemy_kind_for_role(
                pool,
                spawn.unwrap().role,
                spec_hash_seed(ctx.wave_number ^ ctx.spawn_seed, cursor.sequence ^ ctx.spawn_seed, 0xC55A_A5AAu32),
                ctx.fallback_kind,
            )
        }),
{
    reveal(spec_batch_step);
}

/// A batch forces no more previews than it owes: over any number of
/// steps, the forced previews, added to the previews already brought,
/// come to at most the preview count at the end, which stays within the
/// preview target.
pub proof fn lemma_forced_previews_within_target(
    tiers: Seq<EnemyTierPoolTierConfig>,
    pool: Seq<(UnitKind, EnemySpawnRole)>,
    ctx: EnemyBatchContext,
    cursor: EnemyBatchCursor,
    n: nat,
)
    requires
        cursor.preview_spawned <= ctx.preview_target,
    ensures
        forced_preview_spawns(tiers, pool, ctx, cursor, n) + cursor.preview_spawned <= spec_batch_plan(
            tiers,
            pool,
            ctx,
            cursor,
            n,
        ).1.preview_spawned,
        spec_batch_plan(tiers, pool, ctx, cursor, n).1.preview_spawned <= ctx.preview_target,
        forced_preview_spawns(tiers, pool, ctx, cursor, n) <= ctx.preview_target,
    decreases n,
{
    if n > 0 {
        lemma_forced_previews_within_target(tiers, pool, ctx, cursor, (n - 1) as nat);
        let at = spec_batch_plan(tiers, pool, ctx, cursor, (n - 1) as nat).1;
        lemma_batch_step_counts_previews(tiers, pool, ctx, at);
    }
}

/// `kind` is a unit of `faction`.
pub open spec fn of_faction(kind: UnitKind, faction: PlayerFaction) -> bool {
    kind.spec_parts().0 == Some(faction)
}

/// Every entry of `pool` is a unit of `faction`.
pub open spec fn pool_of_faction(pool: Seq<(UnitKind, EnemySpawnRole)>, faction: PlayerFaction) -> bool {
    forall|k: int| 0 <= k < pool.len() ==> of_faction(#[trigger] pool[k].0, faction)
}

proof fn lemma_resolved_entries_of_faction(ids: Seq<String>, faction: PlayerFaction, role: EnemySpawnRole, weight: u8)
    ensures
        pool_of_faction(resolved_entries(ids, faction, role, weight), faction),
    decreases ids.len(),
{
    if ids.len() > 0 {
        let rest = ids.drop_last();
        lemma_resolved_entries_of_faction(rest, faction, role, weight);
        let head = resolved_entries(rest, faction, role, weight);
        let tail = match resolve_enemy_id(faction, ids.last()@) {
            Some(kind) => Seq::new(weight as nat, |_k: int| (kind, role)),
            None => Seq::<(UnitKind, EnemySpawnRole)>::empty(),
        };
        let whole = resolved_entries(ids, faction, role, weight);
        assert(whole == head + tail);
        assert forall|k: int| 0 <= k < whole.len() implies of_faction(#[trigger] whole[k].0, faction) by {
            if k < head.len() {
                assert(whole[k] == head[k]);
            } else {
                assert(whole[k] == tail[k - head.len()]);
            }
        }
    }
}

proof fn lemma_weight_entries_of_faction(
    tiers: Seq<EnemyTierPoolTierConfig>,
    faction: PlayerFaction,
    weight: EnemyTierWeight,
)
    ensures
        pool_of_faction(weight_entries(tiers, faction, weight), faction),
{
    if weight.weight_percent > 0 {
        let melee = role_entries(tiers, faction, weight.tier, EnemySpawnRole::Melee, weight.weight_percent);
        let ranged = role_entries(tiers, faction, weight.tier, EnemySpawnRole::Ranged, weight.weight_percent);
        let support = role_entries(tiers, faction, weight.tier, EnemySpawnRole::Support, weight.weight_percent);
        match spec_role_ids(tiers, weight.tier, EnemySpawnRole::Melee) {
            Some(ids) => lemma_resolved_entries_of_faction(ids, faction, EnemySpawnRole::Melee, weight.weight_percent),
            None => {},
        }
        match spec_role_ids(tiers, weight.tier, EnemySpawnRole::Ranged) {
            Some(ids) => lemma_resolved_entries_of_faction(ids, faction, EnemySpawnRole::Ranged, weight.weight_percent),
            None => {},
        }
        match spec_role_ids(tiers, weight.tier, EnemySpawnRole::Support) {
            Some(ids) => lemma_resolved_entries_of_faction(
                ids,
                faction,
                EnemySpawnRole::Support,
                weight.weight_percent,
            ),
            None => {},
        }
        let all = weight_entries(tiers, faction, weight);
        assert(all == melee + ranged + support);
        assert forall|k: int| 0 <= k < all.len() implies of_faction(#[trigger] all[k].0, faction) by {
            if k < melee.len() {
                assert(all[k] == melee[k]);
            } else if k < melee.len() + ranged.len() {
                assert(all[k] == ranged[k - melee.len()]);
            } else {
                assert(all[k] == support[k - melee.len() - ranged.len()]);
            }
        }
    }
}

/// Every unit in the pool of a wave's army is of the faction the pool is
/// built for.
pub proof fn lemma_wave_pool_of_faction(
    tiers: Seq<EnemyTierPoolTierConfig>,
    faction: PlayerFaction,
    wave_number: u32,
    lane: EnemyArmyLane,
    difficulty: GameDifficulty,
)
    ensures
        pool_of_faction(spec_enemy_pool_roles(tiers, faction, wave_number, lane, difficulty), faction),
{
    let mix = spec_tier_mix(wave_number, lane, difficulty);
    let first = weight_entries(tiers, faction, mix.0);
    let second = weight_entries(tiers, faction, mix.1);
    lemma_weight_entries_of_faction(tiers, faction, mix.0);
    lemma_weight_entries_of_faction(tiers, faction, mix.1);
    let pool = spec_enemy_pool_roles(tiers, faction, wave_number, lane, difficulty);
    if (first + second).len() > 0 {
        assert(pool == first + second);
        assert forall|k: int| 0 <= k < pool.len() implies of_faction(#[trigger] pool[k].0, faction) by {
            if k < first.len() {
                assert(pool[k] == first[k]);
            } else {
                assert(pool[k] == second[k - first.len()]);
            }
        }
    } else {
        let melee = first_tier0_entry(tiers, faction, EnemySpawnRole::Melee);
        let ranged = first_tier0_entry(tiers, faction, EnemySpawnRole::Ranged);
        let support = first_tier0_entry(tiers, faction, EnemySpawnRole::Support);
        assert(pool == melee + ranged + support);
        assert forall|k: int| 0 <= k < pool.len() implies of_faction(#[trigger] pool[k].0, faction) by {
            if k < melee.len() {
                assert(pool[k] == melee[k]);
            } else if k < melee.len() + ranged.len() {
                assert(pool[k] == ranged[k - melee.len()]);
            } else {
                assert(pool[k] == support[k - melee.len() - ranged.len()]);
            }
        }
    }
}

proof fn lemma_pool_choice_of_faction(
    pool: Seq<(UnitKind, EnemySpawnRole)>,
    role: EnemySpawnRole,
    seed: u32,
    fallback_kind: UnitKind,
    faction: PlayerFaction,
)
    requires
        pool_of_faction(pool, faction),
        of_faction(fallback_kind, faction),
    ensures
        of_faction(spec_choose_enemy_kind_for_role(pool, role, seed, fallback_kind), faction),
{
    let matching = entries_with_role(pool, role);
    if pool.len() > 0 && matching.len() > 0 {
        let i = seed as int % matching.len() as int;
        assert(matching.contains(matching[i]));
        pool.lemma_filter_contains_rev(of_role(role), matching[i]);
        let k = choose|k: int| 0 <= k < pool.len() && pool[k] == matching[i];
        assert(of_faction(pool[k].0, faction));
    } else if pool.len() > 0 {
        let i = seed as int % pool.len() as int;
        assert(of_faction(pool[i].0, faction));
    }
}

/// The enemy to fall back on is of the enemy faction.
proof fn lemma_fallback_of_faction(player_faction: PlayerFaction)
    ensures
        of_faction(spec_fallback_enemy_kind(player_faction), player_faction.spec_opposing()),
{
    match player_faction {
        PlayerFaction::Christian => {},
        PlayerFaction::Muslim => {},
    }
}

proof fn lemma_batch_step_of_faction(
    tiers: Seq<EnemyTierPoolTierConfig>,
    pool: Seq<(UnitKind, EnemySpawnRole)>,
    ctx: EnemyBatchContext,
    cursor: EnemyBatchCursor,
)
    requires
        pool_of_faction(pool, ctx.enemy_faction),
        of_faction(ctx.fallback_kind, ctx.enemy_faction),
    ensures
        spec_batch_step(tiers, pool, ctx, cursor).0 matches Some(spawn) ==> of_faction(spawn.kind, ctx.enemy_faction),
{
    reveal(spec_batch_step);
    let sequence = cursor.sequence;
    let role = spec_pick_next_spawn_role(
        cursor.counts,
        ctx.has_melee,
        ctx.has_ranged,
        ctx.has_support,
        sequence ^ ctx.spawn_seed ^ 0x5F9D_A5C7u32,
    );
    lemma_pool_choice_of_faction(
        pool,
        role,
        spec_hash_seed(ctx.wave_number ^ ctx.spawn_seed, sequence ^ ctx.spawn_seed, 0xC55A_A5AAu32),
        ctx.fallback_kind,
        ctx.enemy_faction,
    );
}

/// Every enemy a batch brings fights for the other side: it is a unit of
/// the faction opposing the player's, whatever the wave, army, difficulty,
/// seed and counts.
pub proof fn lemma_batch_enemies_are_of_the_enemy_faction(
    tiers: Seq<EnemyTierPoolTierConfig>,
    player_faction: PlayerFaction,
    wave_number: u32,
    lane: EnemyArmyLane,
    difficulty: GameDifficulty,
    count: u32,
    spawn_seed: u32,
    cursor: EnemyBatchCursor,
    n: nat,
)
    ensures
        ({
            let pool = spec_enemy_pool_roles(tiers, player_faction.spec_opposing(), wave_number, lane, difficulty);
            let ctx = spec_batch_context(pool, player_faction, wave_number, lane, difficulty, count, spawn_seed);
            let spawns = spec_batch_plan(tiers, pool, ctx, cursor, n).0;
            forall|k: int| 0 <= k < spawns.len() ==> of_faction(#[trigger] spawns[k].kind, player_faction.spec_opposing())
        }),
    decreases n,
{
    let enemy = player_faction.spec_opposing();
    let pool = spec_enemy_pool_roles(tiers, enemy, wave_number, lane, difficulty);
    let ctx = spec_batch_context(pool, player_faction, wave_number, lane, difficulty, count, spawn_seed);
    if n > 0 {
        lemma_batch_enemies_are_of_the_enemy_faction(
            tiers,
            player_faction,
            wave_number,
            lane,
            difficulty,
            count,
            spawn_seed,
            cursor,
            (n - 1) as nat,
        );
        lemma_wave_pool_of_faction(tiers, enemy, wave_number, lane, difficulty);
        lemma_fallback_of_faction(player_faction);
        let plan = spec_batch_plan(tiers, pool, ctx, cursor, (n - 1) as nat);
        lemma_batch_step_of_faction(tiers, pool, ctx, plan.1);
        let spawns = plan.0;
        let step = spec_batch_step(tiers, pool, ctx, plan.1);
        if let Some(s) = step.0 {
            let all = spawns.push(s);
            assert forall|k: int| 0 <= k < all.len() implies of_faction(#[trigger] all[k].kind, enemy) by {
                if k < spawns.len() {
                    assert(all[k] == spawns[k]);
                }
            }
        }
    }
}

} // verus!
