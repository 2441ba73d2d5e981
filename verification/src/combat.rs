//! Combat rules that do not depend on the damage numbers: who may be
//! targeted, who deals no damage, which hits can be blocked or reflected,
//! and the generator behind the combat rolls.
use vstd::prelude::*;

use crate::inventory::lcg_step;
use crate::model::{EnemySpawnLane, EnemySpawnSource, Team, Unit, UnitKind};

verus! {

/// Priests deal no damage: they only support.
pub fn unit_is_non_damaging_support(unit: Unit) -> (r: bool)
    ensures
        r == unit.kind.spec_is_priest(),
{
    unit.kind.is_priest()
}

/// Enemies leave the commander alone while he has other units to hide
/// behind; every other target is allowed.
pub fn enemy_target_allowed(attacker_team: Team, target_kind: UnitKind, has_non_commander_friendlies: bool) -> (r: bool)
    ensures
        r == !(attacker_team == Team::Enemy && has_non_commander_friendlies && target_kind
            == UnitKind::Commander),
{
    if attacker_team == Team::Enemy && has_non_commander_friendlies && target_kind == UnitKind::Commander {
        return false;
    }
    true
}

/// The team a unit of `team` fights: each side fights the other, and
/// neutral units fight nobody.
pub open spec fn spec_opposing_team(team: Team) -> Option<Team> {
    match team {
        Team::Friendly => Some(Team::Enemy),
        Team::Enemy => Some(Team::Friendly),
        Team::Neutral => None,
    }
}

pub fn opposing_team(team: Team) -> (r: Option<Team>)
    ensures
        r == spec_opposing_team(team),
{
    match team {
        Team::Friendly => Some(Team::Enemy),
        Team::Enemy => Some(Team::Friendly),
        Team::Neutral => None,
    }
}

/// A unit may be attacked by an attacker of `attacker_team` when it is on
/// the team the attacker fights, still alive, and not a commander that
/// enemies must leave alone (see `enemy_target_allowed`).
pub fn attack_target_eligible(
    attacker_team: Team,
    target_team: Team,
    target_alive: bool,
    target_kind: UnitKind,
    has_non_commander_friendlies: bool,
) -> (r: bool)
    ensures
        r == (spec_opposing_team(attacker_team) == Some(target_team) && target_alive && !(attacker_team == Team::Enemy
            && has_non_commander_friendlies && target_kind == UnitKind::Commander)),
{
    match opposing_team(attacker_team) {
        Some(opposing) => opposing == target_team && target_alive && enemy_target_allowed(
            attacker_team,
            target_kind,
            has_non_commander_friendlies,
        ),
        None => false,
    }
}

/// A unit an attacker considers: whether it may be attacked, whether it is
/// within reach, and how far it is, as a key that orders as the distance
/// does.
#[derive(Clone, Copy, Debug, PartialEq, Eq, Structural)]
pub struct TargetCandidate {
    pub eligible: bool,
    pub in_reach: bool,
    pub distance_key: u32,
}

/// The candidate may be attacked now.
pub open spec fn candidate_counts(candidate: TargetCandidate) -> bool {
    candidate.eligible && candidate.in_reach
}

/// Candidate `i` is the target: it may be attacked now, none that may is
/// nearer, and every one before it that may is farther.
pub open spec fn is_nearest_target(candidates: Seq<TargetCandidate>, i: int) -> bool {
    &&& 0 <= i < candidates.len()
    &&& candidate_counts(candidates[i])
    &&& forall|j: int|
        0 <= j < candidates.len() && candidate_counts(#[trigger] candidates[j]) ==> candidates[i].distance_key
            <= candidates[j].distance_key
    &&& forall|j: int|
        0 <= j < i && candidate_counts(#[trigger] candidates[j]) ==> candidates[i].distance_key
            < candidates[j].distance_key
}

/// The nearest candidate that may be attacked now, the first of the
/// nearest on a tie; none when no candidate may be.
pub fn nearest_target(candidates: &[TargetCandidate]) -> (r: Option<usize>)
    ensures
        r is None <==> forall|j: int| 0 <= j < candidates@.len() ==> !candidate_counts(#[trigger] candidates@[j]),
        r matches Some(i) ==> is_nearest_target(candidates@, i as int),
{
    let mut best: Option<usize> = None;
    let mut k: usize = 0;
    while k < candidates.len()
        invariant
            k <= candidates@.len(),
            best is None ==> forall|j: int| 0 <= j < k ==> !candidate_counts(#[trigger] candidates@[j]),
            best matches Some(i) ==> {
                &&& i < k
                &&& candidate_counts(candidates@[i as int])
                &&& forall|j: int|
                    0 <= j < k && candidate_counts(#[trigger] candidates@[j]) ==> candidates@[i as int].distance_key
                        <= candidates@[j].distance_key
                &&& forall|j: int|
                    0 <= j < i && candidate_counts(#[trigger] candidates@[j]) ==> candidates@[i as int].distance_key
                        < candidates@[j].distance_key
            },
        decreases candidates@.len() - k,
    {
        let candidate = candidates[k];
        if candidate.eligible && candidate.in_reach {
            match best {
                Some(i) => {
                    if candidate.distance_key < candidates[i].distance_key {
                        best = Some(k);
                    }
                },
                None => {
                    best = Some(k);
                },
            }
        }
        k = k + 1;
    }
    best
}

/// The target is well defined: at most one candidate is the nearest one.
pub proof fn lemma_nearest_target_is_unique(candidates: Seq<TargetCandidate>, i: int, k: int)
    requires
        is_nearest_target(candidates, i),
        is_nearest_target(candidates, k),
    ensures
        i == k,
{
    if i < k {
        assert(candidate_counts(candidates[i]));
    } else if k < i {
        assert(candidate_counts(candidates[k]));
    }
}

/// Only units of a shielded lineage can block a hit.
pub fn is_shielded_block_target_kind(kind: UnitKind) -> (r: bool)
    ensures
        r == kind.spec_line().spec_has_shielded_trait(),
{
    kind.has_shielded_trait()
}

/// Melee reflection answers every attacker but archers.
pub fn is_melee_reflect_eligible_source_kind(kind: UnitKind) -> (r: bool)
    ensures
        r == !kind.spec_line().spec_is_archer_line(),
{
    !kind.is_archer_line()
}

/// The spawn lane of an enemy, where it has a spawn source.
pub fn enemy_spawn_lane_from_source(source: Option<&EnemySpawnSource>) -> (r: Option<EnemySpawnLane>)
    ensures
        r == (match source {
            Some(value) => Some(value.lane),
            None => None,
        }),
{
    match source {
        Some(value) => Some(value.lane),
        None => None,
    }
}

/// The seed the combat generator starts from.
pub const COMBAT_RNG_DEFAULT_STATE: u64 = 0xC0DE_A710_C001_BA11u64;

/// The generator behind the combat rolls (critical hits, blocks).
#[derive(Clone, Copy, Debug)]
pub struct CombatRngState {
    pub state: u64,
}

impl Default for CombatRngState {
    fn default() -> (r: Self)
        ensures
            r.state == COMBAT_RNG_DEFAULT_STATE,
    {
        CombatRngState { state: COMBAT_RNG_DEFAULT_STATE }
    }
}

impl CombatRngState {
    /// Advances the generator one step and returns the high 32 bits of
    /// the new state.
    pub fn next_u32(&mut self) -> (r: u32)
        ensures
            final(self).state == lcg_step(old(self).state),
            r == (final(self).state >> 32u64) as u32,
    {
        self.state = self.state.wrapping_mul(6_364_136_223_846_793_005).wrapping_add(1_442_695_040_888_963_407);
        (self.state >> 32) as u32
    }
}

} // verus!
