//! Pickups that the waves leave behind: the magnet and the equipment chest
//! of every third wave, the chests a defeated major army drops once, the
//! cap on gold packs, and the generator that scatters them.
use vstd::prelude::*;

use std::collections::HashSet;

use crate::inventory::lcg_step;

verus! {

broadcast use vstd::std_specs::hash::group_hash_axioms;

const MAGNET_PICKUP_WAVE_INTERVAL: u32 = 3;

const CHEST_PICKUP_WAVE_INTERVAL: u32 = 3;

/// A magnet spawns on every third wave.
pub fn should_spawn_magnet_for_wave(wave_number: u32) -> (r: bool)
    ensures
        r == (wave_number > 0 && wave_number % 3 == 0),
{
    wave_number > 0 && wave_number % MAGNET_PICKUP_WAVE_INTERVAL == 0
}

/// What the magnet of the last seen wave does as the current wave is
/// seen: `(true, _)` once the wave number has changed to a new non-zero
/// wave, which expires the old magnet, with `(_, true)` where the new wave
/// spawns one; `(false, false)` while the wave is the one already seen.
pub fn magnet_wave_lifecycle(last_seen_wave: u32, current_wave: u32) -> (r: (bool, bool))
    ensures
        r == (if current_wave == 0 || current_wave == last_seen_wave {
            (false, false)
        } else {
            (true, current_wave % 3 == 0)
        }),
{
    if current_wave == 0 || current_wave == last_seen_wave {
        return (false, false);
    }
    (true, should_spawn_magnet_for_wave(current_wave))
}

/// An equipment chest spawns on every third wave.
pub fn should_spawn_chest_for_wave(wave_number: u32) -> (r: bool)
    ensures
        r == (wave_number > 0 && wave_number % 3 == 0),
{
    wave_number > 0 && wave_number % CHEST_PICKUP_WAVE_INTERVAL == 0
}

/// As `magnet_wave_lifecycle`, for the equipment chest.
pub fn chest_wave_lifecycle(last_seen_wave: u32, current_wave: u32) -> (r: (bool, bool))
    ensures
        r == (if current_wave == 0 || current_wave == last_seen_wave {
            (false, false)
        } else {
            (true, current_wave % 3 == 0)
        }),
{
    if current_wave == 0 || current_wave == last_seen_wave {
        return (false, false);
    }
    (true, should_spawn_chest_for_wave(current_wave))
}

/// Records that the chests of a defeated major army of wave `wave_number`
/// are granted; true only the first time for that wave.
pub fn should_grant_major_boss_chests(granted_waves: &mut HashSet<u32>, wave_number: u32) -> (r: bool)
    ensures
        final(granted_waves)@ == old(granted_waves)@.insert(wave_number),
        r == !old(granted_waves)@.contains(wave_number),
{
    granted_waves.insert(wave_number)
}

/// A major army's chests are granted once per wave: a second grant of the
/// same wave is refused, and the wave stays recorded.
pub proof fn lemma_major_chests_granted_once(before: Set<u32>, wave_number: u32)
    ensures
        before.insert(wave_number).contains(wave_number),
        before.insert(wave_number).insert(wave_number) == before.insert(wave_number),
{
    assert(before.insert(wave_number).insert(wave_number) =~= before.insert(wave_number));
}

/// How many gold packs a run starts with: the configured count, at least
/// one.
pub fn initial_gold_pack_count(initial_spawn_count: u32) -> (r: u32)
    ensures
        r == (if initial_spawn_count < 1 { 1 } else { initial_spawn_count }),
        r >= 1,
{
    if initial_spawn_count < 1 {
        1
    } else {
        initial_spawn_count
    }
}

/// The drop timer may add a gold pack only while fewer than `max_active`
/// packs lie on the field.
pub fn gold_pack_timer_may_spawn(active_count: usize, max_active: u32) -> (r: bool)
    ensures
        r == (active_count < max_active),
{
    active_count < max_active as usize
}

/// How many of `requested` gold-pack spawn requests are honoured, in the
/// order they came, with `active_count` packs on the field: as many as fit
/// under `max_active`, none once the field is full.
pub open spec fn spec_gold_pack_requests_honoured(active_count: nat, max_active: u32, requested: nat) -> nat {
    if active_count >= max_active {
        0
    } else if requested <= max_active - active_count {
        requested
    } else {
        (max_active - active_count) as nat
    }
}

/// Counts the honoured gold-pack requests (see
/// `spec_gold_pack_requests_honoured`).
pub fn gold_pack_requests_honoured(active_count: usize, max_active: u32, requested: usize) -> (r: usize)
    ensures
        r == spec_gold_pack_requests_honoured(active_count as nat, max_active, requested as nat),
{
    let max: usize = max_active as usize;
    if active_count >= max {
        return 0;
    }
    let room = max - active_count;
    if requested <= room {
        requested
    } else {
        room
    }
}

/// Spawning keeps the gold packs under the cap: from a field within
/// `max_active` packs, neither a timer spawn nor the honoured requests
/// take it over the cap, and requests are cut short only when the field
/// is then full.
pub proof fn lemma_gold_packs_stay_under_cap(active_count: nat, max_active: u32, requested: nat)
    requires
        active_count <= max_active,
    ensures
        active_count < max_active ==> active_count + 1 <= max_active,
        spec_gold_pack_requests_honoured(active_count, max_active, requested) <= requested,
        active_count + spec_gold_pack_requests_honoured(active_count, max_active, requested) <= max_active,
        spec_gold_pack_requests_honoured(active_count, max_active, requested) < requested ==> active_count
            + spec_gold_pack_requests_honoured(active_count, max_active, requested) == max_active,
{
}

/// The wave the pickups count from: the current wave, at least 1, and
/// wave 1 before the waves have started.
pub fn current_wave_number(current_wave: Option<u32>) -> (r: u32)
    ensures
        r == (match current_wave {
            Some(wave) => if wave < 1 { 1 } else { wave },
            None => 1,
        }),
        r >= 1,
{
    match current_wave {
        Some(wave) => if wave < 1 { 1 } else { wave },
        None => 1,
    }
}

/// The commander's level, at least 1, and 1 before there is one.
pub fn current_commander_level(level: Option<u32>) -> (r: u32)
    ensures
        r == (match level {
            Some(level) => if level < 1 { 1 } else { level },
            None => 1,
        }),
        r >= 1,
{
    match level {
        Some(level) => if level < 1 { 1 } else { level },
        None => 1,
    }
}

/// The drop generator's state for a seed: the seed xor a fixed odd
/// constant, or a second constant should that give zero.
pub open spec fn spec_drop_rng_state_from_seed(seed: u32) -> u64 {
    let mixed = (seed as u64) ^ 0x9E37_79B9_7F4A_7C15u64;
    if mixed == 0 { 0xD0C5_AA11_BA77_5EEDu64 } else { mixed }
}

pub fn rng_state_from_seed(seed: u32) -> (r: u64)
    ensures
        r == spec_drop_rng_state_from_seed(seed),
        r != 0,
{
    let mixed = (seed as u64) ^ 0x9E37_79B9_7F4A_7C15u64;
    if mixed == 0 { 0xD0C5_AA11_BA77_5EEDu64 } else { mixed }
}

/// Advances the drop generator one step and returns the high 32 bits of
/// the new state.
pub fn next_random_u32(rng_state: &mut u64) -> (r: u32)
    ensures
        *final(rng_state) == lcg_step(*old(rng_state)),
        r == (*final(rng_state) >> 32u64) as u32,
{
    *rng_state = rng_state.wrapping_mul(6_364_136_223_846_793_005).wrapping_add(1_442_695_040_888_963_407);
    (*rng_state >> 32) as u32
}

} // verus!
