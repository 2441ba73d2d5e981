//! The hero roster: its subtypes, the heroes each faction has in each
//! subtype, and the validation that every required subtype is there with
//! well-formed, tier-5 heroes.
use vstd::prelude::*;

use crate::data::{HERO_ENTRIES_PER_SUBTYPE_PER_FACTION, required_hero_subtype_ids};
use crate::model::{PlayerFaction, UnitKind, spec_kind_from_parts};
use crate::text::{is_blank, str_eq, str_is_blank};
use crate::unit_line::spec_line_from_id;

verus! {

/// One hero of a subtype.
#[derive(Clone, Debug)]
pub struct HeroEntryConfig {
    pub hero_id: String,
    pub name: String,
    pub description: String,
    pub unit_id: String,
    pub abilities: Vec<String>,
    pub stat_notes: Vec<String>,
}

/// A hero subtype and, for each faction that has any, its heroes.
#[derive(Clone, Debug)]
pub struct HeroSubtypeConfig {
    pub id: String,
    pub unit_id: String,
    pub description: String,
    pub entries_by_faction: Vec<(PlayerFaction, Vec<HeroEntryConfig>)>,
}

/// The subtypes of the roster, each under its key.
#[derive(Clone, Debug)]
pub struct HeroesConfigFile {
    pub subtypes: Vec<(String, HeroSubtypeConfig)>,
}

/// The subtypes every roster must have.
pub open spec fn required_hero_subtypes() -> Seq<Seq<char>> {
    seq![
        "sword_shield"@,
        "spear"@,
        "two_handed_sword"@,
        "bow"@,
        "javelin"@,
        "beast_master"@,
        "super_priest"@,
        "super_fanatic"@,
        "super_knight"@,
    ]
}

/// What is wrong with the unit a hero or subtype names.
#[derive(Clone, Copy, Debug, PartialEq, Eq, Structural)]
pub enum HeroUnitProblem {
    /// The id names no unit of the faction.
    Unresolved,
    /// The unit is below tier 5 (or has no tier).
    BelowTier5,
}

/// What is wrong with one hero entry.
#[derive(Clone, Copy, Debug, PartialEq, Eq, Structural)]
pub enum HeroEntryProblem {
    EmptyHeroId,
    /// An earlier entry of the same faction has the same hero id.
    DuplicateHeroId,
    EmptyName,
    EmptyDescription,
    EmptyUnitId,
    Unit(HeroUnitProblem),
}

/// What is wrong with a subtype for one faction.
#[derive(Clone, Copy, Debug, PartialEq, Eq, Structural)]
pub enum HeroFactionProblem {
    /// The subtype's own unit.
    Unit(HeroUnitProblem),
    /// The faction has no entry list.
    MissingEntries,
    /// The faction's entry list is empty.
    NoEntries,
    /// The entry at `index`.
    Entry { index: usize, problem: HeroEntryProblem },
    /// The faction has this many heroes instead of the required count.
    WrongEntryCount(usize),
}

/// What is wrong with one subtype.
#[derive(Clone, Copy, Debug, PartialEq, Eq, Structural)]
pub enum HeroSubtypeProblem {
    EmptyKey,
    EmptyId,
    /// The subtype's id differs from its key.
    IdMismatch,
    EmptyDescription,
    EmptyUnitId,
    Faction { faction: PlayerFaction, problem: HeroFactionProblem },
}

/// Why a hero roster was rejected.
#[derive(Clone, Copy, Debug, PartialEq, Eq, Structural)]
pub enum HeroConfigError {
    /// The roster has no subtype.
    NoSubtypes,
    /// The required subtype at this position of the required list is
    /// missing.
    MissingSubtype(usize),
    /// The subtype at position `index`.
    Subtype { index: usize, problem: HeroSubtypeProblem },
}

/// The unit of `faction` that an id names (not a rescuable variant).
pub open spec fn resolve_hero_unit(faction: PlayerFaction, unit_id: Seq<char>) -> Option<UnitKind> {
    match spec_line_from_id(unit_id) {
        Some(line) => spec_kind_from_parts(faction, line, false),
        None => None,
    }
}

/// Heroes stand on units of tier 5 or more.
pub open spec fn hero_unit_problem(faction: PlayerFaction, unit_id: Seq<char>) -> Option<HeroUnitProblem> {
    match resolve_hero_unit(faction, unit_id) {
        None => Some(HeroUnitProblem::Unresolved),
        Some(kind) => match kind.spec_tier_hint() {
            Some(tier) => if tier < 5 { Some(HeroUnitProblem::BelowTier5) } else { None },
            None => Some(HeroUnitProblem::BelowTier5),
        },
    }
}

fn check_hero_unit(faction: PlayerFaction, unit_id: &str) -> (r: Option<HeroUnitProblem>)
    ensures
        r == hero_unit_problem(faction, unit_id@),
{
    match UnitKind::from_faction_and_unit_id(faction, unit_id, false) {
        None => Some(HeroUnitProblem::Unresolved),
        Some(kind) => match kind.tier_hint() {
            Some(tier) => if tier < 5 { Some(HeroUnitProblem::BelowTier5) } else { None },
            None => Some(HeroUnitProblem::BelowTier5),
        },
    }
}

/// The problem of the entry at `j`, given the entries before it.
pub open spec fn hero_entry_problem(entries: Seq<HeroEntryConfig>, faction: PlayerFaction, j: int) -> Option<HeroEntryProblem> {
    let entry = entries[j];
    if is_blank(entry.hero_id@) {
        Some(HeroEntryProblem::EmptyHeroId)
    } else if exists|k: int| 0 <= k < j && #[trigger] entries[k].hero_id@ == entry.hero_id@ {
        Some(HeroEntryProblem::DuplicateHeroId)
    } else if is_blank(entry.name@) {
        Some(HeroEntryProblem::EmptyName)
    } else if is_blank(entry.description@) {
        Some(HeroEntryProblem::EmptyDescription)
    } else if is_blank(entry.unit_id@) {
        Some(HeroEntryProblem::EmptyUnitId)
    } else {
        match hero_unit_problem(faction, entry.unit_id@) {
            Some(p) => Some(HeroEntryProblem::Unit(p)),
            None => None,
        }
    }
}

/// The first entry problem from position `j` on.
pub open spec fn first_hero_entry_problem(entries: Seq<HeroEntryConfig>, faction: PlayerFaction, j: int) -> Option<
    (usize, HeroEntryProblem),
>
    decreases entries.len() - j,
{
    if j < 0 || j >= entries.len() {
        None
    } else if hero_entry_problem(entries, faction, j) is Some {
        Some((j as usize, hero_entry_problem(entries, faction, j).unwrap()))
    } else {
        first_hero_entry_problem(entries, faction, j + 1)
    }
}

fn has_earlier_hero_id(entries: &[HeroEntryConfig], j: usize) -> (r: bool)
    requires
        j < entries@.len(),
    ensures
        r == exists|k: int| 0 <= k < j && #[trigger] entries@[k].hero_id@ == entries@[j as int].hero_id@,
{
    let mut k: usize = 0;
    while k < j
        invariant
            j < entries@.len(),
            k <= j,
            forall|m: int| 0 <= m < k ==> #[trigger] entries@[m].hero_id@ != entries@[j as int].hero_id@,
        decreases j - k,
    {
        if str_eq(entries[k].hero_id.as_str(), entries[j].hero_id.as_str()) {
            return true;
        }
        k = k + 1;
    }
    false
}

/// Checks the entries of one faction of a subtype, in order.
pub fn validate_hero_entries(entries: &[HeroEntryConfig], faction: PlayerFaction) -> (r: Option<(usize, HeroEntryProblem)>)
    ensures
        r == first_hero_entry_problem(entries@, faction, 0),
{
    let mut j: usize = 0;
    while j < entries.len()
        invariant
            j <= entries@.len(),
            first_hero_entry_problem(entries@, faction, 0) == first_hero_entry_problem(entries@, faction, j as int),
        decreases entries@.len() - j,
    {
        let entry = &entries[j];
        let problem = if str_is_blank(entry.hero_id.as_str()) {
            Some(HeroEntryProblem::EmptyHeroId)
        } else if has_earlier_hero_id(entries, j) {
            Some(HeroEntryProblem::DuplicateHeroId)
        } else if str_is_blank(entry.name.as_str()) {
            Some(HeroEntryProblem::EmptyName)
        } else if str_is_blank(entry.description.as_str()) {
            Some(HeroEntryProblem::EmptyDescription)
        } else if str_is_blank(entry.unit_id.as_str()) {
            Some(HeroEntryProblem::EmptyUnitId)
        } else {
            match check_hero_unit(faction, entry.unit_id.as_str()) {
                Some(p) => Some(HeroEntryProblem::Unit(p)),
                None => None,
            }
        };
        proof {
            assert(problem == hero_entry_problem(entries@, faction, j as int));
        }
        if let Some(p) = problem {
            return Some((j, p));
        }
        j = j + 1;
    }
    None
}

/// The entries of `faction`, from the first pair at or after `i` that is
/// for it.
pub open spec fn faction_entries_from(
    pairs: Seq<(PlayerFaction, Vec<HeroEntryConfig>)>,
    faction: PlayerFaction,
    i: int,
) -> Option<Seq<HeroEntryConfig>>
    decreases pairs.len() - i,
{
    if i < 0 || i >= pairs.len() {
        None
    } else if pairs[i].0 == faction {
        Some(pairs[i].1@)
    } else {
        faction_entries_from(pairs, faction, i + 1)
    }
}

/// The heroes a subtype lists for `faction`.
pub fn hero_entries_for_faction(subtype: &HeroSubtypeConfig, faction: PlayerFaction) -> (r: Option<&[HeroEntryConfig]>)
    ensures
        r is Some == faction_entries_from(subtype.entries_by_faction@, faction, 0) is Some,
        r is Some ==> r.unwrap()@ == faction_entries_from(subtype.entries_by_faction@, faction, 0).unwrap(),
{
    let mut i: usize = 0;
    while i < subtype.entries_by_faction.len()
        invariant
            i <= subtype.entries_by_faction@.len(),
            faction_entries_from(subtype.entries_by_faction@, faction, 0) == faction_entries_from(
                subtype.entries_by_faction@,
                faction,
                i as int,
            ),
        decreases subtype.entries_by_faction@.len() - i,
    {
        if subtype.entries_by_faction[i].0 == faction {
            return Some(subtype.entries_by_faction[i].1.as_slice());
        }
        i = i + 1;
    }
    None
}

/// What is wrong with a subtype for `faction`: its unit, then the
/// faction's entry list (missing, empty, a bad entry, or not exactly the
/// required count).
pub open spec fn hero_faction_problem(subtype: HeroSubtypeConfig, faction: PlayerFaction) -> Option<HeroFactionProblem> {
    if hero_unit_problem(faction, subtype.unit_id@) is Some {
        Some(HeroFactionProblem::Unit(hero_unit_problem(faction, subtype.unit_id@).unwrap()))
    } else {
        match faction_entries_from(subtype.entries_by_faction@, faction, 0) {
            None => Some(HeroFactionProblem::MissingEntries),
            Some(entries) => if entries.len() == 0 {
                Some(HeroFactionProblem::NoEntries)
            } else if first_hero_entry_problem(entries, faction, 0) is Some {
                let (index, problem) = first_hero_entry_problem(entries, faction, 0).unwrap();
                Some(HeroFactionProblem::Entry { index, problem })
            } else if entries.len() != HERO_ENTRIES_PER_SUBTYPE_PER_FACTION {
                Some(HeroFactionProblem::WrongEntryCount(entries.len() as usize))
            } else {
                None
            },
        }
    }
}

fn validate_hero_faction(subtype: &HeroSubtypeConfig, faction: PlayerFaction) -> (r: Option<HeroFactionProblem>)
    ensures
        r == hero_faction_problem(*subtype, faction),
{
    if let Some(p) = check_hero_unit(faction, subtype.unit_id.as_str()) {
        return Some(HeroFactionProblem::Unit(p));
    }
    let entries = match hero_entries_for_faction(subtype, faction) {
        Some(entries) => entries,
        None => return Some(HeroFactionProblem::MissingEntries),
    };
    if entries.len() == 0 {
        return Some(HeroFactionProblem::NoEntries);
    }
    if let Some((index, problem)) = validate_hero_entries(entries, faction) {
        return Some(HeroFactionProblem::Entry { index, problem });
    }
    if entries.len() != HERO_ENTRIES_PER_SUBTYPE_PER_FACTION {
        return Some(HeroFactionProblem::WrongEntryCount(entries.len()));
    }
    None
}

/// What is wrong with the subtype filed under `key`: a blank key, id,
/// description or unit id, an id other than the key, then its problems
/// for the Christian faction and then the Muslim one.
pub open spec fn hero_subtype_problem(key: Seq<char>, subtype: HeroSubtypeConfig) -> Option<HeroSubtypeProblem> {
    if is_blank(key) {
        Some(HeroSubtypeProblem::EmptyKey)
    } else if is_blank(subtype.id@) {
        Some(HeroSubtypeProblem::EmptyId)
    } else if subtype.id@ != key {
        Some(HeroSubtypeProblem::IdMismatch)
    } else if is_blank(subtype.description@) {
        Some(HeroSubtypeProblem::EmptyDescription)
    } else if is_blank(subtype.unit_id@) {
        Some(HeroSubtypeProblem::EmptyUnitId)
    } else if hero_faction_problem(subtype, PlayerFaction::Christian) is Some {
        Some(
            HeroSubtypeProblem::Faction {
                faction: PlayerFaction::Christian,
                problem: hero_faction_problem(subtype, PlayerFaction::Christian).unwrap(),
            },
        )
    } else if hero_faction_problem(subtype, PlayerFaction::Muslim) is Some {
        Some(
            HeroSubtypeProblem::Faction {
                faction: PlayerFaction::Muslim,
                problem: hero_faction_problem(subtype, PlayerFaction::Muslim).unwrap(),
            },
        )
    } else {
        None
    }
}

/// Checks one subtype of the roster.
pub fn validate_hero_subtype(key: &str, subtype: &HeroSubtypeConfig) -> (r: Option<HeroSubtypeProblem>)
    ensures
        r == hero_subtype_problem(key@, *subtype),
{
    if str_is_blank(key) {
        return Some(HeroSubtypeProblem::EmptyKey);
    }
    if str_is_blank(subtype.id.as_str()) {
        return Some(HeroSubtypeProblem::EmptyId);
    }
    if !str_eq(subtype.id.as_str(), key) {
        return Some(HeroSubtypeProblem::IdMismatch);
    }
    if str_is_blank(subtype.description.as_str()) {
        return Some(HeroSubtypeProblem::EmptyDescription);
    }
    if str_is_blank(subtype.unit_id.as_str()) {
        return Some(HeroSubtypeProblem::EmptyUnitId);
    }
    let factions = PlayerFaction::all();
    if let Some(problem) = validate_hero_faction(subtype, factions[0]) {
        return Some(HeroSubtypeProblem::Faction { faction: factions[0], problem });
    }
    if let Some(problem) = validate_hero_faction(subtype, factions[1]) {
        return Some(HeroSubtypeProblem::Faction { faction: factions[1], problem });
    }
    None
}

/// The roster has a subtype under key `key`.
pub open spec fn has_subtype_key(subtypes: Seq<(String, HeroSubtypeConfig)>, key: Seq<char>) -> bool {
    exists|i: int| 0 <= i < subtypes.len() && #[trigger] subtypes[i].0@ == key
}

/// The first required subtype, from position `r` of the required list on,
/// that the roster lacks.
pub open spec fn first_missing_subtype(subtypes: Seq<(String, HeroSubtypeConfig)>, r: int) -> Option<usize>
    decreases 9 - r,
{
    if r < 0 || r >= 9 {
        None
    } else if !has_subtype_key(subtypes, required_hero_subtypes()[r]) {
        Some(r as usize)
    } else {
        first_missing_subtype(subtypes, r + 1)
    }
}

/// The first subtype problem from position `i` on.
pub open spec fn first_subtype_problem(subtypes: Seq<(String, HeroSubtypeConfig)>, i: int) -> Option<HeroConfigError>
    decreases subtypes.len() - i,
{
    if i < 0 || i >= subtypes.len() {
        None
    } else if hero_subtype_problem(subtypes[i].0@, subtypes[i].1) is Some {
        Some(
            HeroConfigError::Subtype {
                index: i as usize,
                problem: hero_subtype_problem(subtypes[i].0@, subtypes[i].1).unwrap(),
            },
        )
    } else {
        first_subtype_problem(subtypes, i + 1)
    }
}

/// Why a hero roster is invalid, if it is: no subtype at all, a required
/// subtype missing, or the first subtype with a problem.
pub open spec fn spec_heroes_error(subtypes: Seq<(String, HeroSubtypeConfig)>) -> Option<HeroConfigError> {
    if subtypes.len() == 0 {
        Some(HeroConfigError::NoSubtypes)
    } else if first_missing_subtype(subtypes, 0) is Some {
        Some(HeroConfigError::MissingSubtype(first_missing_subtype(subtypes, 0).unwrap()))
    } else {
        first_subtype_problem(subtypes, 0)
    }
}

fn has_hero_subtype_key(config: &HeroesConfigFile, key: &str) -> (r: bool)
    ensures
        r == has_subtype_key(config.subtypes@, key@),
{
    let mut i: usize = 0;
    while i < config.subtypes.len()
        invariant
            i <= config.subtypes@.len(),
            forall|m: int| 0 <= m < i ==> #[trigger] config.subtypes@[m].0@ != key@,
        decreases config.subtypes@.len() - i,
    {
        if str_eq(config.subtypes[i].0.as_str(), key) {
            return true;
        }
        i = i + 1;
    }
    false
}

/// Validates the hero roster (see `spec_heroes_error`).
pub fn validate_heroes(config: &HeroesConfigFile) -> (r: Result<(), HeroConfigError>)
    ensures
        r == (match spec_heroes_error(config.subtypes@) {
            Some(e) => Err(e),
            None => Ok(()),
        }),
{
    if config.subtypes.len() == 0 {
        return Err(HeroConfigError::NoSubtypes);
    }
    let required = required_hero_subtype_ids();
    let mut r: usize = 0;
    while r < 9
        invariant
            r <= 9,
            config.subtypes@.len() > 0,
            required@.len() == 9,
            forall|k: int| 0 <= k < 9 ==> #[trigger] required@[k]@ == required_hero_subtypes()[k],
            first_missing_subtype(config.subtypes@, 0) == first_missing_subtype(config.subtypes@, r as int),
        decreases 9 - r,
    {
        let present = has_hero_subtype_key(config, required[r]);
        proof {
            assert(required@[r as int]@ == required_hero_subtypes()[r as int]);
        }
        if !present {
            proof {
                assert(first_missing_subtype(config.subtypes@, r as int) == Some(r));
            }
            return Err(HeroConfigError::MissingSubtype(r));
        }
        r = r + 1;
    }
    let mut i: usize = 0;
    while i < config.subtypes.len()
        invariant
            i <= config.subtypes@.len(),
            config.subtypes@.len() > 0,
            first_missing_subtype(config.subtypes@, 0) is None,
            first_subtype_problem(config.subtypes@, 0) == first_subtype_problem(config.subtypes@, i as int),
        decreases config.subtypes@.len() - i,
    {
        if let Some(problem) = validate_hero_subtype(config.subtypes[i].0.as_str(), &config.subtypes[i].1) {
            return Err(HeroConfigError::Subtype { index: i, problem });
        }
        i = i + 1;
    }
    Ok(())
}

proof fn lemma_valid_subtypes_from(subtypes: Seq<(String, HeroSubtypeConfig)>, j: int, i: int)
    requires
        0 <= j <= i < subtypes.len(),
        first_subtype_problem(subtypes, j) is None,
    ensures
        hero_subtype_problem(subtypes[i].0@, subtypes[i].1) is None,
    decreases i - j,
{
    if j < i {
        lemma_valid_subtypes_from(subtypes, j + 1, i);
    }
}

proof fn lemma_valid_entries_from(entries: Seq<HeroEntryConfig>, faction: PlayerFaction, j: int, m: int)
    requires
        0 <= j <= m < entries.len(),
        first_hero_entry_problem(entries, faction, j) is None,
    ensures
        hero_entry_problem(entries, faction, m) is None,
    decreases m - j,
{
    if j < m {
        lemma_valid_entries_from(entries, faction, j + 1, m);
    }
}

proof fn lemma_missing_subtype_none(subtypes: Seq<(String, HeroSubtypeConfig)>, r: int, k: int)
    requires
        0 <= r <= k < 9,
        first_missing_subtype(subtypes, r) is None,
    ensures
        has_subtype_key(subtypes, required_hero_subtypes()[k]),
    decreases k - r,
{
    if r < k {
        lemma_missing_subtype_none(subtypes, r + 1, k);
    }
}

/// A hero unit passes exactly when its id names a unit of the faction whose
/// tier is 5 or more: an id that names none is unresolved, and a unit
/// below tier 5 (or with no tier) is refused as below tier 5.
pub proof fn lemma_hero_units_are_tier_five_or_more(faction: PlayerFaction, unit_id: Seq<char>)
    ensures
        hero_unit_problem(faction, unit_id) is None <==> (resolve_hero_unit(faction, unit_id) matches Some(kind)
            && kind.spec_tier_hint() matches Some(tier) && tier >= 5),
        resolve_hero_unit(faction, unit_id) is None ==> hero_unit_problem(faction, unit_id) == Some(
            HeroUnitProblem::Unresolved,
        ),
        resolve_hero_unit(faction, unit_id) is Some && !(resolve_hero_unit(faction, unit_id).unwrap().spec_tier_hint()
            matches Some(tier) && tier >= 5) ==> hero_unit_problem(faction, unit_id) == Some(
            HeroUnitProblem::BelowTier5,
        ),
{
}

/// Every entry of a faction that passes validation stands on a unit of
/// that faction of tier 5 or more.
pub proof fn lemma_valid_hero_entries_are_tier_five_or_more(entries: Seq<HeroEntryConfig>, faction: PlayerFaction)
    requires
        first_hero_entry_problem(entries, faction, 0) is None,
    ensures
        forall|m: int|
            0 <= m < entries.len() ==> (resolve_hero_unit(faction, #[trigger] entries[m].unit_id@) matches Some(kind)
                && kind.spec_tier_hint() matches Some(tier) && tier >= 5),
{
    assert forall|m: int| 0 <= m < entries.len() implies (resolve_hero_unit(faction, #[trigger] entries[m].unit_id@)
        matches Some(kind) && kind.spec_tier_hint() matches Some(tier) && tier >= 5) by {
        lemma_valid_entries_from(entries, faction, 0, m);
        lemma_hero_units_are_tier_five_or_more(faction, entries[m].unit_id@);
    }
}

/// A valid roster has every required subtype, and for every subtype and
/// faction exactly the required number of heroes, with distinct hero ids,
/// each on a unit of tier 5 or more of that faction.
pub proof fn lemma_valid_roster_is_complete(subtypes: Seq<(String, HeroSubtypeConfig)>, faction: PlayerFaction)
    requires
        spec_heroes_error(subtypes) is None,
    ensures
        forall|k: int| 0 <= k < 9 ==> has_subtype_key(subtypes, #[trigger] required_hero_subtypes()[k]),
        forall|i: int|
            0 <= i < subtypes.len() ==> {
                let entries = faction_entries_from(#[trigger] subtypes[i].1.entries_by_faction@, faction, 0);
                &&& entries is Some
                &&& entries.unwrap().len() == HERO_ENTRIES_PER_SUBTYPE_PER_FACTION
                &&& forall|a: int, b: int|
                    0 <= a < b < entries.unwrap().len() ==> #[trigger] entries.unwrap()[a].hero_id@
                        != #[trigger] entries.unwrap()[b].hero_id@
                &&& forall|m: int|
                    0 <= m < entries.unwrap().len() ==> hero_unit_problem(faction, #[trigger] entries.unwrap()[m].unit_id@)
                        is None
            },
{
    assert forall|k: int| 0 <= k < 9 implies has_subtype_key(subtypes, #[trigger] required_hero_subtypes()[k]) by {
        lemma_missing_subtype_none(subtypes, 0, k);
    }
    assert forall|i: int| 0 <= i < subtypes.len() implies {
        let entries = faction_entries_from(#[trigger] subtypes[i].1.entries_by_faction@, faction, 0);
        &&& entries is Some
        &&& entries.unwrap().len() == HERO_ENTRIES_PER_SUBTYPE_PER_FACTION
        &&& forall|a: int, b: int|
            0 <= a < b < entries.unwrap().len() ==> #[trigger] entries.unwrap()[a].hero_id@
                != #[trigger] entries.unwrap()[b].hero_id@
        &&& forall|m: int|
            0 <= m < entries.unwrap().len() ==> hero_unit_problem(faction, #[trigger] entries.unwrap()[m].unit_id@) is None
    } by {
        lemma_valid_subtypes_from(subtypes, 0, i);
        let subtype = subtypes[i].1;
        assert(hero_faction_problem(subtype, faction) is None) by {
            match faction {
                PlayerFaction::Christian => {},
                PlayerFaction::Muslim => {},
            }
        }
        let entries = faction_entries_from(subtype.entries_by_faction@, faction, 0).unwrap();
        assert forall|a: int, b: int| 0 <= a < b < entries.len() implies #[trigger] entries[a].hero_id@
            != #[trigger] entries[b].hero_id@ by {
            lemma_valid_entries_from(entries, faction, 0, b);
        }
        assert forall|m: int| 0 <= m < entries.len() implies hero_unit_problem(faction, #[trigger] entries[m].unit_id@)
            is None by {
            lemma_valid_entries_from(entries, faction, 0, m);
        }
    }
}


/// The first subtype, from position `i` of the roster on, kept under key
/// `key`.
pub open spec fn subtype_from(subtypes: Seq<(String, HeroSubtypeConfig)>, key: Seq<char>, i: int) -> Option<
    HeroSubtypeConfig,
>
    decreases subtypes.len() - i,
{
    if i < 0 || i >= subtypes.len() {
        None
    } else if subtypes[i].0@ == key {
        Some(subtypes[i].1)
    } else {
        subtype_from(subtypes, key, i + 1)
    }
}

/// The heroes the roster lists for `faction` in the subtype under `key`.
pub open spec fn roster_entries(subtypes: Seq<(String, HeroSubtypeConfig)>, faction: PlayerFaction, key: Seq<char>) -> Option<
    Seq<HeroEntryConfig>,
> {
    match subtype_from(subtypes, key, 0) {
        Some(subtype) => faction_entries_from(subtype.entries_by_faction@, faction, 0),
        None => None,
    }
}

impl HeroesConfigFile {
    /// The subtype kept under `subtype_id`.
    pub fn subtype_for_id(&self, subtype_id: &str) -> (r: Option<&HeroSubtypeConfig>)
        ensures
            r is Some == subtype_from(self.subtypes@, subtype_id@, 0) is Some,
            r is Some ==> *r.unwrap() == subtype_from(self.subtypes@, subtype_id@, 0).unwrap(),
    {
        let mut i: usize = 0;
        while i < self.subtypes.len()
            invariant
                i <= self.subtypes@.len(),
                subtype_from(self.subtypes@, subtype_id@, 0) == subtype_from(self.subtypes@, subtype_id@, i as int),
            decreases self.subtypes@.len() - i,
        {
            if str_eq(self.subtypes[i].0.as_str(), subtype_id) {
                return Some(&self.subtypes[i].1);
            }
            i = i + 1;
        }
        None
    }

    /// The unit that the subtype under `subtype_id` fights as.
    pub fn unit_id_for_subtype(&self, subtype_id: &str) -> (r: Option<&str>)
        ensures
            r is Some == subtype_from(self.subtypes@, subtype_id@, 0) is Some,
            r is Some ==> r.unwrap()@ == subtype_from(self.subtypes@, subtype_id@, 0).unwrap().unit_id@,
    {
        match self.subtype_for_id(subtype_id) {
            Some(subtype) => Some(subtype.unit_id.as_str()),
            None => None,
        }
    }

    /// The heroes of `faction` in the subtype under `subtype_id`.
    pub fn entries_for_faction_and_subtype(&self, faction: PlayerFaction, subtype_id: &str) -> (r: Option<
        &[HeroEntryConfig],
    >)
        ensures
            r is Some == roster_entries(self.subtypes@, faction, subtype_id@) is Some,
            r is Some ==> r.unwrap()@ == roster_entries(self.subtypes@, faction, subtype_id@).unwrap(),
    {
        match self.subtype_for_id(subtype_id) {
            Some(subtype) => hero_entries_for_faction(subtype, faction),
            None => None,
        }
    }

    /// The hero that `seed` picks among the heroes of `faction` in the
    /// subtype under `subtype_id`: the one at `seed` modulo their number;
    /// none where there is no such hero.
    pub fn roll_entry_for_faction_and_subtype(&self, faction: PlayerFaction, subtype_id: &str, seed: u32) -> (r:
        Option<&HeroEntryConfig>)
        ensures
            r is Some == (roster_entries(self.subtypes@, faction, subtype_id@) is Some && roster_entries(
                self.subtypes@,
                faction,
                subtype_id@,
            ).unwrap().len() > 0),
            r is Some ==> {
                let entries = roster_entries(self.subtypes@, faction, subtype_id@).unwrap();
                *r.unwrap() == entries[seed as int % entries.len() as int]
            },
    {
        let entries = match self.entries_for_faction_and_subtype(faction, subtype_id) {
            Some(entries) => entries,
            None => return None,
        };
        if entries.len() == 0 {
            return None;
        }
        let index: usize = (seed as usize) % entries.len();
        Some(&entries[index])
    }
}

} // verus!
