//! The parts of config loading that decide on identifiers and tiers: the
//! key and id vocabularies of the config files, the recruit kinds of the
//! rescue pool, and the validation of the enemy tier pools.
use vstd::prelude::*;

use crate::model::{PlayerFaction, RecruitArchetype, RecruitUnitKind, UnitKind, archetype_line, spec_kind_from_parts, spec_kind_of};
use crate::text::{ascii_lowered, normalized_key, normalized_key_eq, str_eq, trimmed_eq_ignore_ascii_case};
use crate::unit_line::{UnitLine, spec_line_from_id};

verus! {

/// The trait ids an upgrade requirement or trait hook may name.
pub open spec fn spec_is_supported_upgrade_requirement_trait(trait_id: Seq<char>) -> bool {
    trait_id == "shielded"@
        || trait_id == "frontline"@
        || trait_id == "anti_cavalry"@
        || trait_id == "cavalry"@
        || trait_id == "anti_armor"@
        || trait_id == "skirmisher"@
        || trait_id == "support"@
}

pub fn is_supported_upgrade_requirement_trait(trait_id: &str) -> (r: bool)
    ensures
        r == spec_is_supported_upgrade_requirement_trait(trait_id@),
{
    str_eq(trait_id, "shielded")
        || str_eq(trait_id, "frontline")
        || str_eq(trait_id, "anti_cavalry")
        || str_eq(trait_id, "cavalry")
        || str_eq(trait_id, "anti_armor")
        || str_eq(trait_id, "skirmisher")
        || str_eq(trait_id, "support")
}

/// The stats an upgrade may shift or floor the band of.
pub open spec fn spec_is_supported_upgrade_effect_band_stat(stat_id: Seq<char>) -> bool {
    stat_id == "damage"@
        || stat_id == "armor"@
        || stat_id == "move_speed"@
        || stat_id == "luck"@
}

pub fn is_supported_upgrade_effect_band_stat(stat_id: &str) -> (r: bool)
    ensures
        r == spec_is_supported_upgrade_effect_band_stat(stat_id@),
{
    str_eq(stat_id, "damage")
        || str_eq(stat_id, "armor")
        || str_eq(stat_id, "move_speed")
        || str_eq(stat_id, "luck")
}

/// The modifiers a trait hook of an upgrade may apply.
pub open spec fn spec_is_supported_upgrade_effect_trait_modifier_kind(kind: Seq<char>) -> bool {
    kind == "damage_multiplier"@
        || kind == "attack_speed_multiplier"@
        || kind == "move_speed_bonus"@
        || kind == "armor_bonus"@
        || kind == "morale_loss_multiplier"@
        || kind == "execute_threshold"@
        || kind == "rescue_speed_multiplier"@
}

pub fn is_supported_upgrade_effect_trait_modifier_kind(kind: &str) -> (r: bool)
    ensures
        r == spec_is_supported_upgrade_effect_trait_modifier_kind(kind@),
{
    str_eq(kind, "damage_multiplier")
        || str_eq(kind, "attack_speed_multiplier")
        || str_eq(kind, "move_speed_bonus")
        || str_eq(kind, "armor_bonus")
        || str_eq(kind, "morale_loss_multiplier")
        || str_eq(kind, "execute_threshold")
        || str_eq(kind, "rescue_speed_multiplier")
}

/// The trait modifiers that multiply rather than add.
pub open spec fn spec_is_multiplicative_trait_modifier_kind(kind: Seq<char>) -> bool {
    kind == "damage_multiplier"@
        || kind == "attack_speed_multiplier"@
        || kind == "morale_loss_multiplier"@
        || kind == "rescue_speed_multiplier"@
}

pub fn is_multiplicative_trait_modifier_kind(kind: &str) -> (r: bool)
    ensures
        r == spec_is_multiplicative_trait_modifier_kind(kind@),
{
    str_eq(kind, "damage_multiplier")
        || str_eq(kind, "attack_speed_multiplier")
        || str_eq(kind, "morale_loss_multiplier")
        || str_eq(kind, "rescue_speed_multiplier")
}

/// The upgrade kinds allowed multiplicative trait modifiers.
pub open spec fn spec_is_whitelisted_multiplicative_upgrade_semantic_kind(kind: Seq<char>) -> bool {
    kind == "mob_fury"@
        || kind == "mob_mercy"@
        || kind == "doctrine_execution_rites"@
        || kind == "doctrine_countervolley"@
        || kind == "doctrine_pike_hedgehog"@
}

pub fn is_whitelisted_multiplicative_upgrade_semantic_kind(kind: &str) -> (r: bool)
    ensures
        r == spec_is_whitelisted_multiplicative_upgrade_semantic_kind(kind@),
{
    str_eq(kind, "mob_fury")
        || str_eq(kind, "mob_mercy")
        || str_eq(kind, "doctrine_execution_rites")
        || str_eq(kind, "doctrine_countervolley")
        || str_eq(kind, "doctrine_pike_hedgehog")
}

/// The reward lanes of upgrades.
pub open spec fn spec_is_supported_upgrade_reward_lane(lane: Seq<char>) -> bool {
    lane == "minor"@
        || lane == "major"@
}

pub fn is_supported_upgrade_reward_lane(lane: &str) -> (r: bool)
    ensures
        r == spec_is_supported_upgrade_reward_lane(lane@),
{
    str_eq(lane, "minor")
        || str_eq(lane, "major")
}

/// The formation ids an upgrade may unlock or require.
pub open spec fn spec_is_supported_formation_id(formation_id: Seq<char>) -> bool {
    formation_id == "square"@
        || formation_id == "circle"@
        || formation_id == "skean"@
        || formation_id == "diamond"@
        || formation_id == "shield_wall"@
        || formation_id == "loose"@
}

pub fn is_supported_formation_id(formation_id: &str) -> (r: bool)
    ensures
        r == spec_is_supported_formation_id(formation_id@),
{
    str_eq(formation_id, "square")
        || str_eq(formation_id, "circle")
        || str_eq(formation_id, "skean")
        || str_eq(formation_id, "diamond")
        || str_eq(formation_id, "shield_wall")
        || str_eq(formation_id, "loose")
}

/// The roster shares a band requirement may test.
pub open spec fn spec_is_supported_upgrade_requirement_band_stat(stat_id: Seq<char>) -> bool {
    stat_id == "tier0_share"@
        || stat_id == "shielded_share"@
        || stat_id == "frontline_share"@
        || stat_id == "anti_cavalry_share"@
        || stat_id == "support_share"@
        || stat_id == "cavalry_share"@
        || stat_id == "archer_share"@
        || stat_id == "anti_armor_share"@
}

pub fn is_supported_upgrade_requirement_band_stat(stat_id: &str) -> (r: bool)
    ensures
        r == spec_is_supported_upgrade_requirement_band_stat(stat_id@),
{
    str_eq(stat_id, "tier0_share")
        || str_eq(stat_id, "shielded_share")
        || str_eq(stat_id, "frontline_share")
        || str_eq(stat_id, "anti_cavalry_share")
        || str_eq(stat_id, "support_share")
        || str_eq(stat_id, "cavalry_share")
        || str_eq(stat_id, "archer_share")
        || str_eq(stat_id, "anti_armor_share")
}

/// The bands a band requirement may name.
pub open spec fn spec_is_supported_upgrade_requirement_band_id(band_id: Seq<char>) -> bool {
    band_id == "very_low"@
        || band_id == "low"@
        || band_id == "moderate"@
        || band_id == "high"@
        || band_id == "very_high"@
}

pub fn is_supported_upgrade_requirement_band_id(band_id: &str) -> (r: bool)
    ensures
        r == spec_is_supported_upgrade_requirement_band_id(band_id@),
{
    str_eq(band_id, "very_low")
        || str_eq(band_id, "low")
        || str_eq(band_id, "moderate")
        || str_eq(band_id, "high")
        || str_eq(band_id, "very_high")
}

/// The upgrade ids that were retired, each with the id that replaced it.
pub open spec fn spec_deprecated_upgrade_replacement(id: Seq<char>) -> Option<Seq<char>> {
    if id == "fast_learner_up"@ {
        Some("quartermaster_up"@)
    } else if id == "fast_learner_up_10"@ {
        Some("quartermaster_up"@)
    } else if id == "fast_learner_up_15"@ {
        Some("quartermaster_up"@)
    } else if id == "mob_fury_shielded_host"@ {
        Some("mob_fury"@)
    } else if id == "mob_justice_frontline_bias"@ {
        Some("mob_justice"@)
    } else if id == "mob_mercy_support_ceiling"@ {
        Some("mob_mercy"@)
    } else {
        None
    }
}

pub fn deprecated_upgrade_replacement(id: &str) -> (r: Option<&'static str>)
    ensures
        r is Some == spec_deprecated_upgrade_replacement(id@) is Some,
        r is Some ==> r.unwrap()@ == spec_deprecated_upgrade_replacement(id@).unwrap(),
{
    if str_eq(id, "fast_learner_up") {
        Some("quartermaster_up")
    } else if str_eq(id, "fast_learner_up_10") {
        Some("quartermaster_up")
    } else if str_eq(id, "fast_learner_up_15") {
        Some("quartermaster_up")
    } else if str_eq(id, "mob_fury_shielded_host") {
        Some("mob_fury")
    } else if str_eq(id, "mob_justice_frontline_bias") {
        Some("mob_justice")
    } else if str_eq(id, "mob_mercy_support_ceiling") {
        Some("mob_mercy")
    } else {
        None
    }
}

/// The tier-2 lineages that need their own tuning entry per faction.
pub open spec fn required_tier2_lines() -> Seq<UnitLine> {
    seq![
        UnitLine::ShieldInfantry,
        UnitLine::Spearman,
        UnitLine::UnmountedKnight,
        UnitLine::Squire,
        UnitLine::ExperiencedBowman,
        UnitLine::Crossbowman,
        UnitLine::Tracker,
        UnitLine::Scout,
        UnitLine::DevotedOne,
        UnitLine::Fanatic,
    ]
}

/// The ids of [`required_tier2_lines`], in order.
pub fn required_tier2_unit_ids() -> (r: [&'static str; 10])
    ensures
        forall|i: int| 0 <= i < 10 ==> #[trigger] r@[i]@ == required_tier2_lines()[i].spec_id(),
        r@.len() == 10,
{
    [
        UnitLine::ShieldInfantry.id(),
        UnitLine::Spearman.id(),
        UnitLine::UnmountedKnight.id(),
        UnitLine::Squire.id(),
        UnitLine::ExperiencedBowman.id(),
        UnitLine::Crossbowman.id(),
        UnitLine::Tracker.id(),
        UnitLine::Scout.id(),
        UnitLine::DevotedOne.id(),
        UnitLine::Fanatic.id(),
    ]
}

/// The hero subtypes every heroes config must define.
pub fn required_hero_subtype_ids() -> (r: [&'static str; 9])
    ensures
        r@.len() == 9,
        r@[0]@ == "sword_shield"@,
        r@[1]@ == "spear"@,
        r@[2]@ == "two_handed_sword"@,
        r@[3]@ == "bow"@,
        r@[4]@ == "javelin"@,
        r@[5]@ == "beast_master"@,
        r@[6]@ == "super_priest"@,
        r@[7]@ == "super_fanatic"@,
        r@[8]@ == "super_knight"@,
{
    [
        "sword_shield",
        "spear",
        "two_handed_sword",
        "bow",
        "javelin",
        "beast_master",
        "super_priest",
        "super_fanatic",
        "super_knight",
    ]
}

/// How many heroes each subtype must list per faction.
pub const HERO_ENTRIES_PER_SUBTYPE_PER_FACTION: usize = 10;

/// The tuning key of a tier-2 unit: the faction's config key, an
/// underscore and the lineage id; only the required tier-2 lineages of a
/// faction have one.
pub open spec fn spec_tier2_config_key(kind: UnitKind) -> Option<Seq<char>> {
    let (faction, line, _) = kind.spec_parts();
    if faction is Some && required_tier2_lines().contains(line) {
        Some(faction.unwrap().spec_config_key() + "_"@ + line.spec_id())
    } else {
        None
    }
}

pub fn tier2_config_key_for_kind(kind: UnitKind) -> (r: Option<String>)
    ensures
        r is Some == spec_tier2_config_key(kind) is Some,
        r is Some ==> r.unwrap()@ == spec_tier2_config_key(kind).unwrap(),
{
    let faction = match kind.faction() {
        Some(faction) => faction,
        None => return None,
    };
    let line = kind.line();
    let required = required_tier2_unit_ids();
    let mut found = false;
    let mut i: usize = 0;
    while i < 10
        invariant
            i <= 10,
            required@.len() == 10,
            forall|j: int| 0 <= j < 10 ==> #[trigger] required@[j]@ == required_tier2_lines()[j].spec_id(),
            found == exists|j: int| 0 <= j < i && #[trigger] required_tier2_lines()[j] == line,
        decreases 10 - i,
    {
        if str_eq(required[i], line.id()) {
            proof {
                crate::unit_line::lemma_line_id_injective(required_tier2_lines()[i as int], line);
            }
            found = true;
        } else {
            proof {
                assert(required_tier2_lines()[i as int] != line);
            }
        }
        i = i + 1;
    }
    proof {
        if required_tier2_lines().contains(line) {
            let j = choose|j: int| 0 <= j < 10 && required_tier2_lines()[j] == line;
            assert(required_tier2_lines()[j] == line);
        }
        if found {
            let j = choose|j: int| 0 <= j < 10 && #[trigger] required_tier2_lines()[j] == line;
            assert(required_tier2_lines().contains(line));
        }
    }
    if !found {
        return None;
    }
    let mut key = String::from_str(faction.config_key());
    key.append("_");
    key.append(line.id());
    Some(key)
}

/// The commander picked by default for each faction.
pub fn default_commander_id_for_faction(faction: PlayerFaction) -> (r: &'static str)
    ensures
        r@ == (match faction {
            PlayerFaction::Christian => "baldiun"@,
            PlayerFaction::Muslim => "saladin"@,
        }),
{
    match faction {
        PlayerFaction::Christian => "baldiun",
        PlayerFaction::Muslim => "saladin",
    }
}

/// The recruit archetype named by one of the three peasant ids.
pub open spec fn spec_recruit_archetype_of_id(unit_id: Seq<char>) -> Option<RecruitArchetype> {
    if unit_id == "peasant_infantry"@ {
        Some(RecruitArchetype::Infantry)
    } else if unit_id == "peasant_archer"@ {
        Some(RecruitArchetype::Archer)
    } else if unit_id == "peasant_priest"@ {
        Some(RecruitArchetype::Priest)
    } else {
        None
    }
}

/// Reads the unit id of a recruit override; `None` for any id but the
/// three peasant ids.
pub fn parse_recruit_archetype_unit_id(unit_id: &str) -> (r: Option<RecruitArchetype>)
    ensures
        r == spec_recruit_archetype_of_id(unit_id@),
{
    if str_eq(unit_id, "peasant_infantry") {
        Some(RecruitArchetype::Infantry)
    } else if str_eq(unit_id, "peasant_archer") {
        Some(RecruitArchetype::Archer)
    } else if str_eq(unit_id, "peasant_priest") {
        Some(RecruitArchetype::Priest)
    } else {
        None
    }
}

/// The faction whose config key `value` is, after trimming and ASCII
/// lower-casing; the first faction in registry order wins.
pub open spec fn spec_faction_of_key(value: Seq<char>) -> Option<PlayerFaction> {
    if normalized_key(value) == PlayerFaction::Christian.spec_config_key() {
        Some(PlayerFaction::Christian)
    } else if normalized_key(value) == PlayerFaction::Muslim.spec_config_key() {
        Some(PlayerFaction::Muslim)
    } else {
        None
    }
}

/// Reads a faction override key.
pub fn parse_faction_override_key(value: &str) -> (r: Option<PlayerFaction>)
    ensures
        r == spec_faction_of_key(value@),
{
    let all = PlayerFaction::all();
    let mut i: usize = 0;
    while i < 2
        invariant
            i <= 2,
            all@ == seq![PlayerFaction::Christian, PlayerFaction::Muslim],
            forall|j: int| 0 <= j < i ==> normalized_key(value@) != (#[trigger] all@[j]).spec_config_key(),
        decreases 2 - i,
    {
        if normalized_key_eq(value, all[i].config_key()) {
            return Some(all[i]);
        }
        i = i + 1;
    }
    None
}

/// The key names a faction, after trimming and ASCII lower-casing.
pub fn is_supported_faction_key(value: &str) -> (r: bool)
    ensures
        r == spec_faction_of_key(value@) is Some,
{
    parse_faction_override_key(value).is_some()
}

/// The key of the faction every map list must allow: the default
/// faction's.
pub fn default_start_faction_key() -> (r: &'static str)
    ensures
        r@ == PlayerFaction::Christian.spec_config_key(),
{
    PlayerFaction::Christian.config_key()
}

/// Some entry of `allowed_factions`, trimmed, equals `required_faction_key`
/// up to ASCII case.
pub fn has_required_map_start_faction(allowed_factions: &[String], required_faction_key: &str) -> (r: bool)
    ensures
        r == exists|i: int|
            0 <= i < allowed_factions@.len() && normalized_key(#[trigger] allowed_factions@[i]@)
                == ascii_lowered(required_faction_key@),
{
    let mut i: usize = 0;
    while i < allowed_factions.len()
        invariant
            i <= allowed_factions@.len(),
            forall|j: int|
                0 <= j < i ==> normalized_key(#[trigger] allowed_factions@[j]@) != ascii_lowered(
                    required_faction_key@,
                ),
        decreases allowed_factions@.len() - i,
    {
        if trimmed_eq_ignore_ascii_case(allowed_factions[i].as_str(), required_faction_key) {
            return true;
        }
        i = i + 1;
    }
    false
}

/// The position of the first entry of `allowed_factions` that names no
/// faction, if any.
pub fn first_unknown_map_faction(allowed_factions: &[String]) -> (r: Option<usize>)
    ensures
        r matches Some(i) ==> i < allowed_factions@.len() && spec_faction_of_key(
            allowed_factions@[i as int]@,
        ) is None && forall|j: int|
            0 <= j < i ==> spec_faction_of_key(#[trigger] allowed_factions@[j]@) is Some,
        r is None ==> forall|j: int|
            0 <= j < allowed_factions@.len() ==> spec_faction_of_key(#[trigger] allowed_factions@[j]@)
                is Some,
{
    let mut i: usize = 0;
    while i < allowed_factions.len()
        invariant
            i <= allowed_factions@.len(),
            forall|j: int| 0 <= j < i ==> spec_faction_of_key(#[trigger] allowed_factions@[j]@) is Some,
        decreases allowed_factions@.len() - i,
    {
        if !is_supported_faction_key(allowed_factions[i].as_str()) {
            return Some(i);
        }
        i = i + 1;
    }
    None
}

/// The recruits a rescue may offer.
#[derive(Clone, Copy, Debug, PartialEq, Eq, Structural)]
pub enum RescueRecruitKindConfig {
    PeasantInfantry,
    PeasantArcher,
    PeasantPriest,
}

impl RescueRecruitKindConfig {
    pub open spec fn spec_archetype(self) -> RecruitArchetype {
        match self {
            RescueRecruitKindConfig::PeasantInfantry => RecruitArchetype::Infantry,
            RescueRecruitKindConfig::PeasantArcher => RecruitArchetype::Archer,
            RescueRecruitKindConfig::PeasantPriest => RecruitArchetype::Priest,
        }
    }

    pub fn from_recruit_archetype(archetype: RecruitArchetype) -> (r: Self)
        ensures
            r.spec_archetype() == archetype,
    {
        match archetype {
            RecruitArchetype::Infantry => RescueRecruitKindConfig::PeasantInfantry,
            RecruitArchetype::Archer => RescueRecruitKindConfig::PeasantArcher,
            RecruitArchetype::Priest => RescueRecruitKindConfig::PeasantPriest,
        }
    }

    pub fn archetype(self) -> (r: RecruitArchetype)
        ensures
            r == self.spec_archetype(),
    {
        match self {
            RescueRecruitKindConfig::PeasantInfantry => RecruitArchetype::Infantry,
            RescueRecruitKindConfig::PeasantArcher => RecruitArchetype::Archer,
            RescueRecruitKindConfig::PeasantPriest => RecruitArchetype::Priest,
        }
    }

    /// Every rescue recruit is a tier-0 unit.
    pub fn tier(self) -> (r: u8)
        ensures
            r == 0,
    {
        match self {
            RescueRecruitKindConfig::PeasantInfantry => 0,
            RescueRecruitKindConfig::PeasantArcher => 0,
            RescueRecruitKindConfig::PeasantPriest => 0,
        }
    }
}

/// The rescue pool used when the config names none: one recruit of each
/// archetype.
pub fn default_rescue_recruit_pool() -> (r: Vec<RescueRecruitKindConfig>)
    ensures
        r@ == seq![
            RescueRecruitKindConfig::PeasantInfantry,
            RescueRecruitKindConfig::PeasantArcher,
            RescueRecruitKindConfig::PeasantPriest,
        ],
{
    let mut v: Vec<RescueRecruitKindConfig> = Vec::new();
    v.push(RescueRecruitKindConfig::from_recruit_archetype(RecruitArchetype::Infantry));
    v.push(RescueRecruitKindConfig::from_recruit_archetype(RecruitArchetype::Archer));
    v.push(RescueRecruitKindConfig::from_recruit_archetype(RecruitArchetype::Priest));
    proof {
        assert(v@ =~= seq![
            RescueRecruitKindConfig::PeasantInfantry,
            RescueRecruitKindConfig::PeasantArcher,
            RescueRecruitKindConfig::PeasantPriest,
        ]);
    }
    v
}

/// The enemy unit ids of one tier, by role.
#[derive(Clone, Debug)]
pub struct EnemyTierPoolTierConfig {
    pub tier: u8,
    pub melee: Vec<String>,
    pub ranged: Vec<String>,
    pub support: Vec<String>,
}

/// The enemy pools of every tier.
#[derive(Clone, Debug)]
pub struct EnemyTierPoolsConfigFile {
    pub tiers: Vec<EnemyTierPoolTierConfig>,
}

/// `i` is the position of the first entry of tier `tier`.
pub open spec fn is_first_tier_entry(tiers: Seq<EnemyTierPoolTierConfig>, tier: u8, i: int) -> bool {
    &&& 0 <= i < tiers.len()
    &&& tiers[i].tier == tier
    &&& forall|j: int| 0 <= j < i ==> #[trigger] tiers[j].tier != tier
}

/// The position of the first entry of tier `tier`, if there is one.
pub open spec fn tier_entry_index(tiers: Seq<EnemyTierPoolTierConfig>, tier: u8) -> Option<int> {
    if exists|i: int| is_first_tier_entry(tiers, tier, i) {
        Some(choose|i: int| is_first_tier_entry(tiers, tier, i))
    } else {
        None
    }
}

/// The ids of the pool of `archetype` in an entry.
pub open spec fn pool_of(entry: EnemyTierPoolTierConfig, archetype: RecruitArchetype) -> Seq<String> {
    match archetype {
        RecruitArchetype::Infantry => entry.melee@,
        RecruitArchetype::Archer => entry.ranged@,
        RecruitArchetype::Priest => entry.support@,
    }
}

impl EnemyTierPoolsConfigFile {
    /// The first entry of tier `tier`.
    pub fn tier_entry(&self, tier: u8) -> (r: Option<&EnemyTierPoolTierConfig>)
        ensures
            r is Some == tier_entry_index(self.tiers@, tier) is Some,
            r is Some ==> *r.unwrap() == self.tiers@[tier_entry_index(self.tiers@, tier).unwrap()],
    {
        let mut i: usize = 0;
        while i < self.tiers.len()
            invariant
                i <= self.tiers@.len(),
                forall|j: int| 0 <= j < i ==> #[trigger] self.tiers@[j].tier != tier,
            decreases self.tiers@.len() - i,
        {
            if self.tiers[i].tier == tier {
                proof {
                    assert(is_first_tier_entry(self.tiers@, tier, i as int));
                    let c = choose|k: int| is_first_tier_entry(self.tiers@, tier, k);
                    if c < i {
                        assert(self.tiers@[c].tier != tier);
                    } else if i < c {
                        assert(self.tiers@[i as int].tier != tier);
                    }
                }
                return Some(&self.tiers[i]);
            }
            i = i + 1;
        }
        proof {
            if exists|k: int| is_first_tier_entry(self.tiers@, tier, k) {
                let c = choose|k: int| is_first_tier_entry(self.tiers@, tier, k);
                assert(self.tiers@[c].tier != tier);
            }
        }
        None
    }

    /// The unit ids of `archetype`'s pool in the first entry of `tier`.
    pub fn unit_ids_for_tier_and_archetype(&self, tier: u8, archetype: RecruitArchetype) -> (r: Option<&[String]>)
        ensures
            r is Some == tier_entry_index(self.tiers@, tier) is Some,
            r is Some ==> r.unwrap()@ == pool_of(
                self.tiers@[tier_entry_index(self.tiers@, tier).unwrap()],
                archetype,
            ),
    {
        let entry = match self.tier_entry(tier) {
            Some(entry) => entry,
            None => return None,
        };
        match archetype {
            RecruitArchetype::Infantry => Some(entry.melee.as_slice()),
            RecruitArchetype::Archer => Some(entry.ranged.as_slice()),
            RecruitArchetype::Priest => Some(entry.support.as_slice()),
        }
    }
}

/// What is wrong with one unit id of a tier pool for one faction.
#[derive(Clone, Copy, Debug, PartialEq, Eq, Structural)]
pub enum TierPoolIdProblem {
    /// The id names no unit of the faction.
    UnknownUnitId,
    /// The unit resolves to this tier instead of the pool's.
    TierMismatch(Option<u8>),
    /// The unit does not belong to the pool's role.
    WrongArchetype,
}

/// Why the enemy tier pools were rejected.
#[derive(Clone, Copy, Debug, PartialEq, Eq, Structural)]
pub enum TierPoolError {
    /// No tier entry at all.
    NoTiers,
    /// An entry of a tier above 5.
    TierOutOfRange(u8),
    /// A second entry of the same tier.
    DuplicateTier(u8),
    /// A role pool with no ids.
    EmptyList { tier: u8, archetype: RecruitArchetype },
    /// The id at `index` of a role pool does not fit for `faction`.
    BadUnitId {
        tier: u8,
        archetype: RecruitArchetype,
        index: usize,
        faction: PlayerFaction,
        problem: TierPoolIdProblem,
    },
    /// No entry for this required tier (0 to 5).
    MissingTier(u8),
}

/// The unit fits the role of a pool: block infantry for the melee pool,
/// archers for the ranged pool, priests of either kind for support.
pub open spec fn fits_archetype(kind: UnitKind, archetype: RecruitArchetype) -> bool {
    match archetype {
        RecruitArchetype::Infantry => kind.spec_line().spec_is_block_infantry_line(),
        RecruitArchetype::Archer => kind.spec_line().spec_is_archer_line(),
        RecruitArchetype::Priest => kind.spec_line().spec_is_priest_family_line(),
    }
}

/// What is wrong with `id` in the `archetype` pool of `tier`, for
/// `faction`.
pub open spec fn id_problem(tier: u8, archetype: RecruitArchetype, id: Seq<char>, faction: PlayerFaction) -> Option<TierPoolIdProblem> {
    match spec_line_from_id(id) {
        None => Some(TierPoolIdProblem::UnknownUnitId),
        Some(line) => match spec_kind_from_parts(faction, line, false) {
            None => Some(TierPoolIdProblem::UnknownUnitId),
            Some(kind) => if kind.spec_tier_hint() != Some(tier) {
                Some(TierPoolIdProblem::TierMismatch(kind.spec_tier_hint()))
            } else if !fits_archetype(kind, archetype) {
                Some(TierPoolIdProblem::WrongArchetype)
            } else {
                None
            },
        },
    }
}

/// The first problem among the ids from position `i` on, checking each
/// id for the Christian faction, then the Muslim one.
pub open spec fn first_id_problem(tier: u8, archetype: RecruitArchetype, ids: Seq<String>, i: int) -> Option<TierPoolError>
    decreases ids.len() - i,
{
    if i < 0 || i >= ids.len() {
        None
    } else if id_problem(tier, archetype, ids[i]@, PlayerFaction::Christian) is Some {
        Some(
            TierPoolError::BadUnitId {
                tier,
                archetype,
                index: i as usize,
                faction: PlayerFaction::Christian,
                problem: id_problem(tier, archetype, ids[i]@, PlayerFaction::Christian).unwrap(),
            },
        )
    } else if id_problem(tier, archetype, ids[i]@, PlayerFaction::Muslim) is Some {
        Some(
            TierPoolError::BadUnitId {
                tier,
                archetype,
                index: i as usize,
                faction: PlayerFaction::Muslim,
                problem: id_problem(tier, archetype, ids[i]@, PlayerFaction::Muslim).unwrap(),
            },
        )
    } else {
        first_id_problem(tier, archetype, ids, i + 1)
    }
}

/// The error of a role pool: empty, or its first bad id.
pub open spec fn pool_ids_error(tier: u8, archetype: RecruitArchetype, ids: Seq<String>) -> Option<TierPoolError> {
    if ids.len() == 0 {
        Some(TierPoolError::EmptyList { tier, archetype })
    } else {
        first_id_problem(tier, archetype, ids, 0)
    }
}

/// Checks one id for one faction.
fn check_pool_id(tier: u8, archetype: RecruitArchetype, id: &str, faction: PlayerFaction) -> (r: Option<TierPoolIdProblem>)
    ensures
        r == id_problem(tier, archetype, id@, faction),
{
    let kind = match UnitKind::from_faction_and_unit_id(faction, id, false) {
        Some(kind) => kind,
        None => return Some(TierPoolIdProblem::UnknownUnitId),
    };
    let hint = kind.tier_hint();
    if hint != Some(tier) {
        return Some(TierPoolIdProblem::TierMismatch(hint));
    }
    let valid_archetype = match archetype {
        RecruitArchetype::Infantry => kind.is_block_infantry_line(),
        RecruitArchetype::Archer => kind.is_archer_line(),
        RecruitArchetype::Priest => kind.is_priest_family_line(),
    };
    if !valid_archetype {
        return Some(TierPoolIdProblem::WrongArchetype);
    }
    None
}

/// Checks every id of the `archetype` pool of `tier` against both
/// factions.
pub fn validate_enemy_tier_pool_ids(tier: u8, archetype: RecruitArchetype, ids: &[String]) -> (r: Result<(), TierPoolError>)
    ensures
        r == (match pool_ids_error(tier, archetype, ids@) {
            Some(e) => Err(e),
            None => Ok(()),
        }),
{
    if ids.len() == 0 {
        return Err(TierPoolError::EmptyList { tier, archetype });
    }
    let mut i: usize = 0;
    while i < ids.len()
        invariant
            i <= ids@.len(),
            first_id_problem(tier, archetype, ids@, 0) == first_id_problem(tier, archetype, ids@, i as int),
        decreases ids@.len() - i,
    {
        let id = ids[i].as_str();
        let factions = PlayerFaction::all();
        if let Some(problem) = check_pool_id(tier, archetype, id, factions[0]) {
            return Err(
                TierPoolError::BadUnitId {
                    tier,
                    archetype,
                    index: i,
                    faction: factions[0],
                    problem,
                },
            );
        }
        if let Some(problem) = check_pool_id(tier, archetype, id, factions[1]) {
            return Err(
                TierPoolError::BadUnitId {
                    tier,
                    archetype,
                    index: i,
                    faction: factions[1],
                    problem,
                },
            );
        }
        i = i + 1;
    }
    Ok(())
}

/// The first error among the tier entries from position `i` on: a tier
/// out of range, a repeated tier, or a bad melee, ranged or support pool.
pub open spec fn first_entry_error(tiers: Seq<EnemyTierPoolTierConfig>, i: int) -> Option<TierPoolError>
    decreases tiers.len() - i,
{
    if i < 0 || i >= tiers.len() {
        None
    } else if tiers[i].tier > 5 {
        Some(TierPoolError::TierOutOfRange(tiers[i].tier))
    } else if exists|j: int| 0 <= j < i && #[trigger] tiers[j].tier == tiers[i].tier {
        Some(TierPoolError::DuplicateTier(tiers[i].tier))
    } else if pool_ids_error(tiers[i].tier, RecruitArchetype::Infantry, tiers[i].melee@) is Some {
        pool_ids_error(tiers[i].tier, RecruitArchetype::Infantry, tiers[i].melee@)
    } else if pool_ids_error(tiers[i].tier, RecruitArchetype::Archer, tiers[i].ranged@) is Some {
        pool_ids_error(tiers[i].tier, RecruitArchetype::Archer, tiers[i].ranged@)
    } else if pool_ids_error(tiers[i].tier, RecruitArchetype::Priest, tiers[i].support@) is Some {
        pool_ids_error(tiers[i].tier, RecruitArchetype::Priest, tiers[i].support@)
    } else {
        first_entry_error(tiers, i + 1)
    }
}

/// Some entry is of tier `tier`.
pub open spec fn has_tier(tiers: Seq<EnemyTierPoolTierConfig>, tier: int) -> bool {
    exists|j: int| 0 <= j < tiers.len() && #[trigger] tiers[j].tier == tier
}

/// The first required tier from `t` up to 5 that has no entry.
pub open spec fn first_missing_tier(tiers: Seq<EnemyTierPoolTierConfig>, t: int) -> Option<u8>
    decreases 6 - t,
{
    if t < 0 || t > 5 {
        None
    } else if !has_tier(tiers, t) {
        Some(t as u8)
    } else {
        first_missing_tier(tiers, t + 1)
    }
}

/// Why the enemy tier pools are invalid, if they are.
pub open spec fn spec_tier_pools_error(tiers: Seq<EnemyTierPoolTierConfig>) -> Option<TierPoolError> {
    if tiers.len() == 0 {
        Some(TierPoolError::NoTiers)
    } else if first_entry_error(tiers, 0) is Some {
        first_entry_error(tiers, 0)
    } else {
        match first_missing_tier(tiers, 0) {
            Some(t) => Some(TierPoolError::MissingTier(t)),
            None => None,
        }
    }
}

/// Validates the enemy tier pools: at least one entry, tiers 0 to 5 each
/// exactly once, and every pool non-empty with ids that resolve, for both
/// factions, to units of the entry's tier and the pool's role.
pub fn validate_enemy_tier_pools(config: &EnemyTierPoolsConfigFile) -> (r: Result<(), TierPoolError>)
    ensures
        r == (match spec_tier_pools_error(config.tiers@) {
            Some(e) => Err(e),
            None => Ok(()),
        }),
{
    if config.tiers.len() == 0 {
        return Err(TierPoolError::NoTiers);
    }
    let mut seen: Vec<bool> = Vec::new();
    let mut t: usize = 0;
    while t < 6
        invariant
            t <= 6,
            seen@.len() == t,
            forall|k: int| 0 <= k < t ==> !#[trigger] seen@[k],
        decreases 6 - t,
    {
        seen.push(false);
        t = t + 1;
    }
    let mut i: usize = 0;
    while i < config.tiers.len()
        invariant
            i <= config.tiers@.len(),
            seen@.len() == 6,
            first_entry_error(config.tiers@, 0) == first_entry_error(config.tiers@, i as int),
            forall|j: int| 0 <= j < i ==> #[trigger] config.tiers@[j].tier <= 5,
            forall|k: int| 0 <= k < 6 ==> (#[trigger] seen@[k] <==> has_tier(config.tiers@.subrange(0, i as int), k)),
        decreases config.tiers@.len() - i,
    {
        let entry = &config.tiers[i];
        let ghost prefix = config.tiers@.subrange(0, i as int);
        if entry.tier > 5 {
            return Err(TierPoolError::TierOutOfRange(entry.tier));
        }
        if seen[entry.tier as usize] {
            proof {
                assert(has_tier(prefix, entry.tier as int));
                let j = choose|j: int| 0 <= j < prefix.len() && #[trigger] prefix[j].tier == entry.tier;
                assert(config.tiers@[j].tier == entry.tier);
            }
            return Err(TierPoolError::DuplicateTier(entry.tier));
        }
        proof {
            if exists|j: int| 0 <= j < i && #[trigger] config.tiers@[j].tier == config.tiers@[i as int].tier {
                let j = choose|j: int| 0 <= j < i && #[trigger] config.tiers@[j].tier == config.tiers@[i as int].tier;
                assert(prefix[j].tier == entry.tier);
            }
        }
        let tier = entry.tier;
        match validate_enemy_tier_pool_ids(tier, RecruitArchetype::Infantry, entry.melee.as_slice()) {
            Err(e) => return Err(e),
            Ok(()) => {},
        }
        match validate_enemy_tier_pool_ids(tier, RecruitArchetype::Archer, entry.ranged.as_slice()) {
            Err(e) => return Err(e),
            Ok(()) => {},
        }
        match validate_enemy_tier_pool_ids(tier, RecruitArchetype::Priest, entry.support.as_slice()) {
            Err(e) => return Err(e),
            Ok(()) => {},
        }
        seen.set(tier as usize, true);
        proof {
            let next = config.tiers@.subrange(0, i + 1);
            assert forall|k: int| 0 <= k < 6 implies (#[trigger] seen@[k] <==> has_tier(next, k)) by {
                if has_tier(prefix, k) {
                    let j = choose|j: int| 0 <= j < prefix.len() && #[trigger] prefix[j].tier == k;
                    assert(next[j].tier == k);
                }
                if has_tier(next, k) && k != tier {
                    let j = choose|j: int| 0 <= j < next.len() && #[trigger] next[j].tier == k;
                    assert(prefix[j].tier == k);
                }
                if k == tier {
                    assert(next[i as int].tier == k);
                }
            }
        }
        i = i + 1;
    }
    proof {
        assert(config.tiers@.subrange(0, config.tiers@.len() as int) =~= config.tiers@);
        assert(first_entry_error(config.tiers@, i as int) is None);
    }
    let mut required: usize = 0;
    while required < 6
        invariant
            required <= 6,
            seen@.len() == 6,
            config.tiers@.len() > 0,
            first_entry_error(config.tiers@, 0) is None,
            forall|k: int| 0 <= k < 6 ==> (#[trigger] seen@[k] <==> has_tier(config.tiers@, k)),
            first_missing_tier(config.tiers@, 0) == first_missing_tier(config.tiers@, required as int),
        decreases 6 - required,
    {
        if !seen[required] {
            return Err(TierPoolError::MissingTier(required as u8));
        }
        required = required + 1;
    }
    Ok(())
}

/// The enemy stat profile a unit kind uses, as a faction and an archetype:
/// the peasant recruits their own; priests and fanatics the priest one,
/// archers the archer one, block infantry the infantry one; none for the
/// commander, the rescuable variants and the other lineages.
pub open spec fn spec_enemy_profile_key(kind: UnitKind) -> Option<(PlayerFaction, RecruitArchetype)> {
    let (faction, line, rescuable) = kind.spec_parts();
    if rescuable || faction is None {
        None
    } else {
        let archetype = match line.spec_recruit_archetype() {
            Some(archetype) => Some(archetype),
            None => if line.spec_is_support_priest_line() || line.spec_is_fanatic_line() {
                Some(RecruitArchetype::Priest)
            } else if line.spec_is_archer_line() {
                Some(RecruitArchetype::Archer)
            } else if line.spec_is_block_infantry_line() {
                Some(RecruitArchetype::Infantry)
            } else {
                None
            },
        };
        match archetype {
            Some(archetype) => Some((faction.unwrap(), archetype)),
            None => None,
        }
    }
}

pub fn enemy_profile_key_for_kind(kind: UnitKind) -> (r: Option<(PlayerFaction, RecruitArchetype)>)
    ensures
        r == spec_enemy_profile_key(kind),
{
    if kind.is_rescuable_variant() {
        return None;
    }
    let faction = match kind.faction() {
        Some(faction) => faction,
        None => return None,
    };
    let archetype = match kind.recruit_archetype() {
        Some(archetype) => archetype,
        None => {
            if kind.is_support_priest_line() || kind.is_fanatic_line() {
                RecruitArchetype::Priest
            } else if kind.is_archer_line() {
                RecruitArchetype::Archer
            } else if kind.is_block_infantry_line() {
                RecruitArchetype::Infantry
            } else {
                return None;
            }
        },
    };
    Some((faction, archetype))
}

/// The peasant units the enemy fields against `player_faction`: the
/// infantry, archer and priest of the other faction.
pub fn opposing_enemy_pool(player_faction: PlayerFaction) -> (r: [UnitKind; 3])
    ensures
        r@[0] == spec_kind_of(Some(player_faction.spec_opposing()), archetype_line(RecruitArchetype::Infantry), false),
        r@[1] == spec_kind_of(Some(player_faction.spec_opposing()), archetype_line(RecruitArchetype::Archer), false),
        r@[2] == spec_kind_of(Some(player_faction.spec_opposing()), archetype_line(RecruitArchetype::Priest), false),
{
    let kinds = RecruitUnitKind::all_for_faction(player_faction.opposing());
    [kinds[0].as_unit_kind(), kinds[1].as_unit_kind(), kinds[2].as_unit_kind()]
}

} // verus!
