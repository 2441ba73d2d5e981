use crusade_roguelite::heroes::{
    validate_hero_entries, validate_hero_subtype, validate_heroes, HeroConfigError, HeroEntryConfig,
    HeroEntryProblem, HeroFactionProblem, HeroSubtypeConfig, HeroSubtypeProblem, HeroUnitProblem, HeroesConfigFile,
};
use crusade_roguelite::model::PlayerFaction;

const REQUIRED: [(&str, &str); 9] = [
    ("sword_shield", "citadel_guard"),
    ("spear", "armored_halberdier"),
    ("two_handed_sword", "elite_heavy_knight"),
    ("bow", "elite_longbowman"),
    ("javelin", "siege_crossbowman"),
    ("beast_master", "elite_houndmaster"),
    ("super_priest", "divine_speaker"),
    ("super_fanatic", "divine_judge"),
    ("super_knight", "elite_shock_cavalry"),
];

fn entry(hero_id: &str, unit_id: &str) -> HeroEntryConfig {
    HeroEntryConfig {
        hero_id: hero_id.to_string(),
        name: format!("Hero {hero_id}"),
        description: "A hero.".to_string(),
        unit_id: unit_id.to_string(),
        abilities: vec![],
        stat_notes: vec![],
    }
}

fn entries(prefix: &str, unit_id: &str) -> Vec<HeroEntryConfig> {
    (0..10).map(|i| entry(&format!("{prefix}{i:02}"), unit_id)).collect()
}

fn subtype(id: &str, unit_id: &str) -> HeroSubtypeConfig {
    HeroSubtypeConfig {
        id: id.to_string(),
        unit_id: unit_id.to_string(),
        description: "Subtype.".to_string(),
        entries_by_faction: vec![
            (PlayerFaction::Christian, entries("c", unit_id)),
            (PlayerFaction::Muslim, entries("m", unit_id)),
        ],
    }
}

fn full_roster() -> HeroesConfigFile {
    HeroesConfigFile { subtypes: REQUIRED.iter().map(|(id, unit)| (id.to_string(), subtype(id, unit))).collect() }
}

#[test]
fn accepts_complete_hero_roster() {
    assert_eq!(validate_heroes(&full_roster()), Ok(()));
}

#[test]
fn rejects_heroes_missing_required_subtype() {
    let roster = HeroesConfigFile {
        subtypes: vec![("sword_shield".to_string(), subtype("sword_shield", "citadel_guard"))],
    };
    assert_eq!(validate_heroes(&roster), Err(HeroConfigError::MissingSubtype(1)));
    assert_eq!(validate_heroes(&HeroesConfigFile { subtypes: vec![] }), Err(HeroConfigError::NoSubtypes));
}

#[test]
fn rejects_heroes_entry_with_unknown_unit_id() {
    let mut roster = full_roster();
    roster.subtypes[0].1.entries_by_faction[0].1[0].unit_id = "unknown_unit".to_string();
    assert_eq!(
        validate_heroes(&roster),
        Err(HeroConfigError::Subtype {
            index: 0,
            problem: HeroSubtypeProblem::Faction {
                faction: PlayerFaction::Christian,
                problem: HeroFactionProblem::Entry {
                    index: 0,
                    problem: HeroEntryProblem::Unit(HeroUnitProblem::Unresolved)
                },
            },
        })
    );
}

#[test]
fn rejects_heroes_subtype_with_non_ten_entries_per_faction() {
    let mut roster = full_roster();
    roster.subtypes[0].1.entries_by_faction[0].1.pop();
    assert_eq!(
        validate_heroes(&roster),
        Err(HeroConfigError::Subtype {
            index: 0,
            problem: HeroSubtypeProblem::Faction {
                faction: PlayerFaction::Christian,
                problem: HeroFactionProblem::WrongEntryCount(9),
            },
        })
    );
}

#[test]
fn rejects_duplicate_hero_ids_and_low_tier_units() {
    let list = vec![entry("a", "citadel_guard"), entry("b", "citadel_guard"), entry("a", "citadel_guard")];
    assert_eq!(validate_hero_entries(&list, PlayerFaction::Muslim), Some((2, HeroEntryProblem::DuplicateHeroId)));
    let low = vec![entry("a", "men_at_arms")];
    assert_eq!(
        validate_hero_entries(&low, PlayerFaction::Muslim),
        Some((0, HeroEntryProblem::Unit(HeroUnitProblem::BelowTier5)))
    );
    let blank = vec![entry("  ", "citadel_guard")];
    assert_eq!(validate_hero_entries(&blank, PlayerFaction::Christian), Some((0, HeroEntryProblem::EmptyHeroId)));
}

#[test]
fn subtype_id_must_match_its_key_and_name_a_tier5_unit() {
    let spear = subtype("spear", "armored_halberdier");
    assert_eq!(validate_hero_subtype("spear", &spear), None);
    assert_eq!(validate_hero_subtype("lance", &spear), Some(HeroSubtypeProblem::IdMismatch));
    assert_eq!(validate_hero_subtype(" ", &spear), Some(HeroSubtypeProblem::EmptyKey));
    let weak = subtype("spear", "spearman");
    assert_eq!(
        validate_hero_subtype("spear", &weak),
        Some(HeroSubtypeProblem::Faction {
            faction: PlayerFaction::Christian,
            problem: HeroFactionProblem::Unit(HeroUnitProblem::BelowTier5),
        })
    );
    let mut missing = subtype("spear", "armored_halberdier");
    missing.entries_by_faction.pop();
    assert_eq!(
        validate_hero_subtype("spear", &missing),
        Some(HeroSubtypeProblem::Faction { faction: PlayerFaction::Muslim, problem: HeroFactionProblem::MissingEntries })
    );
}
