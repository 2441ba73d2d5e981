use crusade_roguelite::drops::{gold_pack_requests_honoured, gold_pack_timer_may_spawn, initial_gold_pack_count};
use crusade_roguelite::formation::{
    lane_summary_for, press_skill_slot, ActiveFormation, FormationLane, FormationLaneSummary, FormationSkillBar,
};
use crusade_roguelite::game_core::{
    apply_run_modal_requests, run_modal_hotkey_requests, run_time_should_pause, RunModalHotkeys,
};
use crusade_roguelite::heroes::{HeroEntryConfig, HeroSubtypeConfig, HeroesConfigFile};
use crusade_roguelite::inventory::{
    chest_item_count_from_roll, EquipmentChestState, GearItemEntry, GearItemType, GearRarity, GearRolledStat,
    GearStatKind, CHEST_SLOT_CAPACITY,
};
use crusade_roguelite::model::{PlayerFaction, RunModalAction, RunModalScreen, RunModalState};

fn no_keys() -> RunModalHotkeys {
    RunModalHotkeys {
        escape: false,
        inventory: false,
        stats: false,
        skill_book: false,
        archive: false,
        unit_upgrade: false,
    }
}

#[test]
fn escape_closes_an_open_modal_and_pauses_otherwise() {
    let escape = RunModalHotkeys { escape: true, ..no_keys() };
    let (requests, pause) = run_modal_hotkey_requests(true, true, escape);
    assert_eq!(requests, vec![RunModalAction::Close]);
    assert!(!pause);
    let (requests, pause) = run_modal_hotkey_requests(true, false, escape);
    assert!(requests.is_empty());
    assert!(pause);
}

#[test]
fn screen_keys_toggle_their_screens_in_order() {
    let keys = RunModalHotkeys {
        escape: false,
        inventory: true,
        stats: true,
        skill_book: true,
        archive: true,
        unit_upgrade: true,
    };
    let (requests, pause) = run_modal_hotkey_requests(true, false, keys);
    assert_eq!(
        requests,
        vec![
            RunModalAction::Toggle(RunModalScreen::Inventory),
            RunModalAction::Toggle(RunModalScreen::Stats),
            RunModalAction::Toggle(RunModalScreen::SkillBook),
            RunModalAction::Toggle(RunModalScreen::Archive),
            RunModalAction::Toggle(RunModalScreen::UnitUpgrade),
        ]
    );
    assert!(!pause);
}

#[test]
fn hotkeys_do_nothing_outside_a_run() {
    let keys = RunModalHotkeys { escape: true, inventory: true, ..no_keys() };
    let (requests, pause) = run_modal_hotkey_requests(false, true, keys);
    assert!(requests.is_empty());
    assert!(!pause);
}

#[test]
fn modal_requests_apply_in_order() {
    let requests = [
        RunModalAction::Toggle(RunModalScreen::Inventory),
        RunModalAction::Toggle(RunModalScreen::Stats),
        RunModalAction::Toggle(RunModalScreen::Stats),
    ];
    assert_eq!(apply_run_modal_requests(RunModalState::Closed, &requests, true), RunModalState::Closed);
    assert_eq!(
        apply_run_modal_requests(RunModalState::Closed, &requests[..2], true),
        RunModalState::Open(RunModalScreen::Stats)
    );
    assert_eq!(apply_run_modal_requests(RunModalState::Closed, &requests, false), RunModalState::Closed);
    let open = RunModalState::Open(RunModalScreen::Chest);
    assert_eq!(apply_run_modal_requests(open, &requests, false), open);
    assert_eq!(apply_run_modal_requests(open, &[RunModalAction::Close], false), RunModalState::Closed);
    assert_eq!(apply_run_modal_requests(open, &[], true), open);
}

#[test]
fn the_run_clock_stops_only_under_an_open_modal_in_a_run() {
    assert!(run_time_should_pause(true, RunModalState::Open(RunModalScreen::Inventory)));
    assert!(!run_time_should_pause(true, RunModalState::Closed));
    assert!(!run_time_should_pause(false, RunModalState::Open(RunModalScreen::Inventory)));
}

#[test]
fn pressing_a_skill_slot_selects_its_formation() {
    let mut bar = FormationSkillBar::default();
    assert!(bar.try_add_formation(ActiveFormation::Diamond));
    let next = press_skill_slot(&mut bar, 1, ActiveFormation::Square);
    assert_eq!(next, ActiveFormation::Diamond);
    assert_eq!(bar.active_slot, Some(1));
    let next = press_skill_slot(&mut bar, 5, ActiveFormation::Diamond);
    assert_eq!(next, ActiveFormation::Diamond);
    assert_eq!(bar.active_slot, Some(1));
    let next = press_skill_slot(&mut bar, 0, ActiveFormation::Diamond);
    assert_eq!(next, ActiveFormation::Square);
}

#[test]
fn lane_summary_counts_each_ring() {
    let lanes = [
        FormationLane::Outer,
        FormationLane::Inner,
        FormationLane::Outer,
        FormationLane::Middle,
        FormationLane::Outer,
    ];
    assert_eq!(lane_summary_for(&lanes), FormationLaneSummary { outer: 3, middle: 1, inner: 1 });
    assert_eq!(lane_summary_for(&[]), FormationLaneSummary::default());
}

#[test]
fn gold_packs_stay_under_the_field_cap() {
    assert_eq!(initial_gold_pack_count(0), 1);
    assert_eq!(initial_gold_pack_count(6), 6);
    assert!(gold_pack_timer_may_spawn(3, 4));
    assert!(!gold_pack_timer_may_spawn(4, 4));
    assert_eq!(gold_pack_requests_honoured(2, 5, 2), 2);
    assert_eq!(gold_pack_requests_honoured(2, 5, 10), 3);
    assert_eq!(gold_pack_requests_honoured(5, 5, 1), 0);
    assert_eq!(gold_pack_requests_honoured(9, 5, 1), 0);
}

fn item(instance_id: &str) -> GearItemEntry {
    GearItemEntry {
        instance_id: instance_id.to_string(),
        template_id: "template".to_string(),
        name: "Item".to_string(),
        description: "An item.".to_string(),
        icon_key: "icon".to_string(),
        item_type: GearItemType::MeleeWeapon,
        faction: None,
        stats: vec![GearRolledStat { kind: GearStatKind::DamagePercent, rarity: GearRarity::Common }],
        special_effect: None,
    }
}

#[test]
fn an_opened_chest_holds_its_items_in_order() {
    let mut chest = EquipmentChestState::default();
    chest.stock_items(vec![item("a"), item("b")]);
    assert_eq!(chest.slots.len(), CHEST_SLOT_CAPACITY);
    assert_eq!(chest.slots[0].as_ref().map(|entry| entry.instance_id.as_str()), Some("a"));
    assert_eq!(chest.slots[1].as_ref().map(|entry| entry.instance_id.as_str()), Some("b"));
    assert!(chest.slots[2].is_none());

    chest.stock_items(vec![item("c"), item("d"), item("e"), item("f")]);
    let ids: Vec<&str> = chest.slots.iter().map(|slot| slot.as_ref().unwrap().instance_id.as_str()).collect();
    assert_eq!(ids, vec!["c", "d", "e"]);
}

#[test]
fn a_chest_holds_one_to_three_items() {
    assert_eq!(chest_item_count_from_roll(0), 1);
    assert_eq!(chest_item_count_from_roll(1), 2);
    assert_eq!(chest_item_count_from_roll(5), 3);
    assert_eq!(chest_item_count_from_roll(u32::MAX), 1);
}

fn hero(hero_id: &str) -> HeroEntryConfig {
    HeroEntryConfig {
        hero_id: hero_id.to_string(),
        name: hero_id.to_string(),
        description: "A hero.".to_string(),
        unit_id: "citadel_guard".to_string(),
        abilities: vec![],
        stat_notes: vec![],
    }
}

fn roster() -> HeroesConfigFile {
    HeroesConfigFile {
        subtypes: vec![(
            "sword_shield".to_string(),
            HeroSubtypeConfig {
                id: "sword_shield".to_string(),
                unit_id: "citadel_guard".to_string(),
                description: "Sword and shield.".to_string(),
                entries_by_faction: vec![
                    (PlayerFaction::Christian, vec![hero("c0"), hero("c1"), hero("c2")]),
                    (PlayerFaction::Muslim, vec![]),
                ],
            },
        )],
    }
}

#[test]
fn roster_lookups_find_the_subtype_and_its_heroes() {
    let roster = roster();
    assert_eq!(roster.subtype_for_id("sword_shield").map(|subtype| subtype.id.as_str()), Some("sword_shield"));
    assert!(roster.subtype_for_id("bow").is_none());
    assert_eq!(roster.unit_id_for_subtype("sword_shield"), Some("citadel_guard"));
    assert_eq!(roster.entries_for_faction_and_subtype(PlayerFaction::Christian, "sword_shield").map(|e| e.len()), Some(3));
    assert!(roster.entries_for_faction_and_subtype(PlayerFaction::Christian, "bow").is_none());
}

#[test]
fn a_hero_roll_picks_by_seed_modulo_the_heroes() {
    let roster = roster();
    let pick = |seed: u32| {
        roster
            .roll_entry_for_faction_and_subtype(PlayerFaction::Christian, "sword_shield", seed)
            .map(|entry| entry.hero_id.clone())
    };
    assert_eq!(pick(0), Some("c0".to_string()));
    assert_eq!(pick(4), Some("c1".to_string()));
    assert_eq!(pick(8), Some("c2".to_string()));
    assert!(roster.roll_entry_for_faction_and_subtype(PlayerFaction::Muslim, "sword_shield", 1).is_none());
    assert!(roster.roll_entry_for_faction_and_subtype(PlayerFaction::Christian, "bow", 1).is_none());
}
