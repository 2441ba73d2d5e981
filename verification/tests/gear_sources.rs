use crusade_roguelite::inventory::{
    first_stat_line, gear_bonus_sources, item_counts_toward_bonuses, special_effect_slots, EquipmentUnitType,
    EquippedSlot, GearBonusSources, GearItemEntry, GearItemType, GearRarity, GearRolledStat, GearSpecialEffectKind,
    GearStatKind, SpecialEffectSlots, UnitCombatRole, UnitEquipmentSetup,
};
use crusade_roguelite::model::UnitKind;

fn item(instance_id: &str, item_type: GearItemType, effect: Option<GearSpecialEffectKind>, stats: &[GearStatKind]) -> GearItemEntry {
    GearItemEntry {
        instance_id: instance_id.to_string(),
        template_id: "template".to_string(),
        name: "Item".to_string(),
        description: "An item.".to_string(),
        icon_key: "icon".to_string(),
        item_type,
        faction: None,
        stats: stats.iter().map(|kind| GearRolledStat { kind: *kind, rarity: GearRarity::Rare }).collect(),
        special_effect: effect,
    }
}

fn slot(item: Option<GearItemEntry>) -> EquippedSlot {
    EquippedSlot {
        slot_id: "slot".to_string(),
        display_name: "Slot".to_string(),
        accepted_item_types: vec![GearItemType::Instrument, GearItemType::Chant, GearItemType::Banner],
        item,
    }
}

#[test]
fn banner_items_count_only_while_the_banner_is_up() {
    assert!(item_counts_toward_bonuses(GearItemType::Banner, true));
    assert!(!item_counts_toward_bonuses(GearItemType::Banner, false));
    assert!(item_counts_toward_bonuses(GearItemType::Armor, false));
}

#[test]
fn recruits_add_the_commanders_gear_and_the_commander_does_not() {
    assert_eq!(
        gear_bonus_sources(UnitKind::Commander, None),
        Some(GearBonusSources {
            unit_type: EquipmentUnitType::Commander,
            role: UnitCombatRole::Commander,
            adds_commander_gear: false,
            uses_armywide_move_speed: true,
        })
    );
    assert_eq!(
        gear_bonus_sources(UnitKind::ChristianPeasantArcher, Some(2)),
        Some(GearBonusSources {
            unit_type: EquipmentUnitType::Tier2,
            role: UnitCombatRole::Ranged,
            adds_commander_gear: true,
            uses_armywide_move_speed: true,
        })
    );
    assert_eq!(
        gear_bonus_sources(UnitKind::MuslimPeasantPriest, None).map(|sources| sources.unit_type),
        Some(EquipmentUnitType::Tier0)
    );
    assert_eq!(gear_bonus_sources(UnitKind::ChristianMenAtArms, Some(1)), None);
    assert_eq!(gear_bonus_sources(UnitKind::ChristianPeasantInfantry, Some(9)), None);
}

#[test]
fn the_last_drum_and_any_chant_are_found() {
    let setup = UnitEquipmentSetup {
        unit_type: EquipmentUnitType::Commander,
        slots: vec![
            slot(Some(item("drum_a", GearItemType::Instrument, Some(GearSpecialEffectKind::DrumArmorPulse), &[]))),
            slot(None),
            slot(Some(item("drum_b", GearItemType::Instrument, Some(GearSpecialEffectKind::DrumArmorPulse), &[]))),
            slot(Some(item("song", GearItemType::Chant, Some(GearSpecialEffectKind::BattleChantMoraleImmunity), &[]))),
        ],
    };
    assert_eq!(special_effect_slots(&setup), SpecialEffectSlots { drum_slot: Some(2), has_chant: true });

    let plain = UnitEquipmentSetup {
        unit_type: EquipmentUnitType::Commander,
        slots: vec![slot(Some(item("banner", GearItemType::Banner, None, &[]))), slot(None)],
    };
    assert_eq!(special_effect_slots(&plain), SpecialEffectSlots { drum_slot: None, has_chant: false });
}

#[test]
fn the_first_line_of_a_stat_is_found() {
    let drum = item(
        "drum",
        GearItemType::Instrument,
        Some(GearSpecialEffectKind::DrumArmorPulse),
        &[GearStatKind::ArmorFlat, GearStatKind::ArmorPulseFlat, GearStatKind::ArmorPulseFlat],
    );
    assert_eq!(first_stat_line(&drum, GearStatKind::ArmorPulseFlat), Some(1));
    assert_eq!(first_stat_line(&drum, GearStatKind::ArmorFlat), Some(0));
    assert_eq!(first_stat_line(&drum, GearStatKind::MoveSpeedFlat), None);
}
