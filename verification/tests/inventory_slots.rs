use crusade_roguelite::inventory::{
    gear_templates, gear_templates_for_faction, second_rarity_pool,
    equipment_unit_type_for_unit, get_item_from_slot, place_item_into_slot, take_item_from_slot,
    EquipmentChestState, EquipmentUnitType, GearItemEntry, GearItemType, GearRarity, GearRolledStat, GearStatKind,
    InventoryPlaceError, InventoryRngState, InventorySlotRef, InventoryState, BACKPACK_SLOT_CAPACITY,
    CHEST_SLOT_CAPACITY,
};
use crusade_roguelite::model::{PlayerFaction, UnitKind};

fn make_test_item(item_type: GearItemType, stat: GearStatKind) -> GearItemEntry {
    GearItemEntry {
        instance_id: "test_item_1".to_string(),
        template_id: "test_template".to_string(),
        name: "Test Item".to_string(),
        description: "Test".to_string(),
        icon_key: "test_icon".to_string(),
        item_type,
        faction: None,
        stats: vec![GearRolledStat { kind: stat, rarity: GearRarity::Rare }],
        special_effect: None,
    }
}

#[test]
fn default_inventory_has_fixed_bag_capacity() {
    let inventory = InventoryState::default();
    assert_eq!(inventory.bag_slots.len(), BACKPACK_SLOT_CAPACITY);
}

#[test]
fn chest_capacity_is_fixed() {
    let mut chest = EquipmentChestState { slots: vec![None; 1] };
    chest.ensure_capacity();
    assert_eq!(chest.slots.len(), CHEST_SLOT_CAPACITY);
}

#[test]
fn equipment_slot_rejects_wrong_item_type() {
    let mut inventory = InventoryState::default();
    let mut chest = EquipmentChestState::default();
    chest.ensure_capacity();
    let wrong_item = make_test_item(GearItemType::Armor, GearStatKind::ArmorFlat);
    let result = place_item_into_slot(
        &mut inventory,
        &mut chest,
        InventorySlotRef::Equipment { unit_type: EquipmentUnitType::Tier0, slot_index: 0 },
        wrong_item,
    );
    assert_eq!(result, Err(InventoryPlaceError::ItemTypeMismatch));
}

#[test]
fn can_move_item_between_backpack_and_equipment() {
    let mut inventory = InventoryState::default();
    let mut chest = EquipmentChestState::default();
    chest.ensure_capacity();

    let sword = make_test_item(GearItemType::MeleeWeapon, GearStatKind::DamagePercent);
    place_item_into_slot(&mut inventory, &mut chest, InventorySlotRef::Backpack(0), sword.clone()).expect("place in bag");

    let grabbed = take_item_from_slot(&mut inventory, &mut chest, InventorySlotRef::Backpack(0)).expect("take from bag");
    let equip_slot = InventorySlotRef::Equipment { unit_type: EquipmentUnitType::Tier0, slot_index: 0 };
    place_item_into_slot(&mut inventory, &mut chest, equip_slot, grabbed).expect("equip item");

    assert_eq!(get_item_from_slot(&inventory, &chest, InventorySlotRef::Backpack(0)), None);
    assert_eq!(get_item_from_slot(&inventory, &chest, equip_slot), Some(&sword));
    assert_eq!(equipment_unit_type_for_unit(UnitKind::ChristianPeasantInfantry, Some(0)), Some(EquipmentUnitType::Tier0));
}

#[test]
fn placing_into_a_missing_slot_is_refused() {
    let mut inventory = InventoryState::default();
    let mut chest = EquipmentChestState::default();
    let before = inventory.clone();
    let item = make_test_item(GearItemType::Banner, GearStatKind::AuraRangeFlat);
    let result = place_item_into_slot(&mut inventory, &mut chest, InventorySlotRef::Backpack(BACKPACK_SLOT_CAPACITY), item);
    assert_eq!(result, Err(InventoryPlaceError::InvalidSlot));
    assert_eq!(inventory, before);
    let chest_result = place_item_into_slot(
        &mut inventory,
        &mut chest,
        InventorySlotRef::Chest(0),
        make_test_item(GearItemType::Banner, GearStatKind::AuraRangeFlat),
    );
    assert_eq!(chest_result, Err(InventoryPlaceError::InvalidSlot));
}

#[test]
fn placing_returns_the_item_it_replaces_and_reading_gives_the_new_one() {
    let mut inventory = InventoryState::default();
    let mut chest = EquipmentChestState::default();
    let first = make_test_item(GearItemType::Banner, GearStatKind::AuraRangeFlat);
    let mut second = make_test_item(GearItemType::Chant, GearStatKind::MoraleRegenPerSec);
    second.instance_id = "test_item_2".to_string();
    assert_eq!(place_item_into_slot(&mut inventory, &mut chest, InventorySlotRef::Backpack(3), first.clone()), Ok(None));
    assert_eq!(
        place_item_into_slot(&mut inventory, &mut chest, InventorySlotRef::Backpack(3), second.clone()),
        Ok(Some(first))
    );
    assert_eq!(get_item_from_slot(&inventory, &chest, InventorySlotRef::Backpack(3)), Some(&second));
    assert_eq!(inventory.first_free_bag_slot(), Some(0));
}

#[test]
fn taking_then_placing_back_restores_the_inventory() {
    let mut inventory = InventoryState::default();
    let mut chest = EquipmentChestState::default();
    chest.ensure_capacity();
    let banner = make_test_item(GearItemType::Banner, GearStatKind::AuraRangeFlat);
    let slot = InventorySlotRef::Equipment { unit_type: EquipmentUnitType::Commander, slot_index: 0 };
    place_item_into_slot(&mut inventory, &mut chest, slot, banner).expect("commander banner slot");
    let before = inventory.clone();
    let taken = take_item_from_slot(&mut inventory, &mut chest, slot).expect("item present");
    assert_eq!(get_item_from_slot(&inventory, &chest, slot), None);
    place_item_into_slot(&mut inventory, &mut chest, slot, taken).expect("put back");
    assert_eq!(inventory, before);
}

#[test]
fn commander_slots_only_take_their_item_type() {
    let mut inventory = InventoryState::default();
    let mut chest = EquipmentChestState::default();
    let sword = make_test_item(GearItemType::MeleeWeapon, GearStatKind::DamagePercent);
    let result = place_item_into_slot(
        &mut inventory,
        &mut chest,
        InventorySlotRef::Equipment { unit_type: EquipmentUnitType::Commander, slot_index: 0 },
        sword,
    );
    assert_eq!(result, Err(InventoryPlaceError::ItemTypeMismatch));
}

#[test]
fn rarity_points_round_trip() {
    for rarity in [
        GearRarity::Common,
        GearRarity::Uncommon,
        GearRarity::Rare,
        GearRarity::Epic,
        GearRarity::Mythical,
        GearRarity::Unique,
    ] {
        assert_eq!(GearRarity::from_points(rarity.points()), rarity);
    }
    assert_eq!(GearRarity::Common.points(), 1);
    assert_eq!(GearRarity::Unique.points(), 6);
}

#[test]
fn unit_types_follow_the_tiers() {
    assert_eq!(EquipmentUnitType::from_tier(0), Some(EquipmentUnitType::Tier0));
    assert_eq!(EquipmentUnitType::from_tier(5), Some(EquipmentUnitType::Tier5));
    assert_eq!(EquipmentUnitType::from_tier(6), Some(EquipmentUnitType::Hero));
    assert_eq!(EquipmentUnitType::from_tier(7), None);
    assert_eq!(EquipmentUnitType::all().len(), 8);
}

#[test]
fn inventory_rng_steps_like_the_lcg_and_numbers_items() {
    let mut rng = InventoryRngState::new(1, 7);
    let roll = rng.next_u32_roll();
    let expected_state = 1u64.wrapping_mul(6_364_136_223_846_793_005).wrapping_add(1_442_695_040_888_963_407);
    assert_eq!(roll, (expected_state >> 32) as u32);
    let first = rng.next_item_instance_id("sword");
    let second = rng.next_item_instance_id("sword");
    assert_eq!(first, "sword_00000007");
    assert_eq!(second, "sword_00000008");
    let mut late = InventoryRngState::new(1, 123_456_789);
    assert_eq!(late.next_item_instance_id("bow"), "bow_123456789");
}

#[test]
fn chest_roll_budget_rule_is_applied() {
    let all = [
        GearRarity::Common,
        GearRarity::Uncommon,
        GearRarity::Rare,
        GearRarity::Epic,
        GearRarity::Mythical,
        GearRarity::Unique,
    ];
    for first in all {
        let pool = second_rarity_pool(first);
        assert!(!pool.is_empty());
        for second in pool {
            if first != GearRarity::Unique {
                assert!(second.points() <= (6 - first.points()).clamp(1, 5));
            } else {
                assert!(second.points() >= 3);
            }
        }
    }
    assert_eq!(second_rarity_pool(GearRarity::Common), vec![
        GearRarity::Common,
        GearRarity::Uncommon,
        GearRarity::Rare,
        GearRarity::Epic,
        GearRarity::Mythical,
    ]);
    assert_eq!(second_rarity_pool(GearRarity::Mythical), vec![GearRarity::Common]);
    assert_eq!(
        second_rarity_pool(GearRarity::Unique),
        vec![GearRarity::Rare, GearRarity::Epic, GearRarity::Mythical, GearRarity::Unique]
    );
}

#[test]
fn faction_templates_leave_out_the_other_factions_symbol() {
    assert_eq!(gear_templates().len(), 9);
    let christian: Vec<&str> = gear_templates_for_faction(PlayerFaction::Christian).iter().map(|t| t.id).collect();
    assert_eq!(christian.len(), 8);
    assert!(christian.contains(&"symbol_cross"));
    assert!(!christian.contains(&"symbol_crescent"));
    let muslim: Vec<&str> = gear_templates_for_faction(PlayerFaction::Muslim).iter().map(|t| t.id).collect();
    assert!(muslim.contains(&"symbol_crescent"));
    assert!(!muslim.contains(&"symbol_cross"));
    assert_eq!(muslim[0], "banner_sturdy_pole");
}
