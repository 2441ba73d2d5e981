//! Equipment and inventory: item kinds and rarities, the backpack, the
//! per-unit-type equipment setups and the loot chest, and the moves of
//! items between their slots.
use vstd::prelude::*;

use crate::model::{PlayerFaction, UnitKind};
use crate::unit_line::UnitLine;

verus! {

pub const BACKPACK_ROWS: usize = 5;

pub const BACKPACK_COLS: usize = 6;

pub const BACKPACK_SLOT_CAPACITY: usize = BACKPACK_ROWS * BACKPACK_COLS;

pub const CHEST_SLOT_CAPACITY: usize = 3;

/// The rarity points two rolled stats of one item may share.
pub const ITEM_ROLL_BUDGET: u8 = 6;

/// The unit groups that each have an equipment setup.
#[derive(Clone, Copy, Debug, PartialEq, Eq, Hash, Structural)]
pub enum EquipmentUnitType {
    Commander,
    Tier0,
    Tier1,
    Tier2,
    Tier3,
    Tier4,
    Tier5,
    Hero,
}

impl EquipmentUnitType {
    /// Every unit group, commander first and hero last.
    pub open spec fn spec_all() -> Seq<EquipmentUnitType> {
        seq![
            EquipmentUnitType::Commander,
            EquipmentUnitType::Tier0,
            EquipmentUnitType::Tier1,
            EquipmentUnitType::Tier2,
            EquipmentUnitType::Tier3,
            EquipmentUnitType::Tier4,
            EquipmentUnitType::Tier5,
            EquipmentUnitType::Hero,
        ]
    }

    pub fn all() -> (r: [Self; 8])
        ensures
            r@ == Self::spec_all(),
    {
        [
            EquipmentUnitType::Commander,
            EquipmentUnitType::Tier0,
            EquipmentUnitType::Tier1,
            EquipmentUnitType::Tier2,
            EquipmentUnitType::Tier3,
            EquipmentUnitType::Tier4,
            EquipmentUnitType::Tier5,
            EquipmentUnitType::Hero,
        ]
    }

    /// The group of recruits of `tier`; tier 6 stands for heroes.
    pub open spec fn spec_from_tier(tier: u8) -> Option<EquipmentUnitType> {
        if tier <= 6 {
            Some(Self::spec_all()[tier + 1])
        } else {
            None
        }
    }

    pub fn from_tier(tier: u8) -> (r: Option<Self>)
        ensures
            r == Self::spec_from_tier(tier),
    {
        match tier {
            0 => Some(EquipmentUnitType::Tier0),
            1 => Some(EquipmentUnitType::Tier1),
            2 => Some(EquipmentUnitType::Tier2),
            3 => Some(EquipmentUnitType::Tier3),
            4 => Some(EquipmentUnitType::Tier4),
            5 => Some(EquipmentUnitType::Tier5),
            6 => Some(EquipmentUnitType::Hero),
            _ => None,
        }
    }
}

/// Rarity of a rolled stat.
#[derive(Clone, Copy, Debug, PartialEq, Eq, Hash, Structural)]
pub enum GearRarity {
    Common,
    Uncommon,
    Rare,
    Epic,
    Mythical,
    Unique,
}

impl GearRarity {
    /// Rarity points: 1 for common up to 6 for unique.
    pub open spec fn spec_points(self) -> u8 {
        match self {
            GearRarity::Common => 1,
            GearRarity::Uncommon => 2,
            GearRarity::Rare => 3,
            GearRarity::Epic => 4,
            GearRarity::Mythical => 5,
            GearRarity::Unique => 6,
        }
    }

    pub fn points(self) -> (r: u8)
        ensures
            r == self.spec_points(),
    {
        match self {
            GearRarity::Common => 1,
            GearRarity::Uncommon => 2,
            GearRarity::Rare => 3,
            GearRarity::Epic => 4,
            GearRarity::Mythical => 5,
            GearRarity::Unique => 6,
        }
    }

    /// The rarity worth `points`; 6 and anything outside 1..=5 is unique.
    pub open spec fn spec_from_points(points: u8) -> GearRarity {
        if points == 1 {
            GearRarity::Common
        } else if points == 2 {
            GearRarity::Uncommon
        } else if points == 3 {
            GearRarity::Rare
        } else if points == 4 {
            GearRarity::Epic
        } else if points == 5 {
            GearRarity::Mythical
        } else {
            GearRarity::Unique
        }
    }

    pub fn from_points(points: u8) -> (r: Self)
        ensures
            r == Self::spec_from_points(points),
    {
        match points {
            1 => GearRarity::Common,
            2 => GearRarity::Uncommon,
            3 => GearRarity::Rare,
            4 => GearRarity::Epic,
            5 => GearRarity::Mythical,
            _ => GearRarity::Unique,
        }
    }

    pub fn label(self) -> (r: &'static str)
        ensures
            r@ == (match self {
                GearRarity::Common => "Common"@,
                GearRarity::Uncommon => "Uncommon"@,
                GearRarity::Rare => "Rare"@,
                GearRarity::Epic => "Epic"@,
                GearRarity::Mythical => "Mythical"@,
                GearRarity::Unique => "Unique"@,
            }),
    {
        match self {
            GearRarity::Common => "Common",
            GearRarity::Uncommon => "Uncommon",
            GearRarity::Rare => "Rare",
            GearRarity::Epic => "Epic",
            GearRarity::Mythical => "Mythical",
            GearRarity::Unique => "Unique",
        }
    }
}

/// A rarity is recovered from its points.
pub proof fn lemma_rarity_points_round_trip(r: GearRarity)
    ensures
        GearRarity::spec_from_points(r.spec_points()) == r,
        1 <= r.spec_points() <= 6,
{
}

/// The kinds of gear and the slots they fit.
#[derive(Clone, Copy, Debug, PartialEq, Eq, Hash, Structural)]
pub enum GearItemType {
    Banner,
    Instrument,
    Chant,
    Squire,
    Symbol,
    MeleeWeapon,
    RangedWeapon,
    Armor,
}

/// The stat a rolled gear line improves.
#[derive(Clone, Copy, Debug, PartialEq, Eq, Hash, Structural)]
pub enum GearStatKind {
    DamagePercent,
    AttackSpeedPercent,
    ArmorFlat,
    RangedRangeFlat,
    MoveSpeedFlat,
    CommanderMaxHealthFlat,
    MoraleRegenPerSec,
    CohesionRegenPerSec,
    MoraleLossResistancePercent,
    CohesionLossResistancePercent,
    AuraRangeFlat,
    AuraEnemyEffectPercent,
    CooldownReductionSecs,
    ArmorPulseFlat,
    SquirePrimary,
    SquireSecondary,
}

impl GearStatKind {
    pub fn label(self) -> (r: &'static str)
        ensures
            r@ == (match self {
                GearStatKind::DamagePercent => "Damage"@,
                GearStatKind::AttackSpeedPercent => "Attack Speed"@,
                GearStatKind::ArmorFlat => "Armor"@,
                GearStatKind::RangedRangeFlat => "Ranged Range"@,
                GearStatKind::MoveSpeedFlat => "Move Speed"@,
                GearStatKind::CommanderMaxHealthFlat => "Unit Health"@,
                GearStatKind::MoraleRegenPerSec => "Morale Regen/s"@,
                GearStatKind::CohesionRegenPerSec => "Cohesion Regen/s"@,
                GearStatKind::MoraleLossResistancePercent => "Morale Loss Resist"@,
                GearStatKind::CohesionLossResistancePercent => "Cohesion Loss Resist"@,
                GearStatKind::AuraRangeFlat => "Aura Range"@,
                GearStatKind::AuraEnemyEffectPercent => "Aura Enemy Effect"@,
                GearStatKind::CooldownReductionSecs => "Cooldown Reduction"@,
                GearStatKind::ArmorPulseFlat => "Armor Pulse"@,
                GearStatKind::SquirePrimary => "Squire Primary"@,
                GearStatKind::SquireSecondary => "Squire Secondary"@,
            }),
    {
        match self {
            GearStatKind::DamagePercent => "Damage",
            GearStatKind::AttackSpeedPercent => "Attack Speed",
            GearStatKind::ArmorFlat => "Armor",
            GearStatKind::RangedRangeFlat => "Ranged Range",
            GearStatKind::MoveSpeedFlat => "Move Speed",
            GearStatKind::CommanderMaxHealthFlat => "Unit Health",
            GearStatKind::MoraleRegenPerSec => "Morale Regen/s",
            GearStatKind::CohesionRegenPerSec => "Cohesion Regen/s",
            GearStatKind::MoraleLossResistancePercent => "Morale Loss Resist",
            GearStatKind::CohesionLossResistancePercent => "Cohesion Loss Resist",
            GearStatKind::AuraRangeFlat => "Aura Range",
            GearStatKind::AuraEnemyEffectPercent => "Aura Enemy Effect",
            GearStatKind::CooldownReductionSecs => "Cooldown Reduction",
            GearStatKind::ArmorPulseFlat => "Armor Pulse",
            GearStatKind::SquirePrimary => "Squire Primary",
            GearStatKind::SquireSecondary => "Squire Secondary",
        }
    }
}

/// The periodic army effects some commander gear triggers.
#[derive(Clone, Copy, Debug, PartialEq, Eq, Hash, Structural)]
pub enum GearSpecialEffectKind {
    DrumArmorPulse,
    BattleChantMoraleImmunity,
}

impl GearSpecialEffectKind {
    pub fn label(self) -> (r: &'static str)
        ensures
            r@ == (match self {
                GearSpecialEffectKind::DrumArmorPulse => "Drum: +Armor pulse (5s / 20s)"@,
                GearSpecialEffectKind::BattleChantMoraleImmunity =>
                    "Battle Song: Morale-loss immunity (5s / 20s)"@,
            }),
    {
        match self {
            GearSpecialEffectKind::DrumArmorPulse => "Drum: +Armor pulse (5s / 20s)",
            GearSpecialEffectKind::BattleChantMoraleImmunity =>
                "Battle Song: Morale-loss immunity (5s / 20s)",
        }
    }
}

/// One rolled line of an item: the stat it raises and its rarity.  The
/// magnitude of the line is a real number and is kept beside the item by
/// the game layer, keyed by the item's instance id.
#[derive(Clone, Copy, Debug, PartialEq, Eq, Structural)]
pub struct GearRolledStat {
    pub kind: GearStatKind,
    pub rarity: GearRarity,
}

/// One item instance.
#[derive(Clone, Debug, PartialEq)]
pub struct GearItemEntry {
    pub instance_id: String,
    pub template_id: String,
    pub name: String,
    pub description: String,
    pub icon_key: String,
    pub item_type: GearItemType,
    pub faction: Option<PlayerFaction>,
    pub stats: Vec<GearRolledStat>,
    pub special_effect: Option<GearSpecialEffectKind>,
}

/// One equipment slot of a setup and the item in it.
#[derive(Clone, Debug, PartialEq)]
pub struct EquippedSlot {
    pub slot_id: String,
    pub display_name: String,
    pub accepted_item_types: Vec<GearItemType>,
    pub item: Option<GearItemEntry>,
}

/// The equipment slots of one unit group.
#[derive(Clone, Debug, PartialEq)]
pub struct UnitEquipmentSetup {
    pub unit_type: EquipmentUnitType,
    pub slots: Vec<EquippedSlot>,
}

/// The player's backpack and the equipment setups of every unit group.
#[derive(Clone, Debug, PartialEq)]
pub struct InventoryState {
    pub bag_slots: Vec<Option<GearItemEntry>>,
    pub setups: Vec<UnitEquipmentSetup>,
}

/// The items offered by an opened chest.
#[derive(Clone, Debug)]
pub struct EquipmentChestState {
    pub slots: Vec<Option<GearItemEntry>>,
}

/// `n` empty slots.
fn empty_slots(n: usize) -> (r: Vec<Option<GearItemEntry>>)
    ensures
        r@.len() == n,
        forall|i: int| 0 <= i < n ==> #[trigger] r@[i] is None,
{
    let mut v: Vec<Option<GearItemEntry>> = Vec::new();
    let mut i: usize = 0;
    while i < n
        invariant
            i <= n,
            v@.len() == i,
            forall|j: int| 0 <= j < i ==> #[trigger] v@[j] is None,
        decreases n - i,
    {
        v.push(None);
        i = i + 1;
    }
    v
}

impl Default for EquipmentChestState {
    fn default() -> (r: Self)
        ensures
            r.slots@.len() == 0,
    {
        EquipmentChestState { slots: Vec::new() }
    }
}

impl EquipmentChestState {
    /// Empties the chest to its fixed number of slots.
    pub fn clear(&mut self)
        ensures
            final(self).slots@.len() == CHEST_SLOT_CAPACITY,
            forall|i: int| 0 <= i < CHEST_SLOT_CAPACITY ==> #[trigger] final(self).slots@[i] is None,
    {
        self.slots = empty_slots(CHEST_SLOT_CAPACITY);
    }

    /// Resets the chest to empty slots unless it already has the fixed
    /// number of slots.
    pub fn ensure_capacity(&mut self)
        ensures
            old(self).slots@.len() == CHEST_SLOT_CAPACITY ==> final(self).slots@ == old(self).slots@,
            old(self).slots@.len() != CHEST_SLOT_CAPACITY ==> (final(self).slots@.len()
                == CHEST_SLOT_CAPACITY && forall|i: int|
                0 <= i < CHEST_SLOT_CAPACITY ==> #[trigger] final(self).slots@[i] is None),
    {
        if self.slots.len() != CHEST_SLOT_CAPACITY {
            self.clear();
        }
    }

    /// True when no slot holds an item.
    pub fn is_empty(&self) -> (r: bool)
        ensures
            r == (forall|i: int| 0 <= i < self.slots@.len() ==> #[trigger] self.slots@[i] is None),
    {
        let mut i: usize = 0;
        while i < self.slots.len()
            invariant
                i <= self.slots@.len(),
                forall|j: int| 0 <= j < i ==> #[trigger] self.slots@[j] is None,
            decreases self.slots@.len() - i,
        {
            if self.slots[i].is_some() {
                return false;
            }
            i = i + 1;
        }
        true
    }

    /// Empties the chest and lays `items` into its slots in order; items
    /// beyond the chest's slots are dropped.
    pub fn stock_items(&mut self, items: Vec<GearItemEntry>)
        ensures
            final(self).slots@.len() == CHEST_SLOT_CAPACITY,
            forall|i: int|
                0 <= i < CHEST_SLOT_CAPACITY ==> #[trigger] final(self).slots@[i] == (if i < items@.len() {
                    Some(items@[i])
                } else {
                    None
                }),
    {
        let ghost all = items@;
        let mut rest = items;
        let mut slots: Vec<Option<GearItemEntry>> = Vec::new();
        while slots.len() < CHEST_SLOT_CAPACITY
            invariant
                slots@.len() <= CHEST_SLOT_CAPACITY,
                slots@.len() <= all.len() ==> rest@ == all.subrange(slots@.len() as int, all.len() as int),
                slots@.len() > all.len() ==> rest@.len() == 0,
                forall|j: int|
                    0 <= j < slots@.len() ==> #[trigger] slots@[j] == (if j < all.len() {
                        Some(all[j])
                    } else {
                        None
                    }),
            decreases CHEST_SLOT_CAPACITY - slots@.len(),
        {
            if rest.len() > 0 {
                let item = rest.remove(0);
                slots.push(Some(item));
            } else {
                slots.push(None);
            }
        }
        self.slots = slots;
    }
}

/// How many items an opened chest holds for a roll: one to three.
pub fn chest_item_count_from_roll(roll: u32) -> (r: usize)
    ensures
        r == roll % 3 + 1,
        1 <= r <= 3,
{
    (roll % 3 + 1) as usize
}

/// `i` is the position of the first setup of `unit_type`.
pub open spec fn is_first_setup(setups: Seq<UnitEquipmentSetup>, unit_type: EquipmentUnitType, i: int) -> bool {
    &&& 0 <= i < setups.len()
    &&& setups[i].unit_type == unit_type
    &&& forall|j: int| 0 <= j < i ==> #[trigger] setups[j].unit_type != unit_type
}

/// The position of the first setup of `unit_type`, if there is one.
pub open spec fn setup_index(setups: Seq<UnitEquipmentSetup>, unit_type: EquipmentUnitType) -> Option<int> {
    if exists|i: int| is_first_setup(setups, unit_type, i) {
        Some(choose|i: int| is_first_setup(setups, unit_type, i))
    } else {
        None
    }
}

/// There is at most one first setup of a unit type.
pub proof fn lemma_first_setup_unique(setups: Seq<UnitEquipmentSetup>, unit_type: EquipmentUnitType, i: int, k: int)
    requires
        is_first_setup(setups, unit_type, i),
        is_first_setup(setups, unit_type, k),
    ensures
        i == k,
{
    if i < k {
        assert(setups[i].unit_type != unit_type);
    } else if k < i {
        assert(setups[k].unit_type != unit_type);
    }
}

/// Finds the first setup of `unit_type`.
fn find_setup(setups: &Vec<UnitEquipmentSetup>, unit_type: EquipmentUnitType) -> (r: Option<usize>)
    ensures
        r matches Some(i) ==> setup_index(setups@, unit_type) == Some(i as int),
        r is None ==> setup_index(setups@, unit_type) is None,
{
    let mut i: usize = 0;
    while i < setups.len()
        invariant
            i <= setups@.len(),
            forall|j: int| 0 <= j < i ==> #[trigger] setups@[j].unit_type != unit_type,
        decreases setups@.len() - i,
    {
        if setups[i].unit_type == unit_type {
            proof {
                assert(is_first_setup(setups@, unit_type, i as int));
                let c = choose|k: int| is_first_setup(setups@, unit_type, k);
                lemma_first_setup_unique(setups@, unit_type, i as int, c);
            }
            return Some(i);
        }
        i = i + 1;
    }
    proof {
        if exists|k: int| is_first_setup(setups@, unit_type, k) {
            let c = choose|k: int| is_first_setup(setups@, unit_type, k);
            assert(setups@[c].unit_type != unit_type);
        }
    }
    None
}

/// A place where an item can sit.
#[derive(Clone, Copy, Debug, PartialEq, Eq, Structural)]
pub enum InventorySlotRef {
    Backpack(usize),
    Equipment { unit_type: EquipmentUnitType, slot_index: usize },
    Chest(usize),
}

/// Why an item could not be placed.
#[derive(Clone, Copy, Debug, PartialEq, Eq, Structural)]
pub enum InventoryPlaceError {
    InvalidSlot,
    ItemTypeMismatch,
}

/// The slot `slot` names exists.
pub open spec fn slot_exists(inventory: InventoryState, chest: EquipmentChestState, slot: InventorySlotRef) -> bool {
    match slot {
        InventorySlotRef::Backpack(index) => index < inventory.bag_slots@.len(),
        InventorySlotRef::Equipment { unit_type, slot_index } => match setup_index(
            inventory.setups@,
            unit_type,
        ) {
            Some(s) => slot_index < inventory.setups@[s].slots@.len(),
            None => false,
        },
        InventorySlotRef::Chest(index) => index < chest.slots@.len(),
    }
}

/// The item in `slot`; `None` where the slot is empty or does not exist.
pub open spec fn item_at(inventory: InventoryState, chest: EquipmentChestState, slot: InventorySlotRef) -> Option<GearItemEntry> {
    if !slot_exists(inventory, chest, slot) {
        None
    } else {
        match slot {
            InventorySlotRef::Backpack(index) => inventory.bag_slots@[index as int],
            InventorySlotRef::Equipment { unit_type, slot_index } => inventory.setups@[setup_index(
                inventory.setups@,
                unit_type,
            ).unwrap()].slots@[slot_index as int].item,
            InventorySlotRef::Chest(index) => chest.slots@[index as int],
        }
    }
}

/// The two slots have the same fixed description (id, display name and
/// accepted item types).
pub open spec fn same_slot_frame(a: EquippedSlot, b: EquippedSlot) -> bool {
    &&& a.slot_id == b.slot_id
    &&& a.display_name == b.display_name
    &&& a.accepted_item_types@ == b.accepted_item_types@
}

/// `new` is `old` with the item in the existing slot `slot` replaced by
/// `item`, and nothing else changed.
pub open spec fn replaced_in_slot(
    old_inventory: InventoryState,
    old_chest: EquipmentChestState,
    new_inventory: InventoryState,
    new_chest: EquipmentChestState,
    slot: InventorySlotRef,
    item: Option<GearItemEntry>,
) -> bool {
    match slot {
        InventorySlotRef::Backpack(index) => {
            &&& new_inventory.bag_slots@ == old_inventory.bag_slots@.update(index as int, item)
            &&& new_inventory.setups@ == old_inventory.setups@
            &&& new_chest.slots@ == old_chest.slots@
        },
        InventorySlotRef::Chest(index) => {
            &&& new_chest.slots@ == old_chest.slots@.update(index as int, item)
            &&& new_inventory.setups@ == old_inventory.setups@
            &&& new_inventory.bag_slots@ == old_inventory.bag_slots@
        },
        InventorySlotRef::Equipment { unit_type, slot_index } => {
            let s = setup_index(old_inventory.setups@, unit_type).unwrap();
            let old_setup = old_inventory.setups@[s];
            let new_setup = new_inventory.setups@[s];
            &&& new_inventory.bag_slots@ == old_inventory.bag_slots@
            &&& new_chest.slots@ == old_chest.slots@
            &&& new_inventory.setups@.len() == old_inventory.setups@.len()
            &&& forall|j: int|
                0 <= j < old_inventory.setups@.len() && j != s ==> #[trigger] new_inventory.setups@[j]
                    == old_inventory.setups@[j]
            &&& new_setup.unit_type == old_setup.unit_type
            &&& new_setup.slots@.len() == old_setup.slots@.len()
            &&& forall|k: int|
                0 <= k < old_setup.slots@.len() && k != slot_index ==> #[trigger] new_setup.slots@[k]
                    == old_setup.slots@[k]
            &&& same_slot_frame(new_setup.slots@[slot_index as int], old_setup.slots@[slot_index as int])
            &&& new_setup.slots@[slot_index as int].item == item
        },
    }
}

/// The equipment slot accepts items of `item_type`.
pub open spec fn slot_accepts_type(slot: EquippedSlot, item_type: GearItemType) -> bool {
    slot.accepted_item_types@.contains(item_type)
}

/// Whether the slot `slot` takes an item of `item_type`: backpack and chest
/// slots take anything, equipment slots only their accepted types.
pub open spec fn slot_takes(inventory: InventoryState, slot: InventorySlotRef, item_type: GearItemType) -> bool {
    match slot {
        InventorySlotRef::Equipment { unit_type, slot_index } => slot_accepts_type(
            inventory.setups@[setup_index(inventory.setups@, unit_type).unwrap()].slots@[slot_index as int],
            item_type,
        ),
        _ => true,
    }
}

fn slot_accepts_item(slot: &EquippedSlot, item: &GearItemEntry) -> (r: bool)
    ensures
        r == slot_accepts_type(*slot, item.item_type),
{
    let mut i: usize = 0;
    while i < slot.accepted_item_types.len()
        invariant
            i <= slot.accepted_item_types@.len(),
            forall|j: int| 0 <= j < i ==> #[trigger] slot.accepted_item_types@[j] != item.item_type,
        decreases slot.accepted_item_types@.len() - i,
    {
        if slot.accepted_item_types[i] == item.item_type {
            return true;
        }
        i = i + 1;
    }
    false
}

impl InventoryState {
    /// The first setup of `unit_type`, if any.
    pub fn setup_for(&self, unit_type: EquipmentUnitType) -> (r: Option<&UnitEquipmentSetup>)
        ensures
            r is Some == setup_index(self.setups@, unit_type) is Some,
            r is Some ==> *r.unwrap() == self.setups@[setup_index(self.setups@, unit_type).unwrap()],
    {
        match find_setup(&self.setups, unit_type) {
            Some(i) => Some(&self.setups[i]),
            None => None,
        }
    }

    /// The first setup of `unit_type`, for changing it in place.
    pub fn setup_for_mut(&mut self, unit_type: EquipmentUnitType) -> (r: Option<&mut UnitEquipmentSetup>)
        ensures
            r is Some == setup_index(old(self).setups@, unit_type) is Some,
            r is None ==> *final(self) == *old(self),
            r is Some ==> ({
                let i = setup_index(old(self).setups@, unit_type).unwrap();
                &&& *r.unwrap() == old(self).setups@[i]
                &&& final(self).setups@ == old(self).setups@.update(i, *final(r.unwrap()))
                &&& final(self).bag_slots@ == old(self).bag_slots@
            }),
    {
        match find_setup(&self.setups, unit_type) {
            Some(i) => Some(&mut self.setups[i]),
            None => None,
        }
    }

    /// Resets the backpack to empty slots unless it already has the fixed
    /// number of slots.
    pub fn ensure_bag_capacity(&mut self)
        ensures
            final(self).setups@ == old(self).setups@,
            old(self).bag_slots@.len() == BACKPACK_SLOT_CAPACITY ==> final(self).bag_slots@
                == old(self).bag_slots@,
            old(self).bag_slots@.len() != BACKPACK_SLOT_CAPACITY ==> (final(self).bag_slots@.len()
                == BACKPACK_SLOT_CAPACITY && forall|i: int|
                0 <= i < BACKPACK_SLOT_CAPACITY ==> #[trigger] final(self).bag_slots@[i] is None),
    {
        if self.bag_slots.len() != BACKPACK_SLOT_CAPACITY {
            self.bag_slots = empty_slots(BACKPACK_SLOT_CAPACITY);
        }
    }

    /// The first empty backpack slot.
    pub fn first_free_bag_slot(&self) -> (r: Option<usize>)
        ensures
            r matches Some(i) ==> i < self.bag_slots@.len() && self.bag_slots@[i as int] is None
                && forall|j: int| 0 <= j < i ==> #[trigger] self.bag_slots@[j] is Some,
            r is None ==> forall|j: int|
                0 <= j < self.bag_slots@.len() ==> #[trigger] self.bag_slots@[j] is Some,
    {
        let mut i: usize = 0;
        while i < self.bag_slots.len()
            invariant
                i <= self.bag_slots@.len(),
                forall|j: int| 0 <= j < i ==> #[trigger] self.bag_slots@[j] is Some,
            decreases self.bag_slots@.len() - i,
        {
            if self.bag_slots[i].is_none() {
                return Some(i);
            }
            i = i + 1;
        }
        None
    }

    /// The item in backpack slot `index`, if the slot exists and is full.
    pub fn bag_item(&self, index: usize) -> (r: Option<&GearItemEntry>)
        ensures
            r is Some == (index < self.bag_slots@.len() && self.bag_slots@[index as int] is Some),
            r is Some ==> *r.unwrap() == self.bag_slots@[index as int].unwrap(),
    {
        if index < self.bag_slots.len() {
            self.bag_slots[index].as_ref()
        } else {
            None
        }
    }
}

/// The item in `slot`, if the slot exists and holds one.
pub fn get_item_from_slot<'a>(
    inventory: &'a InventoryState,
    chest: &'a EquipmentChestState,
    slot: InventorySlotRef,
) -> (r: Option<&'a GearItemEntry>)
    ensures
        r is Some == item_at(*inventory, *chest, slot) is Some,
        r is Some ==> *r.unwrap() == item_at(*inventory, *chest, slot).unwrap(),
{
    match slot {
        InventorySlotRef::Backpack(index) => inventory.bag_item(index),
        InventorySlotRef::Equipment { unit_type, slot_index } => {
            match find_setup(&inventory.setups, unit_type) {
                Some(s) => {
                    if slot_index < inventory.setups[s].slots.len() {
                        inventory.setups[s].slots[slot_index].item.as_ref()
                    } else {
                        None
                    }
                },
                None => None,
            }
        },
        InventorySlotRef::Chest(index) => {
            if index < chest.slots.len() {
                chest.slots[index].as_ref()
            } else {
                None
            }
        },
    }
}

/// Takes the item out of `slot`, leaving the slot empty.
pub fn take_item_from_slot(
    inventory: &mut InventoryState,
    chest: &mut EquipmentChestState,
    slot: InventorySlotRef,
) -> (r: Option<GearItemEntry>)
    ensures
        r == item_at(*old(inventory), *old(chest), slot),
        slot_exists(*old(inventory), *old(chest), slot) ==> replaced_in_slot(
            *old(inventory),
            *old(chest),
            *final(inventory),
            *final(chest),
            slot,
            None,
        ),
        !slot_exists(*old(inventory), *old(chest), slot) ==> (*final(inventory) == *old(inventory)
            && *final(chest) == *old(chest)),
{
    match slot {
        InventorySlotRef::Backpack(index) => {
            if index < inventory.bag_slots.len() {
                inventory.bag_slots[index].take()
            } else {
                None
            }
        },
        InventorySlotRef::Equipment { unit_type, slot_index } => {
            match find_setup(&inventory.setups, unit_type) {
                Some(s) => {
                    if slot_index < inventory.setups[s].slots.len() {
                        inventory.setups[s].slots[slot_index].item.take()
                    } else {
                        None
                    }
                },
                None => None,
            }
        },
        InventorySlotRef::Chest(index) => {
            if index < chest.slots.len() {
                chest.slots[index].take()
            } else {
                None
            }
        },
    }
}

/// Puts `item` into `slot` and hands back what was there.  Fails, changing
/// nothing, when the slot does not exist or is an equipment slot that
/// does not accept the item's type.
pub fn place_item_into_slot(
    inventory: &mut InventoryState,
    chest: &mut EquipmentChestState,
    slot: InventorySlotRef,
    item: GearItemEntry,
) -> (r: Result<Option<GearItemEntry>, InventoryPlaceError>)
    ensures
        !slot_exists(*old(inventory), *old(chest), slot) ==> r == Err::<
            Option<GearItemEntry>,
            InventoryPlaceError,
        >(InventoryPlaceError::InvalidSlot),
        slot_exists(*old(inventory), *old(chest), slot) && !slot_takes(
            *old(inventory),
            slot,
            item.item_type,
        ) ==> r == Err::<Option<GearItemEntry>, InventoryPlaceError>(
            InventoryPlaceError::ItemTypeMismatch,
        ),
        r is Err ==> (*final(inventory) == *old(inventory) && *final(chest) == *old(chest)),
        slot_exists(*old(inventory), *old(chest), slot) && slot_takes(
            *old(inventory),
            slot,
            item.item_type,
        ) ==> (r == Ok::<Option<GearItemEntry>, InventoryPlaceError>(
            item_at(*old(inventory), *old(chest), slot),
        ) && replaced_in_slot(
            *old(inventory),
            *old(chest),
            *final(inventory),
            *final(chest),
            slot,
            Some(item),
        )),
{
    match slot {
        InventorySlotRef::Backpack(index) => {
            if index >= inventory.bag_slots.len() {
                return Err(InventoryPlaceError::InvalidSlot);
            }
            let target = &mut inventory.bag_slots[index];
            let previous = target.take();
            *target = Some(item);
            Ok(previous)
        },
        InventorySlotRef::Equipment { unit_type, slot_index } => {
            let s = match find_setup(&inventory.setups, unit_type) {
                Some(s) => s,
                None => return Err(InventoryPlaceError::InvalidSlot),
            };
            if slot_index >= inventory.setups[s].slots.len() {
                return Err(InventoryPlaceError::InvalidSlot);
            }
            if !slot_accepts_item(&inventory.setups[s].slots[slot_index], &item) {
                return Err(InventoryPlaceError::ItemTypeMismatch);
            }
            let target = &mut inventory.setups[s].slots[slot_index].item;
            let previous = target.take();
            *target = Some(item);
            Ok(previous)
        },
        InventorySlotRef::Chest(index) => {
            if index >= chest.slots.len() {
                return Err(InventoryPlaceError::InvalidSlot);
            }
            let target = &mut chest.slots[index];
            let previous = target.take();
            *target = Some(item);
            Ok(previous)
        },
    }
}

/// The slots of a setup: commander gear for the commander, weapons,
/// armour, banner and squire for every other group.  Each entry is the
/// slot's id, its display name and the one item type it accepts.
pub open spec fn default_slot_frames(unit_type: EquipmentUnitType) -> Seq<(Seq<char>, Seq<char>, GearItemType)> {
    if unit_type == EquipmentUnitType::Commander {
        seq![
            ("banner"@, "Banner"@, GearItemType::Banner),
            ("instrument"@, "Instrument"@, GearItemType::Instrument),
            ("chant"@, "Chant"@, GearItemType::Chant),
            ("squire"@, "Squire"@, GearItemType::Squire),
            ("symbol"@, "Symbol"@, GearItemType::Symbol),
        ]
    } else {
        seq![
            ("melee_weapon"@, "Melee"@, GearItemType::MeleeWeapon),
            ("ranged_weapon"@, "Ranged"@, GearItemType::RangedWeapon),
            ("armor"@, "Armor"@, GearItemType::Armor),
            ("banner"@, "Banner"@, GearItemType::Banner),
            ("squire"@, "Squire"@, GearItemType::Squire),
        ]
    }
}

/// The slots of `slots` are empty and described by `frames`.
pub open spec fn slots_match_frames(slots: Seq<EquippedSlot>, frames: Seq<(Seq<char>, Seq<char>, GearItemType)>) -> bool {
    &&& slots.len() == frames.len()
    &&& forall|k: int|
        0 <= k < slots.len() ==> {
            &&& (#[trigger] slots[k]).slot_id@ == frames[k].0
            &&& slots[k].display_name@ == frames[k].1
            &&& slots[k].accepted_item_types@ == seq![frames[k].2]
            &&& slots[k].item is None
        }
}

fn make_slot(slot_id: &str, display_name: &str, accepted: &[GearItemType]) -> (r: EquippedSlot)
    ensures
        r.slot_id@ == slot_id@,
        r.display_name@ == display_name@,
        r.accepted_item_types@ == accepted@,
        r.item is None,
{
    let mut types: Vec<GearItemType> = Vec::new();
    let mut i: usize = 0;
    while i < accepted.len()
        invariant
            i <= accepted@.len(),
            types@ == accepted@.subrange(0, i as int),
        decreases accepted@.len() - i,
    {
        types.push(accepted[i]);
        i = i + 1;
    }
    proof {
        assert(types@ =~= accepted@);
    }
    EquippedSlot {
        slot_id: slot_id.to_owned(),
        display_name: display_name.to_owned(),
        accepted_item_types: types,
        item: None,
    }
}

fn default_equipment_slots(unit_type: EquipmentUnitType) -> (r: Vec<EquippedSlot>)
    ensures
        slots_match_frames(r@, default_slot_frames(unit_type)),
{
    let mut slots: Vec<EquippedSlot> = Vec::new();
    match unit_type {
        EquipmentUnitType::Commander => {
            slots.push(make_slot("banner", "Banner", &[GearItemType::Banner]));
            slots.push(make_slot("instrument", "Instrument", &[GearItemType::Instrument]));
            slots.push(make_slot("chant", "Chant", &[GearItemType::Chant]));
            slots.push(make_slot("squire", "Squire", &[GearItemType::Squire]));
            slots.push(make_slot("symbol", "Symbol", &[GearItemType::Symbol]));
        },
        _ => {
            slots.push(make_slot("melee_weapon", "Melee", &[GearItemType::MeleeWeapon]));
            slots.push(make_slot("ranged_weapon", "Ranged", &[GearItemType::RangedWeapon]));
            slots.push(make_slot("armor", "Armor", &[GearItemType::Armor]));
            slots.push(make_slot("banner", "Banner", &[GearItemType::Banner]));
            slots.push(make_slot("squire", "Squire", &[GearItemType::Squire]));
        },
    }
    proof {
        let frames = default_slot_frames(unit_type);
        assert forall|k: int| 0 <= k < slots@.len() implies {
            &&& (#[trigger] slots@[k]).slot_id@ == frames[k].0
            &&& slots@[k].display_name@ == frames[k].1
            &&& slots@[k].accepted_item_types@ == seq![frames[k].2]
            &&& slots@[k].item is None
        } by {
            assert(seq![frames[k].2] =~= seq![frames[k].2]);
        }
    }
    slots
}

impl Default for InventoryState {
    fn default() -> (r: Self)
        ensures
            r.bag_slots@.len() == BACKPACK_SLOT_CAPACITY,
            forall|i: int| 0 <= i < BACKPACK_SLOT_CAPACITY ==> #[trigger] r.bag_slots@[i] is None,
            r.setups@.len() == 8,
            forall|i: int|
                0 <= i < 8 ==> (#[trigger] r.setups@[i]).unit_type == EquipmentUnitType::spec_all()[i]
                    && slots_match_frames(r.setups@[i].slots@, default_slot_frames(r.setups@[i].unit_type)),
    {
        let all = EquipmentUnitType::all();
        let mut setups: Vec<UnitEquipmentSetup> = Vec::new();
        let mut i: usize = 0;
        while i < 8
            invariant
                i <= 8,
                all@ == EquipmentUnitType::spec_all(),
                setups@.len() == i,
                forall|j: int|
                    0 <= j < i ==> (#[trigger] setups@[j]).unit_type == EquipmentUnitType::spec_all()[j]
                        && slots_match_frames(setups@[j].slots@, default_slot_frames(setups@[j].unit_type)),
            decreases 8 - i,
        {
            let unit_type = all[i];
            setups.push(UnitEquipmentSetup { unit_type, slots: default_equipment_slots(unit_type) });
            i = i + 1;
        }
        InventoryState { bag_slots: empty_slots(BACKPACK_SLOT_CAPACITY), setups }
    }
}

/// The combat role that decides how role-dependent gear stats apply.
#[derive(Clone, Copy, Debug, PartialEq, Eq, Structural)]
pub enum UnitCombatRole {
    Commander,
    Melee,
    Ranged,
    Support,
}

/// The equipment group of a unit: the commander's own setup, the tier
/// setups (tier 6 for heroes) for the peasant recruits, and none for any
/// other unit.
pub open spec fn spec_equipment_unit_type_for_unit(kind: UnitKind, tier: Option<u8>) -> Option<EquipmentUnitType> {
    if kind == UnitKind::Commander {
        Some(EquipmentUnitType::Commander)
    } else if kind.spec_is_friendly_recruit() && kind.spec_line().spec_recruit_archetype() is Some {
        EquipmentUnitType::spec_from_tier(
            match tier {
                Some(t) => t,
                None => 0,
            },
        )
    } else {
        None
    }
}

pub fn equipment_unit_type_for_unit(kind: UnitKind, tier: Option<u8>) -> (r: Option<EquipmentUnitType>)
    ensures
        r == spec_equipment_unit_type_for_unit(kind, tier),
{
    match kind {
        UnitKind::Commander => Some(EquipmentUnitType::Commander),
        UnitKind::ChristianPeasantInfantry
        | UnitKind::ChristianPeasantArcher
        | UnitKind::ChristianPeasantPriest
        | UnitKind::MuslimPeasantInfantry
        | UnitKind::MuslimPeasantArcher
        | UnitKind::MuslimPeasantPriest => EquipmentUnitType::from_tier(
            match tier {
                Some(t) => t,
                None => 0,
            },
        ),
        _ => None,
    }
}

/// The gear role of a unit: the commander's own role, ranged for recruited
/// peasant archers, support for recruited peasant priests, melee for
/// everyone else.
pub open spec fn spec_role_for_unit(kind: UnitKind) -> UnitCombatRole {
    if kind == UnitKind::Commander {
        UnitCombatRole::Commander
    } else if kind.spec_is_friendly_recruit() && kind.spec_line() == UnitLine::PeasantArcher {
        UnitCombatRole::Ranged
    } else if kind.spec_is_friendly_recruit() && kind.spec_line() == UnitLine::PeasantPriest {
        UnitCombatRole::Support
    } else {
        UnitCombatRole::Melee
    }
}

pub fn role_for_unit(kind: UnitKind) -> (r: UnitCombatRole)
    ensures
        r == spec_role_for_unit(kind),
{
    match kind {
        UnitKind::Commander => UnitCombatRole::Commander,
        UnitKind::ChristianPeasantInfantry | UnitKind::MuslimPeasantInfantry => UnitCombatRole::Melee,
        UnitKind::ChristianPeasantArcher | UnitKind::MuslimPeasantArcher => UnitCombatRole::Ranged,
        UnitKind::ChristianPeasantPriest | UnitKind::MuslimPeasantPriest => UnitCombatRole::Support,
        _ => UnitCombatRole::Melee,
    }
}

/// An equipped item counts toward its group's bonuses, except a banner
/// while the army's banner is down.
pub fn item_counts_toward_bonuses(item_type: GearItemType, banner_item_active: bool) -> (r: bool)
    ensures
        r == (banner_item_active || item_type != GearItemType::Banner),
{
    banner_item_active || item_type != GearItemType::Banner
}

/// Where a unit's gear bonuses come from: the equipment group it draws
/// from, the role its stats apply by, whether the commander's gear adds to
/// them, and whether the whole army's move-speed gear sets its speed.
#[derive(Clone, Copy, Debug, PartialEq, Eq, Structural)]
pub struct GearBonusSources {
    pub unit_type: EquipmentUnitType,
    pub role: UnitCombatRole,
    pub adds_commander_gear: bool,
    pub uses_armywide_move_speed: bool,
}

/// The gear sources of a unit of `kind` and `tier`: none for a unit
/// without an equipment group; otherwise its group and role, with the
/// commander's gear added for the recruits (not for the commander, whose
/// group it is) and the army-wide move speed for the commander and the
/// recruits.
pub open spec fn spec_gear_bonus_sources(kind: UnitKind, tier: Option<u8>) -> Option<GearBonusSources> {
    match spec_equipment_unit_type_for_unit(kind, tier) {
        None => None,
        Some(unit_type) => {
            let army_unit = kind == UnitKind::Commander || kind.spec_is_friendly_recruit();
            Some(
                GearBonusSources {
                    unit_type,
                    role: spec_role_for_unit(kind),
                    adds_commander_gear: army_unit && unit_type != EquipmentUnitType::Commander,
                    uses_armywide_move_speed: army_unit,
                },
            )
        },
    }
}

pub fn gear_bonus_sources(kind: UnitKind, tier: Option<u8>) -> (r: Option<GearBonusSources>)
    ensures
        r == spec_gear_bonus_sources(kind, tier),
{
    let unit_type = match equipment_unit_type_for_unit(kind, tier) {
        Some(unit_type) => unit_type,
        None => return None,
    };
    let army_unit = kind == UnitKind::Commander || kind.is_friendly_recruit();
    Some(
        GearBonusSources {
            unit_type,
            role: role_for_unit(kind),
            adds_commander_gear: army_unit && unit_type != EquipmentUnitType::Commander,
            uses_armywide_move_speed: army_unit,
        },
    )
}

/// The gear role of every unit that draws gear bonuses follows the
/// recruit it is: the commander applies gear as the commander, recruited
/// peasant archers (of either faction) as ranged, recruited peasant priests
/// as support, and peasant infantry as melee.
pub proof fn lemma_gear_role_follows_the_recruit(kind: UnitKind, tier: Option<u8>)
    ensures
        spec_gear_bonus_sources(kind, tier) matches Some(s) ==> {
            &&& (s.role == UnitCombatRole::Commander) == (kind == UnitKind::Commander)
            &&& (s.role == UnitCombatRole::Ranged) == (kind == UnitKind::ChristianPeasantArcher || kind
                == UnitKind::MuslimPeasantArcher)
            &&& (s.role == UnitCombatRole::Support) == (kind == UnitKind::ChristianPeasantPriest || kind
                == UnitKind::MuslimPeasantPriest)
            &&& (s.role == UnitCombatRole::Melee) == (kind == UnitKind::ChristianPeasantInfantry || kind
                == UnitKind::MuslimPeasantInfantry)
        },
        (kind == UnitKind::ChristianPeasantPriest || kind == UnitKind::MuslimPeasantPriest) && (tier is None
            || tier.unwrap() <= 6) ==> (spec_gear_bonus_sources(kind, tier) is Some && spec_gear_bonus_sources(
            kind,
            tier,
        ).unwrap().role == UnitCombatRole::Support),
{
    match kind {
        UnitKind::Commander => {},
        _ => {},
    }
}

/// The last of the first `n` slots whose item has `effect`.
pub open spec fn last_effect_slot(slots: Seq<EquippedSlot>, effect: GearSpecialEffectKind, n: int) -> Option<usize>
    decreases n,
{
    if n <= 0 {
        None
    } else if slots[n - 1].item matches Some(item) && item.special_effect == Some(effect) {
        Some((n - 1) as usize)
    } else {
        last_effect_slot(slots, effect, n - 1)
    }
}

/// The special effects a setup's items bring: the slot of the drum whose
/// armor pulse counts (the last one), and whether a battle chant is worn.
#[derive(Clone, Copy, Debug, PartialEq, Eq, Structural)]
pub struct SpecialEffectSlots {
    pub drum_slot: Option<usize>,
    pub has_chant: bool,
}

/// Finds the special effects of a setup's items (see `last_effect_slot`).
pub fn special_effect_slots(setup: &UnitEquipmentSetup) -> (r: SpecialEffectSlots)
    ensures
        r.drum_slot == last_effect_slot(
            setup.slots@,
            GearSpecialEffectKind::DrumArmorPulse,
            setup.slots@.len() as int,
        ),
        r.has_chant == last_effect_slot(
            setup.slots@,
            GearSpecialEffectKind::BattleChantMoraleImmunity,
            setup.slots@.len() as int,
        ) is Some,
{
    let mut drum_slot: Option<usize> = None;
    let mut has_chant = false;
    let mut i: usize = 0;
    while i < setup.slots.len()
        invariant
            i <= setup.slots@.len(),
            drum_slot == last_effect_slot(setup.slots@, GearSpecialEffectKind::DrumArmorPulse, i as int),
            has_chant == last_effect_slot(setup.slots@, GearSpecialEffectKind::BattleChantMoraleImmunity, i as int)
                is Some,
        decreases setup.slots@.len() - i,
    {
        if let Some(item) = &setup.slots[i].item {
            match item.special_effect {
                Some(GearSpecialEffectKind::DrumArmorPulse) => {
                    drum_slot = Some(i);
                },
                Some(GearSpecialEffectKind::BattleChantMoraleImmunity) => {
                    has_chant = true;
                },
                None => {},
            }
        }
        i = i + 1;
    }
    SpecialEffectSlots { drum_slot, has_chant }
}

/// The first line of `stats` from position `i` on that raises `kind`.
pub open spec fn first_stat_line_from(stats: Seq<GearRolledStat>, kind: GearStatKind, i: int) -> Option<usize>
    decreases stats.len() - i,
{
    if i < 0 || i >= stats.len() {
        None
    } else if stats[i].kind == kind {
        Some(i as usize)
    } else {
        first_stat_line_from(stats, kind, i + 1)
    }
}

/// The first line of an item that raises `kind`.
pub fn first_stat_line(item: &GearItemEntry, kind: GearStatKind) -> (r: Option<usize>)
    ensures
        r == first_stat_line_from(item.stats@, kind, 0),
{
    let mut i: usize = 0;
    while i < item.stats.len()
        invariant
            i <= item.stats@.len(),
            first_stat_line_from(item.stats@, kind, 0) == first_stat_line_from(item.stats@, kind, i as int),
        decreases item.stats@.len() - i,
    {
        if item.stats[i].kind == kind {
            return Some(i);
        }
        i = i + 1;
    }
    None
}

/// The highest rarity points among `stats`, 0 when there are none.
pub open spec fn max_rarity_points(stats: Seq<GearRolledStat>) -> u8
    decreases stats.len(),
{
    if stats.len() == 0 {
        0
    } else {
        let rest = max_rarity_points(stats.drop_last());
        let p = stats.last().rarity.spec_points();
        if p >= rest {
            p
        } else {
            rest
        }
    }
}

/// The rarity an item is shown with: its rarest stat, common when it has
/// no stats.
pub open spec fn spec_item_display_rarity(item: GearItemEntry) -> GearRarity {
    if item.stats@.len() == 0 {
        GearRarity::Common
    } else {
        GearRarity::spec_from_points(max_rarity_points(item.stats@))
    }
}

pub fn item_rarity_tier_for_display(item: &GearItemEntry) -> (r: GearRarity)
    ensures
        r == spec_item_display_rarity(*item),
{
    let mut best: u8 = 0;
    let mut i: usize = 0;
    while i < item.stats.len()
        invariant
            i <= item.stats@.len(),
            best == max_rarity_points(item.stats@.subrange(0, i as int)),
        decreases item.stats@.len() - i,
    {
        proof {
            assert(item.stats@.subrange(0, i + 1).drop_last() =~= item.stats@.subrange(0, i as int));
        }
        let p = item.stats[i].rarity.points();
        if p >= best {
            best = p;
        }
        i = i + 1;
    }
    proof {
        assert(item.stats@.subrange(0, item.stats@.len() as int) =~= item.stats@);
    }
    if item.stats.len() == 0 {
        GearRarity::Common
    } else {
        GearRarity::from_points(best)
    }
}

pub fn gear_item_type_label(item_type: GearItemType) -> (r: &'static str)
    ensures
        r@ == (match item_type {
            GearItemType::Banner => "Banner"@,
            GearItemType::Instrument => "Instrument"@,
            GearItemType::Chant => "Chant"@,
            GearItemType::Squire => "Squire"@,
            GearItemType::Symbol => "Symbol"@,
            GearItemType::MeleeWeapon => "Melee Weapon"@,
            GearItemType::RangedWeapon => "Ranged Weapon"@,
            GearItemType::Armor => "Armor"@,
        }),
{
    match item_type {
        GearItemType::Banner => "Banner",
        GearItemType::Instrument => "Instrument",
        GearItemType::Chant => "Chant",
        GearItemType::Squire => "Squire",
        GearItemType::Symbol => "Symbol",
        GearItemType::MeleeWeapon => "Melee Weapon",
        GearItemType::RangedWeapon => "Ranged Weapon",
        GearItemType::Armor => "Armor",
    }
}

/// After an item is placed into a slot, reading that slot gives the item
/// back, and every other slot reads as before.
pub proof fn lemma_read_after_place(
    old_inventory: InventoryState,
    old_chest: EquipmentChestState,
    new_inventory: InventoryState,
    new_chest: EquipmentChestState,
    slot: InventorySlotRef,
    other: InventorySlotRef,
    item: GearItemEntry,
)
    requires
        slot_exists(old_inventory, old_chest, slot),
        replaced_in_slot(old_inventory, old_chest, new_inventory, new_chest, slot, Some(item)),
    ensures
        item_at(new_inventory, new_chest, slot) == Some(item),
        other != slot ==> item_at(new_inventory, new_chest, other) == item_at(old_inventory, old_chest, other),
        slot_exists(new_inventory, new_chest, other) == slot_exists(old_inventory, old_chest, other),
{
    lemma_replaced_keeps_setup_index(old_inventory, old_chest, new_inventory, new_chest, slot, Some(item));
    if let InventorySlotRef::Equipment { unit_type, slot_index } = other {
        lemma_replaced_keeps_setup_index_of(old_inventory, old_chest, new_inventory, new_chest, slot, Some(item), unit_type);
    }
}

/// Taking an item out of a slot and putting it straight back restores the
/// inventory and the chest slot for slot.
pub proof fn lemma_take_then_place_restores(
    start_inventory: InventoryState,
    start_chest: EquipmentChestState,
    mid_inventory: InventoryState,
    mid_chest: EquipmentChestState,
    end_inventory: InventoryState,
    end_chest: EquipmentChestState,
    slot: InventorySlotRef,
    item: GearItemEntry,
)
    requires
        item_at(start_inventory, start_chest, slot) == Some(item),
        replaced_in_slot(start_inventory, start_chest, mid_inventory, mid_chest, slot, None),
        replaced_in_slot(mid_inventory, mid_chest, end_inventory, end_chest, slot, Some(item)),
    ensures
        end_inventory.bag_slots@ == start_inventory.bag_slots@,
        end_chest.slots@ == start_chest.slots@,
        end_inventory.setups@.len() == start_inventory.setups@.len(),
        forall|other: InventorySlotRef| #[trigger] item_at(end_inventory, end_chest, other) == item_at(start_inventory, start_chest, other),
{
    lemma_replaced_keeps_setup_index(start_inventory, start_chest, mid_inventory, mid_chest, slot, None);
    assert forall|other: InventorySlotRef| #[trigger] item_at(end_inventory, end_chest, other) == item_at(start_inventory, start_chest, other) by {
        lemma_read_after_place(mid_inventory, mid_chest, end_inventory, end_chest, slot, other, item);
        if other != slot {
            lemma_take_reads(start_inventory, start_chest, mid_inventory, mid_chest, slot, other);
        }
    }
    match slot {
        InventorySlotRef::Backpack(index) => {
            assert(end_inventory.bag_slots@ =~= start_inventory.bag_slots@);
        },
        InventorySlotRef::Chest(index) => {
            assert(end_chest.slots@ =~= start_chest.slots@);
        },
        _ => {},
    }
}

/// Emptying a slot leaves every other slot reading as before.
proof fn lemma_take_reads(
    old_inventory: InventoryState,
    old_chest: EquipmentChestState,
    new_inventory: InventoryState,
    new_chest: EquipmentChestState,
    slot: InventorySlotRef,
    other: InventorySlotRef,
)
    requires
        slot_exists(old_inventory, old_chest, slot),
        replaced_in_slot(old_inventory, old_chest, new_inventory, new_chest, slot, None),
        other != slot,
    ensures
        item_at(new_inventory, new_chest, other) == item_at(old_inventory, old_chest, other),
{
    lemma_replaced_keeps_setup_index(old_inventory, old_chest, new_inventory, new_chest, slot, None);
    if let InventorySlotRef::Equipment { unit_type, slot_index } = other {
        lemma_replaced_keeps_setup_index_of(old_inventory, old_chest, new_inventory, new_chest, slot, None, unit_type);
    }
}

/// Replacing the item of a slot keeps where every setup is found.
proof fn lemma_replaced_keeps_setup_index(
    old_inventory: InventoryState,
    old_chest: EquipmentChestState,
    new_inventory: InventoryState,
    new_chest: EquipmentChestState,
    slot: InventorySlotRef,
    item: Option<GearItemEntry>,
)
    requires
        slot_exists(old_inventory, old_chest, slot),
        replaced_in_slot(old_inventory, old_chest, new_inventory, new_chest, slot, item),
    ensures
        slot_exists(new_inventory, new_chest, slot),
{
    if let InventorySlotRef::Equipment { unit_type, slot_index } = slot {
        lemma_replaced_keeps_setup_index_of(old_inventory, old_chest, new_inventory, new_chest, slot, item, unit_type);
    }
}

proof fn lemma_replaced_keeps_setup_index_of(
    old_inventory: InventoryState,
    old_chest: EquipmentChestState,
    new_inventory: InventoryState,
    new_chest: EquipmentChestState,
    slot: InventorySlotRef,
    item: Option<GearItemEntry>,
    unit_type: EquipmentUnitType,
)
    requires
        slot_exists(old_inventory, old_chest, slot),
        replaced_in_slot(old_inventory, old_chest, new_inventory, new_chest, slot, item),
    ensures
        setup_index(new_inventory.setups@, unit_type) == setup_index(old_inventory.setups@, unit_type),
{
    let o = old_inventory.setups@;
    let n = new_inventory.setups@;
    assert forall|i: int| 0 <= i < o.len() implies #[trigger] n[i].unit_type == o[i].unit_type by {
        if let InventorySlotRef::Equipment { unit_type: t, slot_index } = slot {
            let s = setup_index(o, t).unwrap();
            if i != s {
                assert(n[i] == o[i]);
            }
        } else {
            assert(n =~= o);
        }
    }
    assert(n.len() == o.len());
    assert forall|i: int| is_first_setup(n, unit_type, i) <==> is_first_setup(o, unit_type, i) by {
        if 0 <= i < o.len() {
            assert(n[i].unit_type == o[i].unit_type);
            if is_first_setup(o, unit_type, i) {
                assert forall|j: int| 0 <= j < i implies #[trigger] n[j].unit_type != unit_type by {
                    assert(n[j].unit_type == o[j].unit_type);
                }
            }
            if is_first_setup(n, unit_type, i) {
                assert forall|j: int| 0 <= j < i implies #[trigger] o[j].unit_type != unit_type by {
                    assert(n[j].unit_type == o[j].unit_type);
                }
            }
        }
    }
}

/// The digits of `n` in base ten, most significant first.
pub open spec fn decimal_digits(n: nat) -> Seq<char>
    decreases n,
{
    if n < 10 {
        seq![((n + 48) as u32) as char]
    } else {
        decimal_digits(n / 10).push((((n % 10) + 48) as u32) as char)
    }
}

/// `n` in base ten, left-padded with zeros to at least `width` digits.
pub open spec fn zero_padded_decimal(n: nat, width: nat) -> Seq<char> {
    let digits = decimal_digits(n);
    if digits.len() >= width {
        digits
    } else {
        Seq::new((width - digits.len()) as nat, |i: int| '0') + digits
    }
}

/// The instance id of the `serial`-th item rolled from `template_id`.
pub open spec fn instance_id_text(template_id: Seq<char>, serial: u64) -> Seq<char> {
    template_id + "_"@ + zero_padded_decimal(serial as nat, 8)
}

/// `format!("{template_id}_{serial:08}")`: the template id, an underscore
/// and the serial in decimal, zero-padded to eight digits.  The contract
/// restates what std's formatting documentation gives for the `08` width
/// and fill.
#[verifier::external_body]
fn format_instance_id(template_id: &str, serial: u64) -> (r: String)
    ensures
        r@ == instance_id_text(template_id@, serial),
{
    format!("{template_id}_{serial:08}")
}

/// The random-number state of the loot rolls, and the serial of the next
/// item instance.
#[derive(Clone, Copy, Debug)]
pub struct InventoryRngState {
    state: u64,
    next_item_serial: u64,
}

/// The seed used when no other is given, and the replacement for a zero
/// state.
pub const INVENTORY_RNG_DEFAULT_STATE: u64 = 0xBADC_0FFE_FEED_F00D;

/// One step of the linear congruential generator (the multiplier and
/// increment of Knuth's MMIX), modulo 2^64.
pub open spec fn lcg_step(state: u64) -> u64 {
    vstd::wrapping::u64_specs::wrapping_add(
        vstd::wrapping::u64_specs::wrapping_mul(state, 6_364_136_223_846_793_005u64),
        1_442_695_040_888_963_407u64,
    )
}

impl Default for InventoryRngState {
    fn default() -> (r: Self)
        ensures
            r.spec_state() == INVENTORY_RNG_DEFAULT_STATE,
            r.spec_next_item_serial() == 1,
    {
        InventoryRngState { state: INVENTORY_RNG_DEFAULT_STATE, next_item_serial: 1 }
    }
}

impl InventoryRngState {
    pub closed spec fn spec_state(self) -> u64 {
        self.state
    }

    pub closed spec fn spec_next_item_serial(self) -> u64 {
        self.next_item_serial
    }

    /// A generator at `state` that will number its next item `next_item_serial`.
    pub fn new(state: u64, next_item_serial: u64) -> (r: Self)
        ensures
            r.spec_state() == state,
            r.spec_next_item_serial() == next_item_serial,
    {
        InventoryRngState { state, next_item_serial }
    }

    /// Reseeds from a clock reading in nanoseconds: the reading is mixed
    /// with the golden-ratio constant, and a zero result falls back to the
    /// default state.  The serial is kept.
    pub fn reseed_from_nanos(&mut self, nanos: u64)
        ensures
            final(self).spec_state() == (if nanos ^ 0x9E37_79B9_7F4A_7C15u64 == 0 {
                INVENTORY_RNG_DEFAULT_STATE
            } else {
                nanos ^ 0x9E37_79B9_7F4A_7C15u64
            }),
            final(self).spec_next_item_serial() == old(self).spec_next_item_serial(),
    {
        self.state = nanos ^ 0x9E37_79B9_7F4A_7C15u64;
        if self.state == 0 {
            self.state = INVENTORY_RNG_DEFAULT_STATE;
        }
    }

    fn next_u32(&mut self) -> (r: u32)
        ensures
            final(self).spec_state() == lcg_step(old(self).spec_state()),
            final(self).spec_next_item_serial() == old(self).spec_next_item_serial(),
            r == (final(self).spec_state() >> 32u64) as u32,
    {
        self.state = self.state.wrapping_mul(6_364_136_223_846_793_005).wrapping_add(1_442_695_040_888_963_407);
        (self.state >> 32) as u32
    }

    /// Advances the generator one step and returns the high 32 bits of the
    /// new state.
    pub fn next_u32_roll(&mut self) -> (r: u32)
        ensures
            final(self).spec_state() == lcg_step(old(self).spec_state()),
            final(self).spec_next_item_serial() == old(self).spec_next_item_serial(),
            r == (final(self).spec_state() >> 32u64) as u32,
    {
        self.next_u32()
    }

    /// The next instance id for an item of `template_id`; the serial then
    /// moves on by one, staying at its maximum once there.
    pub fn next_item_instance_id(&mut self, template_id: &str) -> (r: String)
        ensures
            r@ == instance_id_text(template_id@, old(self).spec_next_item_serial()),
            final(self).spec_state() == old(self).spec_state(),
            final(self).spec_next_item_serial() == (if old(self).spec_next_item_serial() == u64::MAX {
                u64::MAX
            } else {
                (old(self).spec_next_item_serial() + 1) as u64
            }),
    {
        let value = self.next_item_serial;
        self.next_item_serial = self.next_item_serial.saturating_add(1);
        format_instance_id(template_id, value)
    }
}

/// The blueprint an item is rolled from.
#[derive(Clone, Copy, Debug)]
pub struct GearTemplate {
    pub id: &'static str,
    pub name: &'static str,
    pub description: &'static str,
    pub icon_key: &'static str,
    pub item_type: GearItemType,
    pub stats: [GearStatKind; 2],
    pub special_effect: Option<GearSpecialEffectKind>,
    pub faction: Option<PlayerFaction>,
}

/// The id and faction of every template, in catalogue order.
pub open spec fn gear_template_catalogue() -> Seq<(Seq<char>, Option<PlayerFaction>)> {
    seq![
        ("banner_sturdy_pole"@, None),
        ("instrument_drum"@, None),
        ("chant_battle_song"@, None),
        ("squire_young"@, None),
        ("symbol_cross"@, Some(PlayerFaction::Christian)),
        ("symbol_crescent"@, Some(PlayerFaction::Muslim)),
        ("sword_simple"@, None),
        ("bow_simple"@, None),
        ("armor_simple"@, None)
    ]
}

/// A template can drop for `faction`: it belongs to no faction or to it.
pub open spec fn template_for_faction(faction: PlayerFaction) -> spec_fn((Seq<char>, Option<PlayerFaction>)) -> bool {
    |entry: (Seq<char>, Option<PlayerFaction>)| entry.1 is None || entry.1 == Some(faction)
}

/// The id and faction of a template.
pub open spec fn template_key(template: GearTemplate) -> (Seq<char>, Option<PlayerFaction>) {
    (template.id@, template.faction)
}

/// Every item template, in catalogue order.
pub fn gear_templates() -> (r: Vec<GearTemplate>)
    ensures
        r@.map_values(|t: GearTemplate| template_key(t)) == gear_template_catalogue(),
{
    let r = vec![
        GearTemplate {
            id: "banner_sturdy_pole",
            name: "Banner on Sturdy Pole",
            description: "Army banner balancing sustain versus loss resistance.",
            icon_key: "item_banner",
            item_type: GearItemType::Banner,
            stats: [GearStatKind::MoraleRegenPerSec, GearStatKind::CohesionLossResistancePercent],
            special_effect: None,
            faction: None,
        },
        GearTemplate {
            id: "instrument_drum",
            name: "War Drum",
            description: "Triggers a periodic armor pulse for the army.",
            icon_key: "item_instrument",
            item_type: GearItemType::Instrument,
            stats: [GearStatKind::ArmorPulseFlat, GearStatKind::CommanderMaxHealthFlat],
            special_effect: Some(GearSpecialEffectKind::DrumArmorPulse),
            faction: None,
        },
        GearTemplate {
            id: "chant_battle_song",
            name: "Battle Song",
            description: "Periodically grants temporary morale-loss immunity.",
            icon_key: "item_chant",
            item_type: GearItemType::Chant,
            stats: [GearStatKind::CooldownReductionSecs, GearStatKind::CommanderMaxHealthFlat],
            special_effect: Some(GearSpecialEffectKind::BattleChantMoraleImmunity),
            faction: None,
        },
        GearTemplate {
            id: "squire_young",
            name: "Young Squire",
            description: "Role-based support stats for the assigned setup.",
            icon_key: "item_squire",
            item_type: GearItemType::Squire,
            stats: [GearStatKind::SquirePrimary, GearStatKind::SquireSecondary],
            special_effect: None,
            faction: None,
        },
        GearTemplate {
            id: "symbol_cross",
            name: "Holy Cross",
            description: "Empowers aura effects against enemies and extends aura reach.",
            icon_key: "item_symbol_cross",
            item_type: GearItemType::Symbol,
            stats: [GearStatKind::AuraEnemyEffectPercent, GearStatKind::AuraRangeFlat],
            special_effect: None,
            faction: Some(PlayerFaction::Christian),
        },
        GearTemplate {
            id: "symbol_crescent",
            name: "Crescent Emblem",
            description: "Empowers aura effects against enemies and extends aura reach.",
            icon_key: "item_symbol_crescent",
            item_type: GearItemType::Symbol,
            stats: [GearStatKind::AuraEnemyEffectPercent, GearStatKind::AuraRangeFlat],
            special_effect: None,
            faction: Some(PlayerFaction::Muslim),
        },
        GearTemplate {
            id: "sword_simple",
            name: "Simple Sword",
            description: "Tradeoff roll between damage and attack speed.",
            icon_key: "item_sword",
            item_type: GearItemType::MeleeWeapon,
            stats: [GearStatKind::DamagePercent, GearStatKind::AttackSpeedPercent],
            special_effect: None,
            faction: None,
        },
        GearTemplate {
            id: "bow_simple",
            name: "Simple Bow",
            description: "Tradeoff roll between ranged damage and range.",
            icon_key: "item_bow",
            item_type: GearItemType::RangedWeapon,
            stats: [GearStatKind::DamagePercent, GearStatKind::RangedRangeFlat],
            special_effect: None,
            faction: None,
        },
        GearTemplate {
            id: "armor_simple",
            name: "Simple Chestpiece",
            description: "Tradeoff roll between armor and movement speed.",
            icon_key: "item_armor",
            item_type: GearItemType::Armor,
            stats: [GearStatKind::ArmorFlat, GearStatKind::MoveSpeedFlat],
            special_effect: None,
            faction: None,
        }
    ];
    proof {
        assert(r@.map_values(|t: GearTemplate| template_key(t)) =~= gear_template_catalogue());
    }
    r
}

proof fn lemma_key_filter_push(
    s: Seq<GearTemplate>,
    x: GearTemplate,
    pred: spec_fn((Seq<char>, Option<PlayerFaction>)) -> bool,
)
    ensures
        s.push(x).map_values(|t: GearTemplate| template_key(t)).filter(pred) == (if pred(template_key(x)) {
            s.map_values(|t: GearTemplate| template_key(t)).filter(pred).push(template_key(x))
        } else {
            s.map_values(|t: GearTemplate| template_key(t)).filter(pred)
        }),
{
    reveal(Seq::filter);
    let keys = s.push(x).map_values(|t: GearTemplate| template_key(t));
    assert(keys.drop_last() =~= s.map_values(|t: GearTemplate| template_key(t)));
    assert(keys.last() == template_key(x));
}

/// The templates that can drop for `faction`, in catalogue order.
pub fn gear_templates_for_faction(faction: PlayerFaction) -> (r: Vec<GearTemplate>)
    ensures
        r@.map_values(|t: GearTemplate| template_key(t)) == gear_template_catalogue().filter(
            template_for_faction(faction),
        ),
{
    let all = gear_templates();
    let ghost pred = template_for_faction(faction);
    let mut kept: Vec<GearTemplate> = Vec::new();
    let mut i: usize = 0;
    while i < all.len()
        invariant
            i <= all@.len(),
            all@.map_values(|t: GearTemplate| template_key(t)) == gear_template_catalogue(),
            pred == template_for_faction(faction),
            kept@.map_values(|t: GearTemplate| template_key(t)) == all@.take(i as int).map_values(
                |t: GearTemplate| template_key(t),
            ).filter(pred),
        decreases all@.len() - i,
    {
        let template = all[i];
        proof {
            assert(all@.take(i + 1) =~= all@.take(i as int).push(all@[i as int]));
            lemma_key_filter_push(all@.take(i as int), all@[i as int], pred);
        }
        let keep = match template.faction {
            None => true,
            Some(f) => f == faction,
        };
        if keep {
            let ghost before = kept@;
            kept.push(template);
            proof {
                assert(kept@.map_values(|t: GearTemplate| template_key(t)) =~= before.map_values(
                    |t: GearTemplate| template_key(t),
                ).push(template_key(template)));
            }
        }
        i = i + 1;
    }
    proof {
        assert(all@.take(all@.len() as int) =~= all@);
    }
    kept
}

/// The rarities the second line of an item may roll: after a unique
/// first line, rare up to unique; otherwise the rarities worth at most
/// what is left of the item's six-point budget (at least one point, at
/// most five), weakest first.
pub open spec fn spec_second_rarity_pool(first: GearRarity) -> Seq<GearRarity> {
    if first == GearRarity::Unique {
        seq![GearRarity::Rare, GearRarity::Epic, GearRarity::Mythical, GearRarity::Unique]
    } else {
        let remaining: int = 6 - first.spec_points();
        let budget: int = if remaining < 1 { 1 } else if remaining > 5 { 5 } else { remaining };
        Seq::new(budget as nat, |k: int| GearRarity::spec_from_points((k + 1) as u8))
    }
}

pub fn second_rarity_pool(first: GearRarity) -> (r: Vec<GearRarity>)
    ensures
        r@ == spec_second_rarity_pool(first),
{
    if first == GearRarity::Unique {
        let r = vec![GearRarity::Rare, GearRarity::Epic, GearRarity::Mythical, GearRarity::Unique];
        proof {
            assert(r@ =~= spec_second_rarity_pool(first));
        }
        return r;
    }
    let first_points = first.points();
    let remaining = ITEM_ROLL_BUDGET - first_points;
    let budget: u8 = if remaining < 1 { 1 } else if remaining > 5 { 5 } else { remaining };
    let mut pool: Vec<GearRarity> = Vec::new();
    let mut points: u8 = 1;
    while points <= budget
        invariant
            1 <= points <= budget + 1,
            budget <= 5,
            budget == (if 6 - first.spec_points() < 1 { 1int } else if 6 - first.spec_points() > 5 { 5int } else { 6 - first.spec_points() }),
            pool@ =~= Seq::new((points - 1) as nat, |k: int| GearRarity::spec_from_points((k + 1) as u8)),
        decreases budget + 1 - points,
    {
        pool.push(GearRarity::from_points(points));
        points = points + 1;
    }
    pool
}

/// An item stays within its rarity budget: after a first line that is not
/// unique, the two lines are worth at most six points together (the
/// second at least one and at most five); after a unique first line the
/// second is at least rare.
pub proof fn lemma_second_rarity_within_budget(first: GearRarity, k: int)
    requires
        0 <= k < spec_second_rarity_pool(first).len(),
    ensures
        first != GearRarity::Unique ==> 1 <= spec_second_rarity_pool(first)[k].spec_points() <= 5
            && (spec_second_rarity_pool(first)[k].spec_points() + first.spec_points() <= 6
            || spec_second_rarity_pool(first)[k].spec_points() == 1),
        first == GearRarity::Unique ==> spec_second_rarity_pool(first)[k].spec_points() >= 3,
{
}

} // verus!
