//! Formations: their identities, the skill bar that holds the unlocked
//! formations, and the lane preferences that decide where each unit kind
//! stands inside a formation.
use vstd::prelude::*;

use crate::model::{UnitKind, UnitRoleTag};
use crate::text::str_eq;

verus! {

/// How many skills the skill bar holds.
pub const SKILL_BAR_CAPACITY: usize = 10;

/// The formations the army can take.
#[derive(Clone, Copy, Debug, PartialEq, Eq, Hash, Structural)]
pub enum ActiveFormation {
    Square,
    Circle,
    Skean,
    Diamond,
    ShieldWall,
    Loose,
}

impl Default for ActiveFormation {
    fn default() -> (r: Self)
        ensures
            r == ActiveFormation::Square,
    {
        ActiveFormation::Square
    }
}

impl ActiveFormation {
    /// The formation's id in config files and upgrade definitions.
    pub open spec fn spec_id(self) -> Seq<char> {
        match self {
            ActiveFormation::Square => "square"@,
            ActiveFormation::Circle => "circle"@,
            ActiveFormation::Skean => "skean"@,
            ActiveFormation::Diamond => "diamond"@,
            ActiveFormation::ShieldWall => "shield_wall"@,
            ActiveFormation::Loose => "loose"@,
        }
    }

    pub fn id(self) -> (r: &'static str)
        ensures
            r@ == self.spec_id(),
    {
        match self {
            ActiveFormation::Square => "square",
            ActiveFormation::Circle => "circle",
            ActiveFormation::Skean => "skean",
            ActiveFormation::Diamond => "diamond",
            ActiveFormation::ShieldWall => "shield_wall",
            ActiveFormation::Loose => "loose",
        }
    }

    /// The name shown on the skill bar.
    pub open spec fn spec_display_name(self) -> Seq<char> {
        match self {
            ActiveFormation::Square => "Square Formation"@,
            ActiveFormation::Circle => "Circle Formation"@,
            ActiveFormation::Skean => "Skean Formation"@,
            ActiveFormation::Diamond => "Diamond Formation"@,
            ActiveFormation::ShieldWall => "Shield Wall Formation"@,
            ActiveFormation::Loose => "Loose Formation"@,
        }
    }

    pub fn display_name(self) -> (r: &'static str)
        ensures
            r@ == self.spec_display_name(),
    {
        match self {
            ActiveFormation::Square => "Square Formation",
            ActiveFormation::Circle => "Circle Formation",
            ActiveFormation::Skean => "Skean Formation",
            ActiveFormation::Diamond => "Diamond Formation",
            ActiveFormation::ShieldWall => "Shield Wall Formation",
            ActiveFormation::Loose => "Loose Formation",
        }
    }

    /// The formation whose id is `id`, if any.
    pub fn from_id(id: &str) -> (r: Option<Self>)
        ensures
            forall|f: ActiveFormation| #![trigger f.spec_id()] r == Some(f) <==> id@ == f.spec_id(),
    {
        let r = if str_eq(id, "square") {
            Some(ActiveFormation::Square)
        } else if str_eq(id, "circle") {
            Some(ActiveFormation::Circle)
        } else if str_eq(id, "skean") {
            Some(ActiveFormation::Skean)
        } else if str_eq(id, "diamond") {
            Some(ActiveFormation::Diamond)
        } else if str_eq(id, "shield_wall") {
            Some(ActiveFormation::ShieldWall)
        } else if str_eq(id, "loose") {
            Some(ActiveFormation::Loose)
        } else {
            None
        };
        proof {
            lemma_formation_ids_distinct();
            assert forall|f: ActiveFormation| #![trigger f.spec_id()] r == Some(f) <==> id@ == f.spec_id() by {
                match r {
                    Some(g) => {
                        assert(id@ == g.spec_id());
                    },
                    None => {
                        assert(id@ != f.spec_id()) by {
                            match f {
                                ActiveFormation::Square => {},
                                ActiveFormation::Circle => {},
                                ActiveFormation::Skean => {},
                                ActiveFormation::Diamond => {},
                                ActiveFormation::ShieldWall => {},
                                ActiveFormation::Loose => {},
                            }
                        }
                    },
                }
            }
        }
        r
    }

    /// Every formation, square first.
    pub fn all() -> (r: [Self; 6])
        ensures
            r@ == seq![
                ActiveFormation::Square,
                ActiveFormation::Circle,
                ActiveFormation::Skean,
                ActiveFormation::Diamond,
                ActiveFormation::ShieldWall,
                ActiveFormation::Loose,
            ],
    {
        [
            ActiveFormation::Square,
            ActiveFormation::Circle,
            ActiveFormation::Skean,
            ActiveFormation::Diamond,
            ActiveFormation::ShieldWall,
            ActiveFormation::Loose,
        ]
    }
}

/// No two formations share an id.
pub proof fn lemma_formation_ids_distinct()
    ensures
        forall|a: ActiveFormation, b: ActiveFormation|
            #![trigger a.spec_id(), b.spec_id()]
            a.spec_id() == b.spec_id() ==> a == b,
{
    reveal_strlit("square");
    reveal_strlit("circle");
    reveal_strlit("skean");
    reveal_strlit("diamond");
    reveal_strlit("shield_wall");
    reveal_strlit("loose");
    assert forall|a: ActiveFormation, b: ActiveFormation|
        #![trigger a.spec_id(), b.spec_id()]
        a.spec_id() == b.spec_id() implies a == b by {
        if a != b {
            assert(a.spec_id().len() != b.spec_id().len() || a.spec_id()[0] != b.spec_id()[0]
                || a.spec_id()[1] != b.spec_id()[1]);
        }
    }
}

/// Reading the id of a formation gives back that formation.
pub proof fn lemma_formation_id_round_trip(f: ActiveFormation, g: ActiveFormation)
    ensures
        f.spec_id() == g.spec_id() <==> f == g,
{
    lemma_formation_ids_distinct();
}

/// What a skill-bar slot triggers.
#[derive(Clone, Copy, Debug, PartialEq, Eq, Structural)]
pub enum SkillBarSkillKind {
    Formation(ActiveFormation),
}

/// One skill on the skill bar.
#[derive(Clone, Debug)]
pub struct SkillBarSkill {
    pub id: String,
    pub label: String,
    pub kind: SkillBarSkillKind,
}

/// The skill of a formation: id `formation_<id>`, labelled with the
/// formation's display name.
pub open spec fn is_formation_skill(skill: SkillBarSkill, formation: ActiveFormation) -> bool {
    &&& skill.id@ == "formation_"@ + formation.spec_id()
    &&& skill.label@ == formation.spec_display_name()
    &&& skill.kind == SkillBarSkillKind::Formation(formation)
}

pub fn skill_for_formation(formation: ActiveFormation) -> (r: SkillBarSkill)
    ensures
        is_formation_skill(r, formation),
{
    let mut id = String::from_str("formation_");
    id.append(formation.id());
    SkillBarSkill {
        id,
        label: String::from_str(formation.display_name()),
        kind: SkillBarSkillKind::Formation(formation),
    }
}

/// The skill bar: the unlocked skills in order, and the active slot.
#[derive(Clone, Debug)]
pub struct FormationSkillBar {
    pub slots: Vec<SkillBarSkill>,
    pub active_slot: Option<usize>,
}

/// The skill bar holds each formation at most once and the active slot,
/// if any, is one of its slots.
pub open spec fn skill_bar_well_formed(bar: FormationSkillBar) -> bool {
    &&& forall|i: int, j: int|
        0 <= i < bar.slots@.len() && 0 <= j < bar.slots@.len() && i != j ==> #[trigger] bar.slots@[i].kind
            != #[trigger] bar.slots@[j].kind
    &&& (bar.active_slot matches Some(a) ==> a < bar.slots@.len())
}

/// The skill bar has a slot for `formation`.
pub open spec fn skill_bar_has(bar: FormationSkillBar, formation: ActiveFormation) -> bool {
    exists|i: int|
        0 <= i < bar.slots@.len() && #[trigger] bar.slots@[i].kind == SkillBarSkillKind::Formation(
            formation,
        )
}

impl Default for FormationSkillBar {
    fn default() -> (r: Self)
        ensures
            r.slots@.len() == 1,
            is_formation_skill(r.slots@[0], ActiveFormation::Square),
            r.active_slot == Some(0usize),
            skill_bar_well_formed(r),
    {
        let mut slots: Vec<SkillBarSkill> = Vec::new();
        slots.push(skill_for_formation(ActiveFormation::Square));
        FormationSkillBar { slots, active_slot: Some(0) }
    }
}

impl FormationSkillBar {
    /// Back to the square formation alone, active.
    pub fn reset_to_default(&mut self)
        ensures
            final(self).slots@.len() == 1,
            is_formation_skill(final(self).slots@[0], ActiveFormation::Square),
            final(self).active_slot == Some(0usize),
            skill_bar_well_formed(*final(self)),
    {
        *self = Self::default();
    }

    pub fn is_full(&self) -> (r: bool)
        ensures
            r == (self.slots@.len() >= SKILL_BAR_CAPACITY),
    {
        self.slots.len() >= SKILL_BAR_CAPACITY
    }

    pub fn has_formation(&self, formation: ActiveFormation) -> (r: bool)
        ensures
            r == skill_bar_has(*self, formation),
    {
        let mut i: usize = 0;
        while i < self.slots.len()
            invariant
                i <= self.slots@.len(),
                forall|j: int|
                    0 <= j < i ==> #[trigger] self.slots@[j].kind != SkillBarSkillKind::Formation(
                        formation,
                    ),
            decreases self.slots@.len() - i,
        {
            if self.slots[i].kind == SkillBarSkillKind::Formation(formation) {
                return true;
            }
            i = i + 1;
        }
        false
    }

    /// Adds the skill of `formation` at the end of the bar, unless the bar
    /// is full or already holds it; returns whether it was added.
    pub fn try_add_formation(&mut self, formation: ActiveFormation) -> (r: bool)
        ensures
            r == (old(self).slots@.len() < SKILL_BAR_CAPACITY && !skill_bar_has(*old(self), formation)),
            !r ==> *final(self) == *old(self),
            r ==> ({
                &&& final(self).slots@.len() == old(self).slots@.len() + 1
                &&& final(self).slots@.subrange(0, old(self).slots@.len() as int) == old(self).slots@
                &&& is_formation_skill(final(self).slots@.last(), formation)
                &&& final(self).active_slot == old(self).active_slot
            }),
            skill_bar_well_formed(*old(self)) ==> skill_bar_well_formed(*final(self)),
            r ==> skill_bar_has(*final(self), formation),
    {
        if self.is_full() || self.has_formation(formation) {
            return false;
        }
        let ghost before = self.slots@;
        self.slots.push(skill_for_formation(formation));
        proof {
            assert(self.slots@.subrange(0, before.len() as int) =~= before);
            let n = before.len() as int;
            assert(self.slots@[n].kind == SkillBarSkillKind::Formation(formation));
        }
        true
    }

    /// Makes slot `slot_index` active and returns its skill; `None`, and no
    /// change, when there is no such slot.
    pub fn activate_slot(&mut self, slot_index: usize) -> (r: Option<SkillBarSkillKind>)
        ensures
            slot_index >= old(self).slots@.len() ==> (r is None && *final(self) == *old(self)),
            slot_index < old(self).slots@.len() ==> ({
                &&& r == Some(old(self).slots@[slot_index as int].kind)
                &&& final(self).slots@ == old(self).slots@
                &&& final(self).active_slot == Some(slot_index)
            }),
            skill_bar_well_formed(*old(self)) ==> skill_bar_well_formed(*final(self)),
    {
        if slot_index >= self.slots.len() {
            return None;
        }
        self.active_slot = Some(slot_index);
        Some(self.slots[slot_index].kind)
    }
}

/// Once a formation has been added to the skill bar, activating the slot
/// it was added in selects that formation.
pub proof fn lemma_added_formation_activates(before: FormationSkillBar, after: FormationSkillBar, formation: ActiveFormation)
    requires
        after.slots@.len() == before.slots@.len() + 1,
        is_formation_skill(after.slots@.last(), formation),
    ensures
        after.slots@[before.slots@.len() as int].kind == SkillBarSkillKind::Formation(formation),
        skill_bar_has(after, formation),
{
    assert(after.slots@[before.slots@.len() as int].kind == SkillBarSkillKind::Formation(formation));
}

/// The formation after pressing the hotkey of slot `slot_index`: the
/// formation of that slot, where there is one and it holds a formation;
/// `current` otherwise.
pub open spec fn spec_formation_after_slot_press(
    bar: FormationSkillBar,
    slot_index: usize,
    current: ActiveFormation,
) -> ActiveFormation {
    if slot_index < bar.slots@.len() {
        match bar.slots@[slot_index as int].kind {
            SkillBarSkillKind::Formation(next) => next,
        }
    } else {
        current
    }
}

/// Presses the skill-bar hotkey of slot `slot_index`: the slot, if there
/// is one, becomes active, and the formation it holds is returned as the
/// new active formation.
pub fn press_skill_slot(skillbar: &mut FormationSkillBar, slot_index: usize, current: ActiveFormation) -> (r:
    ActiveFormation)
    ensures
        r == spec_formation_after_slot_press(*old(skillbar), slot_index, current),
        final(skillbar).slots@ == old(skillbar).slots@,
        final(skillbar).active_slot == (if slot_index < old(skillbar).slots@.len() {
            Some(slot_index)
        } else {
            old(skillbar).active_slot
        }),
        skill_bar_well_formed(*old(skillbar)) ==> skill_bar_well_formed(*final(skillbar)),
{
    match skillbar.activate_slot(slot_index) {
        Some(SkillBarSkillKind::Formation(next)) => next,
        None => current,
    }
}

/// Once a formation has been added to the skill bar, pressing the hotkey
/// of the slot it was added in switches to that formation, whatever was
/// active before.
pub proof fn lemma_added_formation_is_selectable(
    before: FormationSkillBar,
    after: FormationSkillBar,
    formation: ActiveFormation,
    current: ActiveFormation,
    added_slot: usize,
)
    requires
        added_slot == before.slots@.len(),
        after.slots@.len() == before.slots@.len() + 1,
        is_formation_skill(after.slots@.last(), formation),
    ensures
        spec_formation_after_slot_press(after, added_slot, current) == formation,
{
}

/// The three rings of a formation.
#[derive(Clone, Copy, Debug, PartialEq, Eq, Hash, Structural)]
pub enum FormationLane {
    Outer,
    Middle,
    Inner,
}

impl FormationLane {
    pub fn short_label(self) -> (r: &'static str)
        ensures
            r@ == (match self {
                FormationLane::Outer => "O"@,
                FormationLane::Middle => "M"@,
                FormationLane::Inner => "I"@,
            }),
    {
        match self {
            FormationLane::Outer => "O",
            FormationLane::Middle => "M",
            FormationLane::Inner => "I",
        }
    }
}

/// The ring a unit has been placed in.
#[derive(Clone, Copy, Debug, PartialEq, Eq, Structural)]
pub struct AssignedFormationLane(pub FormationLane);

/// How many units stand in each ring.
#[derive(Clone, Copy, Debug, PartialEq, Eq, Structural)]
pub struct FormationLaneSummary {
    pub outer: usize,
    pub middle: usize,
    pub inner: usize,
}

impl Default for FormationLaneSummary {
    fn default() -> (r: Self)
        ensures
            r.outer == 0 && r.middle == 0 && r.inner == 0,
    {
        FormationLaneSummary { outer: 0, middle: 0, inner: 0 }
    }
}

/// How many of `lanes` are `lane`.
pub open spec fn lane_count(lanes: Seq<FormationLane>, lane: FormationLane) -> nat
    decreases lanes.len(),
{
    if lanes.len() == 0 {
        0
    } else {
        lane_count(lanes.drop_last(), lane) + if lanes.last() == lane {
            1nat
        } else {
            0nat
        }
    }
}

/// Every placed unit is in exactly one ring.
pub proof fn lemma_lane_counts_add_up(lanes: Seq<FormationLane>)
    ensures
        lane_count(lanes, FormationLane::Outer) + lane_count(lanes, FormationLane::Middle) + lane_count(
            lanes,
            FormationLane::Inner,
        ) == lanes.len(),
    decreases lanes.len(),
{
    if lanes.len() > 0 {
        lemma_lane_counts_add_up(lanes.drop_last());
    }
}

/// The ring counts of the units placed in `lanes`.
pub fn lane_summary_for(lanes: &[FormationLane]) -> (r: FormationLaneSummary)
    ensures
        r.outer == lane_count(lanes@, FormationLane::Outer),
        r.middle == lane_count(lanes@, FormationLane::Middle),
        r.inner == lane_count(lanes@, FormationLane::Inner),
{
    let mut summary = FormationLaneSummary { outer: 0, middle: 0, inner: 0 };
    let mut i: usize = 0;
    while i < lanes.len()
        invariant
            i <= lanes@.len(),
            summary.outer == lane_count(lanes@.subrange(0, i as int), FormationLane::Outer),
            summary.middle == lane_count(lanes@.subrange(0, i as int), FormationLane::Middle),
            summary.inner == lane_count(lanes@.subrange(0, i as int), FormationLane::Inner),
        decreases lanes@.len() - i,
    {
        let ghost prefix = lanes@.subrange(0, i as int);
        let ghost next = lanes@.subrange(0, i + 1);
        assert(next.drop_last() =~= prefix);
        proof {
            lemma_lane_counts_add_up(prefix);
        }
        match lanes[i] {
            FormationLane::Outer => summary.outer = summary.outer + 1,
            FormationLane::Middle => summary.middle = summary.middle + 1,
            FormationLane::Inner => summary.inner = summary.inner + 1,
        }
        i = i + 1;
    }
    assert(lanes@.subrange(0, lanes@.len() as int) =~= lanes@);
    summary
}

/// The ring orders each kind of unit prefers in a formation.
#[derive(Clone, Copy, Debug)]
pub struct FormationLaneOrders {
    pub support_order: [FormationLane; 3],
    pub frontline_order: [FormationLane; 3],
    pub ranged_order: [FormationLane; 3],
    pub skirmisher_order: [FormationLane; 3],
}

/// Outer, middle, inner.
pub open spec fn out_mid_in() -> Seq<FormationLane> {
    seq![FormationLane::Outer, FormationLane::Middle, FormationLane::Inner]
}

/// Middle, inner, outer.
pub open spec fn mid_in_out() -> Seq<FormationLane> {
    seq![FormationLane::Middle, FormationLane::Inner, FormationLane::Outer]
}

/// Middle, outer, inner.
pub open spec fn mid_out_in() -> Seq<FormationLane> {
    seq![FormationLane::Middle, FormationLane::Outer, FormationLane::Inner]
}

/// Inner, middle, outer.
pub open spec fn in_mid_out() -> Seq<FormationLane> {
    seq![FormationLane::Inner, FormationLane::Middle, FormationLane::Outer]
}

/// The ring orders of each formation's lane policy, as
/// (support, frontline, ranged, skirmisher).
pub open spec fn spec_lane_orders(formation: ActiveFormation) -> (Seq<FormationLane>, Seq<FormationLane>, Seq<FormationLane>, Seq<FormationLane>) {
    match formation {
        ActiveFormation::Square => (in_mid_out(), out_mid_in(), mid_in_out(), mid_out_in()),
        ActiveFormation::Circle => (in_mid_out(), out_mid_in(), mid_in_out(), mid_out_in()),
        ActiveFormation::Skean => (mid_in_out(), out_mid_in(), mid_out_in(), out_mid_in()),
        ActiveFormation::Diamond => (in_mid_out(), out_mid_in(), mid_in_out(), out_mid_in()),
        ActiveFormation::ShieldWall => (in_mid_out(), out_mid_in(), in_mid_out(), out_mid_in()),
        ActiveFormation::Loose => (in_mid_out(), mid_out_in(), mid_out_in(), mid_out_in()),
    }
}

fn order(a: FormationLane, b: FormationLane, c: FormationLane) -> (r: [FormationLane; 3])
    ensures
        r@ == seq![a, b, c],
{
    [a, b, c]
}

/// The ring orders of `formation`'s lane policy.
pub fn lane_orders_for_formation(formation: ActiveFormation) -> (r: FormationLaneOrders)
    ensures
        (r.support_order@, r.frontline_order@, r.ranged_order@, r.skirmisher_order@)
            == spec_lane_orders(formation),
{
    let o = FormationLane::Outer;
    let m = FormationLane::Middle;
    let i = FormationLane::Inner;
    match formation {
        ActiveFormation::Square | ActiveFormation::Circle => FormationLaneOrders {
            support_order: order(i, m, o),
            frontline_order: order(o, m, i),
            ranged_order: order(m, i, o),
            skirmisher_order: order(m, o, i),
        },
        ActiveFormation::Skean => FormationLaneOrders {
            support_order: order(m, i, o),
            frontline_order: order(o, m, i),
            ranged_order: order(m, o, i),
            skirmisher_order: order(o, m, i),
        },
        ActiveFormation::Diamond => FormationLaneOrders {
            support_order: order(i, m, o),
            frontline_order: order(o, m, i),
            ranged_order: order(m, i, o),
            skirmisher_order: order(o, m, i),
        },
        ActiveFormation::ShieldWall => FormationLaneOrders {
            support_order: order(i, m, o),
            frontline_order: order(o, m, i),
            ranged_order: order(i, m, o),
            skirmisher_order: order(o, m, i),
        },
        ActiveFormation::Loose => FormationLaneOrders {
            support_order: order(i, m, o),
            frontline_order: order(m, o, i),
            ranged_order: order(m, o, i),
            skirmisher_order: order(m, o, i),
        },
    }
}

/// The unit holds the line: frontline, anti-cavalry, shielded or fanatic.
pub open spec fn is_line_holder(kind: UnitKind) -> bool {
    ||| kind.spec_line().spec_has_role_tag(UnitRoleTag::Frontline)
    ||| kind.spec_line().spec_has_role_tag(UnitRoleTag::AntiCavalry)
    ||| kind.spec_line().spec_has_shielded_trait()
    ||| kind.spec_line().spec_is_fanatic_line()
}

/// The ring order a unit kind prefers in `formation`.
pub open spec fn spec_lane_preference_for_unit(kind: UnitKind, formation: ActiveFormation) -> Seq<FormationLane> {
    let (support, frontline, ranged, skirmisher) = spec_lane_orders(formation);
    let line = kind.spec_line();
    if line.spec_is_fanatic_line() {
        frontline
    } else if line.spec_is_support_priest_line() {
        support
    } else if line.spec_is_tracker_line() {
        match formation {
            ActiveFormation::ShieldWall => mid_in_out(),
            ActiveFormation::Skean | ActiveFormation::Diamond => out_mid_in(),
            _ => mid_out_in(),
        }
    } else if line.spec_is_scout_line() {
        skirmisher
    } else if line.spec_has_role_tag(UnitRoleTag::Support) {
        support
    } else if is_line_holder(kind) {
        frontline
    } else if line.spec_has_role_tag(UnitRoleTag::Cavalry) || line.spec_has_role_tag(
        UnitRoleTag::Skirmisher,
    ) {
        skirmisher
    } else {
        ranged
    }
}

/// Ring preferences follow the unit's lineage, not its faction: two kinds
/// of the same lineage prefer the same rings in every formation.
pub proof fn lemma_lane_preference_is_faction_agnostic(a: UnitKind, b: UnitKind, formation: ActiveFormation)
    requires
        a.spec_line() == b.spec_line(),
    ensures
        spec_lane_preference_for_unit(a, formation) == spec_lane_preference_for_unit(b, formation),
{
}

pub fn lane_preference_for_unit(kind: UnitKind, formation: ActiveFormation) -> (r: [FormationLane; 3])
    ensures
        r@ == spec_lane_preference_for_unit(kind, formation),
{
    let policy = lane_orders_for_formation(formation);

    if kind.is_fanatic_line() {
        return policy.frontline_order;
    }
    if kind.is_support_priest_line() {
        return policy.support_order;
    }
    if kind.is_tracker_line() {
        return match formation {
            ActiveFormation::ShieldWall => order(
                FormationLane::Middle,
                FormationLane::Inner,
                FormationLane::Outer,
            ),
            ActiveFormation::Skean | ActiveFormation::Diamond => order(
                FormationLane::Outer,
                FormationLane::Middle,
                FormationLane::Inner,
            ),
            _ => order(FormationLane::Middle, FormationLane::Outer, FormationLane::Inner),
        };
    }
    if kind.is_scout_line() {
        return policy.skirmisher_order;
    }
    if kind.has_role_tag(UnitRoleTag::Support) {
        return policy.support_order;
    }
    if kind.has_role_tag(UnitRoleTag::Frontline) || kind.has_role_tag(UnitRoleTag::AntiCavalry)
        || kind.has_shielded_trait() || kind.is_fanatic_line() {
        return policy.frontline_order;
    }
    if kind.has_role_tag(UnitRoleTag::Cavalry) || kind.has_role_tag(UnitRoleTag::Skirmisher) {
        return policy.skirmisher_order;
    }
    policy.ranged_order
}

/// The rank of a ring: outer 0, middle 1, inner 2.
pub open spec fn lane_rank(lane: FormationLane) -> u8 {
    match lane {
        FormationLane::Outer => 0,
        FormationLane::Middle => 1,
        FormationLane::Inner => 2,
    }
}

/// The rank of a unit's role when rings are filled: line holders 0,
/// cavalry and skirmishers 1, others 2, support 3.
pub open spec fn role_rank(kind: UnitKind) -> u8 {
    let line = kind.spec_line();
    if is_line_holder(kind) {
        0
    } else if line.spec_has_role_tag(UnitRoleTag::Cavalry) || line.spec_has_role_tag(
        UnitRoleTag::Skirmisher,
    ) {
        1
    } else if line.spec_has_role_tag(UnitRoleTag::Support) {
        3
    } else {
        2
    }
}

/// The order in which units pick their ring: by preferred ring, then by
/// role.
pub open spec fn spec_lane_priority_key(kind: UnitKind, formation: ActiveFormation) -> u8 {
    (lane_rank(spec_lane_preference_for_unit(kind, formation)[0]) * 4 + role_rank(kind)) as u8
}

pub fn lane_priority_key(kind: UnitKind, formation: ActiveFormation) -> (r: u8)
    ensures
        r == spec_lane_priority_key(kind, formation),
        r < 12,
{
    let preferred = lane_preference_for_unit(kind, formation)[0];
    let preferred_rank: u8 = match preferred {
        FormationLane::Outer => 0,
        FormationLane::Middle => 1,
        FormationLane::Inner => 2,
    };
    let role_rank: u8 = if kind.has_role_tag(UnitRoleTag::Frontline) || kind.has_role_tag(
        UnitRoleTag::AntiCavalry,
    ) || kind.has_shielded_trait() || kind.is_fanatic_line() {
        0
    } else if kind.has_role_tag(UnitRoleTag::Cavalry) || kind.has_role_tag(UnitRoleTag::Skirmisher) {
        1
    } else if kind.has_role_tag(UnitRoleTag::Support) {
        3
    } else {
        2
    };
    preferred_rank * 4 + role_rank
}

/// Each lane order names every ring once.
pub proof fn lemma_lane_preference_is_permutation(kind: UnitKind, formation: ActiveFormation)
    ensures
        spec_lane_preference_for_unit(kind, formation).len() == 3,
        spec_lane_preference_for_unit(kind, formation).contains(FormationLane::Outer),
        spec_lane_preference_for_unit(kind, formation).contains(FormationLane::Middle),
        spec_lane_preference_for_unit(kind, formation).contains(FormationLane::Inner),
{
    let p = spec_lane_preference_for_unit(kind, formation);
    assert(p[0] == FormationLane::Outer || p[1] == FormationLane::Outer || p[2] == FormationLane::Outer);
    assert(p[0] == FormationLane::Middle || p[1] == FormationLane::Middle || p[2] == FormationLane::Middle);
    assert(p[0] == FormationLane::Inner || p[1] == FormationLane::Inner || p[2] == FormationLane::Inner);
}

/// The slot offsets still free in each ring, taken front first.
#[derive(Clone, Debug)]
pub struct LaneOffsetBuckets<P> {
    outer: Vec<P>,
    middle: Vec<P>,
    inner: Vec<P>,
    outer_next: usize,
    middle_next: usize,
    inner_next: usize,
}

/// The free offsets of one ring in a triple of rings.
pub open spec fn ring_of<P>(rings: (Seq<P>, Seq<P>, Seq<P>), lane: FormationLane) -> Seq<P> {
    match lane {
        FormationLane::Outer => rings.0,
        FormationLane::Middle => rings.1,
        FormationLane::Inner => rings.2,
    }
}

/// The rings with the front offset of `lane` taken.
pub open spec fn rings_after_pop<P>(rings: (Seq<P>, Seq<P>, Seq<P>), lane: FormationLane) -> (Seq<P>, Seq<P>, Seq<P>) {
    match lane {
        FormationLane::Outer => (rings.0.drop_first(), rings.1, rings.2),
        FormationLane::Middle => (rings.0, rings.1.drop_first(), rings.2),
        FormationLane::Inner => (rings.0, rings.1, rings.2.drop_first()),
    }
}

impl<P: Copy> LaneOffsetBuckets<P> {
    pub closed spec fn wf(self) -> bool {
        &&& self.outer_next <= self.outer@.len()
        &&& self.middle_next <= self.middle@.len()
        &&& self.inner_next <= self.inner@.len()
    }

    /// The free offsets of the outer, middle and inner ring, in the order
    /// they are taken.
    pub closed spec fn rings(self) -> (Seq<P>, Seq<P>, Seq<P>) {
        (
            self.outer@.skip(self.outer_next as int),
            self.middle@.skip(self.middle_next as int),
            self.inner@.skip(self.inner_next as int),
        )
    }

    /// Buckets holding these offsets for each ring.
    pub fn new(outer: Vec<P>, middle: Vec<P>, inner: Vec<P>) -> (r: Self)
        ensures
            r.wf(),
            r.rings() == (outer@, middle@, inner@),
    {
        let r = LaneOffsetBuckets { outer, middle, inner, outer_next: 0, middle_next: 0, inner_next: 0 };
        proof {
            assert(r.outer@.skip(0) =~= r.outer@);
            assert(r.middle@.skip(0) =~= r.middle@);
            assert(r.inner@.skip(0) =~= r.inner@);
        }
        r
    }

    pub fn lane_has_slots(&self, lane: FormationLane) -> (r: bool)
        requires
            self.wf(),
        ensures
            r == (ring_of(self.rings(), lane).len() > 0),
    {
        match lane {
            FormationLane::Outer => self.outer_next < self.outer.len(),
            FormationLane::Middle => self.middle_next < self.middle.len(),
            FormationLane::Inner => self.inner_next < self.inner.len(),
        }
    }

    /// Takes the front offset of a ring, if it has one.
    pub fn pop_lane(&mut self, lane: FormationLane) -> (r: Option<P>)
        requires
            old(self).wf(),
        ensures
            final(self).wf(),
            ring_of(old(self).rings(), lane).len() > 0 ==> r == Some(ring_of(old(self).rings(), lane)[0])
                && final(self).rings() == rings_after_pop(old(self).rings(), lane),
            ring_of(old(self).rings(), lane).len() == 0 ==> r is None && final(self).rings() == old(self).rings(),
    {
        match lane {
            FormationLane::Outer => {
                if self.outer_next < self.outer.len() {
                    let offset = self.outer[self.outer_next];
                    self.outer_next = self.outer_next + 1;
                    proof {
                        assert(old(self).outer@.skip(old(self).outer_next as int).drop_first() =~= self.outer@.skip(
                            self.outer_next as int,
                        ));
                    }
                    Some(offset)
                } else {
                    None
                }
            },
            FormationLane::Middle => {
                if self.middle_next < self.middle.len() {
                    let offset = self.middle[self.middle_next];
                    self.middle_next = self.middle_next + 1;
                    proof {
                        assert(old(self).middle@.skip(old(self).middle_next as int).drop_first()
                            =~= self.middle@.skip(self.middle_next as int));
                    }
                    Some(offset)
                } else {
                    None
                }
            },
            FormationLane::Inner => {
                if self.inner_next < self.inner.len() {
                    let offset = self.inner[self.inner_next];
                    self.inner_next = self.inner_next + 1;
                    proof {
                        assert(old(self).inner@.skip(old(self).inner_next as int).drop_first() =~= self.inner@.skip(
                            self.inner_next as int,
                        ));
                    }
                    Some(offset)
                } else {
                    None
                }
            },
        }
    }

    /// Takes the front offset of the outermost ring that has one.
    pub fn pop_any(&mut self) -> (r: Option<(FormationLane, P)>)
        requires
            old(self).wf(),
        ensures
            final(self).wf(),
            r == spec_pop_any(old(self).rings()).0,
            final(self).rings() == spec_pop_any(old(self).rings()).1,
    {
        if let Some(offset) = self.pop_lane(FormationLane::Outer) {
            return Some((FormationLane::Outer, offset));
        }
        if let Some(offset) = self.pop_lane(FormationLane::Middle) {
            return Some((FormationLane::Middle, offset));
        }
        match self.pop_lane(FormationLane::Inner) {
            Some(offset) => Some((FormationLane::Inner, offset)),
            None => None,
        }
    }

    /// How many outer slots are still free.
    pub fn outer_capacity(&self) -> (r: usize)
        requires
            self.wf(),
        ensures
            r == self.rings().0.len(),
    {
        self.outer.len() - self.outer_next
    }
}

/// The front offset of the outermost ring that has one, and the rings
/// after it is taken.
pub open spec fn spec_pop_any<P>(rings: (Seq<P>, Seq<P>, Seq<P>)) -> (Option<(FormationLane, P)>, (Seq<P>, Seq<P>, Seq<P>)) {
    if rings.0.len() > 0 {
        (Some((FormationLane::Outer, rings.0[0])), rings_after_pop(rings, FormationLane::Outer))
    } else if rings.1.len() > 0 {
        (Some((FormationLane::Middle, rings.1[0])), rings_after_pop(rings, FormationLane::Middle))
    } else if rings.2.len() > 0 {
        (Some((FormationLane::Inner, rings.2[0])), rings_after_pop(rings, FormationLane::Inner))
    } else {
        (None, rings)
    }
}

/// A unit may take a ring that has a free slot, except that support units
/// stop taking outer slots once `limit` of them stand there, while a
/// middle or inner slot is free.
pub open spec fn lane_open_for<P>(
    rings: (Seq<P>, Seq<P>, Seq<P>),
    kind: UnitKind,
    support_outer: nat,
    limit: nat,
    lane: FormationLane,
) -> bool {
    &&& ring_of(rings, lane).len() > 0
    &&& !(lane == FormationLane::Outer && kind.spec_line().spec_has_role_tag(UnitRoleTag::Support)
        && support_outer >= limit && (rings.1.len() > 0 || rings.2.len() > 0))
}

/// The first ring of `order` open for the unit.
pub open spec fn first_open_lane<P>(
    rings: (Seq<P>, Seq<P>, Seq<P>),
    kind: UnitKind,
    support_outer: nat,
    limit: nat,
    order: Seq<FormationLane>,
) -> Option<FormationLane>
    decreases order.len(),
{
    if order.len() == 0 {
        None
    } else if lane_open_for(rings, kind, support_outer, limit, order[0]) {
        Some(order[0])
    } else {
        first_open_lane(rings, kind, support_outer, limit, order.drop_first())
    }
}

/// Where one unit goes: the first open ring of its preference order, else
/// the outermost ring with a free slot; with the rings afterwards.
pub open spec fn spec_place_unit<P>(
    rings: (Seq<P>, Seq<P>, Seq<P>),
    kind: UnitKind,
    support_outer: nat,
    limit: nat,
    formation: ActiveFormation,
) -> (Option<(FormationLane, P)>, (Seq<P>, Seq<P>, Seq<P>)) {
    match first_open_lane(rings, kind, support_outer, limit, spec_lane_preference_for_unit(kind, formation)) {
        Some(lane) => (Some((lane, ring_of(rings, lane)[0])), rings_after_pop(rings, lane)),
        None => spec_pop_any(rings),
    }
}

/// The places of the units, taken in order, until one finds no free slot.
pub open spec fn spec_assign_lanes<P>(
    rings: (Seq<P>, Seq<P>, Seq<P>),
    support_outer: nat,
    limit: nat,
    formation: ActiveFormation,
    members: Seq<(u32, UnitKind)>,
) -> Seq<(u32, FormationLane, P)>
    decreases members.len(),
{
    if members.len() == 0 {
        Seq::empty()
    } else {
        let kind = members[0].1;
        match spec_place_unit(rings, kind, support_outer, limit, formation).0 {
            None => Seq::empty(),
            Some((lane, offset)) => seq![(members[0].0, lane, offset)] + spec_assign_lanes(
                spec_place_unit(rings, kind, support_outer, limit, formation).1,
                if lane == FormationLane::Outer && kind.spec_line().spec_has_role_tag(UnitRoleTag::Support) {
                    support_outer + 1
                } else {
                    support_outer
                },
                limit,
                formation,
                members.drop_first(),
            ),
        }
    }
}

fn place_unit<P: Copy>(
    buckets: &mut LaneOffsetBuckets<P>,
    kind: UnitKind,
    support_outer: usize,
    limit: usize,
    formation: ActiveFormation,
) -> (r: Option<(FormationLane, P)>)
    requires
        old(buckets).wf(),
    ensures
        final(buckets).wf(),
        r == spec_place_unit(old(buckets).rings(), kind, support_outer as nat, limit as nat, formation).0,
        final(buckets).rings() == spec_place_unit(
            old(buckets).rings(),
            kind,
            support_outer as nat,
            limit as nat,
            formation,
        ).1,
{
    let lane_order = lane_preference_for_unit(kind, formation);
    let is_support = kind.has_role_tag(UnitRoleTag::Support);
    let ghost rings = buckets.rings();
    let ghost order = lane_order@;
    proof {
        assert(order.skip(0) =~= order);
    }
    let mut i: usize = 0;
    while i < 3
        invariant
            i <= 3,
            buckets.wf(),
            buckets.rings() == rings,
            rings == old(buckets).rings(),
            order == lane_order@,
            order == spec_lane_preference_for_unit(kind, formation),
            order.len() == 3,
            is_support == kind.spec_line().spec_has_role_tag(UnitRoleTag::Support),
            first_open_lane(rings, kind, support_outer as nat, limit as nat, order) == first_open_lane(
                rings,
                kind,
                support_outer as nat,
                limit as nat,
                order.skip(i as int),
            ),
        decreases 3 - i,
    {
        let lane = lane_order[i];
        proof {
            assert(order.skip(i as int)[0] == lane);
            assert(order.skip(i as int).drop_first() =~= order.skip(i + 1));
        }
        if buckets.lane_has_slots(lane) {
            let blocked = lane == FormationLane::Outer && is_support && support_outer >= limit && (
            buckets.lane_has_slots(FormationLane::Middle) || buckets.lane_has_slots(FormationLane::Inner));
            if !blocked {
                proof {
                    assert(lane_open_for(rings, kind, support_outer as nat, limit as nat, lane));
                    assert(first_open_lane(rings, kind, support_outer as nat, limit as nat, order.skip(i as int))
                        == Some(lane));
                }
                let popped = buckets.pop_lane(lane);
                match popped {
                    Some(offset) => {
                        return Some((lane, offset));
                    },
                    None => {},
                }
            }
        }
        i = i + 1;
    }
    proof {
        assert(order.skip(3) =~= Seq::<FormationLane>::empty());
    }
    buckets.pop_any()
}

/// Places the units, taken in the order given, in the rings: each takes
/// the first open ring of its preference order (support units take at
/// most `support_outer_limit` outer slots while an inner ring has room),
/// else the outermost free slot; placing stops at the first unit that
/// finds no slot.
pub fn assign_lanes_in_order<P: Copy>(
    members: &[(u32, UnitKind)],
    formation: ActiveFormation,
    buckets: LaneOffsetBuckets<P>,
    support_outer_limit: usize,
) -> (r: Vec<(u32, FormationLane, P)>)
    requires
        buckets.wf(),
    ensures
        r@ == spec_assign_lanes(buckets.rings(), 0, support_outer_limit as nat, formation, members@),
{
    let mut buckets = buckets;
    let ghost start = buckets.rings();
    let mut support_outer_assigned: usize = 0;
    let mut assigned: Vec<(u32, FormationLane, P)> = Vec::new();
    proof {
        assert(members@.skip(0) =~= members@);
        assert(assigned@ + spec_assign_lanes(start, 0, support_outer_limit as nat, formation, members@) =~= spec_assign_lanes(start, 0, support_outer_limit as nat, formation, members@));
    }
    let mut i: usize = 0;
    let mut stopped = false;
    while i < members.len() && !stopped
        invariant
            i <= members@.len(),
            buckets.wf(),
            support_outer_assigned <= i,
            stopped ==> spec_assign_lanes(
                buckets.rings(),
                support_outer_assigned as nat,
                support_outer_limit as nat,
                formation,
                members@.skip(i as int),
            ) == Seq::<(u32, FormationLane, P)>::empty(),
            assigned@ + spec_assign_lanes(
                buckets.rings(),
                support_outer_assigned as nat,
                support_outer_limit as nat,
                formation,
                members@.skip(i as int),
            ) == spec_assign_lanes(start, 0, support_outer_limit as nat, formation, members@),
        decreases members@.len() - i + (if stopped { 0int } else { 1int }),
    {
        let (id, kind) = members[i];
        let ghost before = buckets.rings();
        let ghost rest = members@.skip(i as int);
        proof {
            assert(rest[0] == members@[i as int]);
            assert(rest.drop_first() =~= members@.skip(i + 1));
        }
        let placed = place_unit(&mut buckets, kind, support_outer_assigned, support_outer_limit, formation);
        match placed {
            None => {
                proof {
                    assert(spec_assign_lanes(before, support_outer_assigned as nat, support_outer_limit as nat, formation, rest) =~= Seq::<(u32, FormationLane, P)>::empty());
                }
                stopped = true;
            },
            Some((lane, offset)) => {
                let ghost old_assigned = assigned@;
                if lane == FormationLane::Outer && kind.has_role_tag(UnitRoleTag::Support) {
                    support_outer_assigned = support_outer_assigned + 1;
                }
                assigned.push((id, lane, offset));
                proof {
                    assert(assigned@ =~= old_assigned + seq![(id, lane, offset)]);
                    let tail = spec_assign_lanes(
                        buckets.rings(),
                        support_outer_assigned as nat,
                        support_outer_limit as nat,
                        formation,
                        members@.skip(i + 1),
                    );
                    assert(old_assigned + (seq![(id, lane, offset)] + tail) =~= assigned@ + tail);
                }
                i = i + 1;
            },
        }
    }
    proof {
        if !stopped {
            assert(members@.skip(members@.len() as int) =~= Seq::<(u32, UnitKind)>::empty());
        }
        assert(assigned@ + Seq::<(u32, FormationLane, P)>::empty() =~= assigned@);
    }
    assigned
}

/// The number of free slots left in the rings.
pub open spec fn free_slots<P>(rings: (Seq<P>, Seq<P>, Seq<P>)) -> nat {
    rings.0.len() + rings.1.len() + rings.2.len()
}

proof fn lemma_first_open_lane_found<P>(
    rings: (Seq<P>, Seq<P>, Seq<P>),
    kind: UnitKind,
    support_outer: nat,
    limit: nat,
    order: Seq<FormationLane>,
    lane: FormationLane,
)
    requires
        order.contains(lane),
        lane_open_for(rings, kind, support_outer, limit, lane),
    ensures
        first_open_lane(rings, kind, support_outer, limit, order) is Some,
        lane_open_for(
            rings,
            kind,
            support_outer,
            limit,
            first_open_lane(rings, kind, support_outer, limit, order).unwrap(),
        ),
    decreases order.len(),
{
    if !lane_open_for(rings, kind, support_outer, limit, order[0]) {
        let k = choose|k: int| 0 <= k < order.len() && order[k] == lane;
        assert(k != 0);
        assert(order.drop_first()[k - 1] == lane);
        lemma_first_open_lane_found(rings, kind, support_outer, limit, order.drop_first(), lane);
    }
}

proof fn lemma_place_unit_while_free<P>(
    rings: (Seq<P>, Seq<P>, Seq<P>),
    kind: UnitKind,
    support_outer: nat,
    limit: nat,
    formation: ActiveFormation,
)
    requires
        free_slots(rings) > 0,
    ensures
        spec_place_unit(rings, kind, support_outer, limit, formation).0 is Some,
        free_slots(spec_place_unit(rings, kind, support_outer, limit, formation).1) + 1 == free_slots(rings),
{
    let order = spec_lane_preference_for_unit(kind, formation);
    lemma_lane_preference_is_permutation(kind, formation);
    if rings.0.len() > 0 && lane_open_for(rings, kind, support_outer, limit, FormationLane::Outer) {
        lemma_first_open_lane_found(rings, kind, support_outer, limit, order, FormationLane::Outer);
    } else if rings.1.len() > 0 {
        lemma_first_open_lane_found(rings, kind, support_outer, limit, order, FormationLane::Middle);
    } else {
        assert(rings.2.len() > 0);
        lemma_first_open_lane_found(rings, kind, support_outer, limit, order, FormationLane::Inner);
    }
}

proof fn lemma_place_unit_when_full<P>(
    rings: (Seq<P>, Seq<P>, Seq<P>),
    kind: UnitKind,
    support_outer: nat,
    limit: nat,
    order: Seq<FormationLane>,
)
    requires
        free_slots(rings) == 0,
    ensures
        first_open_lane(rings, kind, support_outer, limit, order) is None,
    decreases order.len(),
{
    if order.len() > 0 {
        lemma_place_unit_when_full(rings, kind, support_outer, limit, order.drop_first());
    }
}

/// Supports do not crowd the outer ring: once `limit` supports stand
/// there, a support unit is sent to the outer ring only when no middle or
/// inner slot is free.
pub proof fn lemma_supports_keep_off_a_full_outer_ring<P>(
    rings: (Seq<P>, Seq<P>, Seq<P>),
    kind: UnitKind,
    support_outer: nat,
    limit: nat,
    formation: ActiveFormation,
)
    requires
        kind.spec_line().spec_has_role_tag(UnitRoleTag::Support),
        support_outer >= limit,
    ensures
        spec_place_unit(rings, kind, support_outer, limit, formation).0 matches Some((lane, _))
            && lane == FormationLane::Outer ==> rings.1.len() == 0 && rings.2.len() == 0,
{
    let order = spec_lane_preference_for_unit(kind, formation);
    lemma_lane_preference_is_permutation(kind, formation);
    if rings.1.len() > 0 {
        lemma_first_open_lane_found(rings, kind, support_outer, limit, order, FormationLane::Middle);
    } else if rings.2.len() > 0 {
        lemma_first_open_lane_found(rings, kind, support_outer, limit, order, FormationLane::Inner);
    }
}

/// Placing units wastes no slot: units are placed, in order, as long as
/// any ring has a free slot, so as many are placed as there are units or
/// free slots, whichever is fewer.
pub proof fn lemma_assign_lanes_fills_free_slots<P>(
    rings: (Seq<P>, Seq<P>, Seq<P>),
    support_outer: nat,
    limit: nat,
    formation: ActiveFormation,
    members: Seq<(u32, UnitKind)>,
)
    ensures
        spec_assign_lanes(rings, support_outer, limit, formation, members).len() == (if members.len() <= free_slots(
            rings,
        ) {
            members.len()
        } else {
            free_slots(rings)
        }),
        forall|k: int|
            0 <= k < spec_assign_lanes(rings, support_outer, limit, formation, members).len() ==> (
            #[trigger] spec_assign_lanes(rings, support_outer, limit, formation, members)[k]).0 == members[k].0,
    decreases members.len(),
{
    if members.len() > 0 {
        let kind = members[0].1;
        let placed = spec_place_unit(rings, kind, support_outer, limit, formation);
        if free_slots(rings) > 0 {
            lemma_place_unit_while_free(rings, kind, support_outer, limit, formation);
            let (lane, offset) = placed.0.unwrap();
            let next_support = if lane == FormationLane::Outer && kind.spec_line().spec_has_role_tag(
                UnitRoleTag::Support,
            ) {
                support_outer + 1
            } else {
                support_outer
            };
            lemma_assign_lanes_fills_free_slots(placed.1, next_support, limit, formation, members.drop_first());
            let rest = spec_assign_lanes(placed.1, next_support, limit, formation, members.drop_first());
            let all = spec_assign_lanes(rings, support_outer, limit, formation, members);
            assert(all == seq![(members[0].0, lane, offset)] + rest);
            assert forall|k: int| 0 <= k < all.len() implies (#[trigger] all[k]).0 == members[k].0 by {
                if k > 0 {
                    assert(all[k] == rest[k - 1]);
                    assert(members.drop_first()[k - 1] == members[k]);
                }
            }
        } else {
            lemma_place_unit_when_full(
                rings,
                kind,
                support_outer,
                limit,
                spec_lane_preference_for_unit(kind, formation),
            );
        }
    }
}

/// In a shield wall the bowmen and crossbowmen keep to the centre: the
/// ranged lane order of the shield wall is inner, middle, outer; a unit of
/// a bow or crossbow lineage prefers the rings in that order; and such a
/// unit, placed while the inner ring has a free slot, takes the front slot
/// of the inner ring, so the first unit of a shield wall placement that is
/// one takes it.
pub proof fn lemma_shield_wall_archers_hold_the_centre<P>(
    rings: (Seq<P>, Seq<P>, Seq<P>),
    kind: UnitKind,
    support_outer: nat,
    limit: nat,
    members: Seq<(u32, UnitKind)>,
)
    requires
        kind.spec_line().spec_is_archer_line(),
        !kind.spec_line().spec_is_tracker_line(),
        !kind.spec_line().spec_is_scout_line(),
    ensures
        spec_lane_orders(ActiveFormation::ShieldWall).2 == seq![
            FormationLane::Inner,
            FormationLane::Middle,
            FormationLane::Outer,
        ],
        spec_lane_preference_for_unit(kind, ActiveFormation::ShieldWall) == seq![
            FormationLane::Inner,
            FormationLane::Middle,
            FormationLane::Outer,
        ],
        rings.2.len() > 0 ==> spec_place_unit(rings, kind, support_outer, limit, ActiveFormation::ShieldWall).0
            == Some((FormationLane::Inner, rings.2[0])),
        rings.2.len() > 0 && members.len() > 0 && members[0].1 == kind ==> spec_assign_lanes(
            rings,
            support_outer,
            limit,
            ActiveFormation::ShieldWall,
            members,
        )[0] == (members[0].0, FormationLane::Inner, rings.2[0]),
{
    let order = spec_lane_preference_for_unit(kind, ActiveFormation::ShieldWall);
    assert(order == in_mid_out());
    if rings.2.len() > 0 {
        assert(order[0] == FormationLane::Inner);
        assert(lane_open_for(rings, kind, support_outer, limit, FormationLane::Inner));
        assert(first_open_lane(rings, kind, support_outer, limit, order) == Some(FormationLane::Inner));
    }
}

} // verus!
