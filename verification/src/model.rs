//! The game's core vocabulary: factions, difficulties, unit kinds and their
//! identities, and the run-modal state.
use vstd::prelude::*;

use crate::text::str_eq;
use crate::unit_line::{UnitLine, spec_line_from_id, lemma_line_id_round_trip};

verus! {

/// The top-level screens and phases of the game.
#[derive(Clone, Copy, Debug, PartialEq, Eq, Hash, Structural)]
pub enum GameState {
    Boot,
    MainMenu,
    MatchSetup,
    Archive,
    Settings,
    InRun,
    LevelUp,
    Paused,
    GameOver,
    Victory,
}

impl Default for GameState {
    fn default() -> (r: Self)
        ensures
            r == GameState::Boot,
    {
        GameState::Boot
    }
}

/// The two playable factions.
#[derive(Clone, Copy, Debug, PartialEq, Eq, Hash, Structural)]
pub enum PlayerFaction {
    Christian,
    Muslim,
}

impl Default for PlayerFaction {
    fn default() -> (r: Self)
        ensures
            r == PlayerFaction::Christian,
    {
        PlayerFaction::Christian
    }
}

impl PlayerFaction {
    /// The name shown to the player.
    pub fn label(self) -> (r: &'static str)
        ensures
            r@ == (match self {
                PlayerFaction::Christian => "Christian"@,
                PlayerFaction::Muslim => "Muslim"@,
            }),
    {
        match self {
            PlayerFaction::Christian => "Christian",
            PlayerFaction::Muslim => "Muslim",
        }
    }

    /// The key that names the faction in config files.
    pub open spec fn spec_config_key(self) -> Seq<char> {
        match self {
            PlayerFaction::Christian => "christian"@,
            PlayerFaction::Muslim => "muslim"@,
        }
    }

    /// Executable form of [`PlayerFaction::spec_config_key`].
    pub fn config_key(self) -> (r: &'static str)
        ensures
            r@ == self.spec_config_key(),
    {
        match self {
            PlayerFaction::Christian => "christian",
            PlayerFaction::Muslim => "muslim",
        }
    }

    /// The other faction.
    pub open spec fn spec_opposing(self) -> PlayerFaction {
        match self {
            PlayerFaction::Christian => PlayerFaction::Muslim,
            PlayerFaction::Muslim => PlayerFaction::Christian,
        }
    }

    /// Executable form of [`PlayerFaction::spec_opposing`].
    pub fn opposing(self) -> (r: Self)
        ensures
            r == self.spec_opposing(),
    {
        match self {
            PlayerFaction::Christian => PlayerFaction::Muslim,
            PlayerFaction::Muslim => PlayerFaction::Christian,
        }
    }

    /// Both factions, in registry order.
    pub fn all() -> (r: [Self; 2])
        ensures
            r@ == seq![PlayerFaction::Christian, PlayerFaction::Muslim],
    {
        [PlayerFaction::Christian, PlayerFaction::Muslim]
    }
}

/// The difficulty chosen for a run.
#[derive(Clone, Copy, Debug, PartialEq, Eq, Hash, Structural)]
pub enum GameDifficulty {
    Recruit,
    Experienced,
    AloneAgainstTheInfidels,
}

impl Default for GameDifficulty {
    fn default() -> (r: Self)
        ensures
            r == GameDifficulty::Recruit,
    {
        GameDifficulty::Recruit
    }
}

impl GameDifficulty {
    /// The name shown to the player.
    pub fn label(self) -> (r: &'static str)
        ensures
            r@ == (match self {
                GameDifficulty::Recruit => "Recruit"@,
                GameDifficulty::Experienced => "Experienced"@,
                GameDifficulty::AloneAgainstTheInfidels => "Alone Against the Infidels"@,
            }),
    {
        match self {
            GameDifficulty::Recruit => "Recruit",
            GameDifficulty::Experienced => "Experienced",
            GameDifficulty::AloneAgainstTheInfidels => "Alone Against the Infidels",
        }
    }

    /// The key that names the difficulty in config files.
    pub fn config_key(self) -> (r: &'static str)
        ensures
            r@ == (match self {
                GameDifficulty::Recruit => "recruit"@,
                GameDifficulty::Experienced => "experienced"@,
                GameDifficulty::AloneAgainstTheInfidels => "alone_against_the_infidels"@,
            }),
    {
        match self {
            GameDifficulty::Recruit => "recruit",
            GameDifficulty::Experienced => "experienced",
            GameDifficulty::AloneAgainstTheInfidels => "alone_against_the_infidels",
        }
    }

    /// Every difficulty, easiest first.
    pub fn all() -> (r: [GameDifficulty; 3])
        ensures
            r@ == seq![
                GameDifficulty::Recruit,
                GameDifficulty::Experienced,
                GameDifficulty::AloneAgainstTheInfidels,
            ],
    {
        [
            GameDifficulty::Recruit,
            GameDifficulty::Experienced,
            GameDifficulty::AloneAgainstTheInfidels,
        ]
    }
}

/// What the player picked on the match-setup screen.
#[derive(Clone, Debug)]
pub struct MatchSetupSelection {
    pub faction: PlayerFaction,
    pub map_id: String,
    pub commander_id: String,
    pub difficulty: GameDifficulty,
}

impl Default for MatchSetupSelection {
    fn default() -> (r: Self)
        ensures
            r.faction == PlayerFaction::Christian,
            r.map_id@ == Seq::<char>::empty(),
            r.commander_id@ == "baldiun"@,
            r.difficulty == GameDifficulty::Recruit,
    {
        MatchSetupSelection {
            faction: PlayerFaction::Christian,
            map_id: String::new(),
            commander_id: String::from_str("baldiun"),
            difficulty: GameDifficulty::Recruit,
        }
    }
}

/// The frame-rate caps the settings offer.
#[derive(Clone, Copy, Debug, PartialEq, Eq, Hash, Structural)]
pub enum FrameRateCap {
    Fps60,
    Fps90,
    Fps120,
}

impl Default for FrameRateCap {
    fn default() -> (r: Self)
        ensures
            r == FrameRateCap::Fps60,
    {
        FrameRateCap::Fps60
    }
}

impl FrameRateCap {
    /// The cap in frames per second.
    pub fn as_u32(self) -> (r: u32)
        ensures
            r == (match self {
                FrameRateCap::Fps60 => 60u32,
                FrameRateCap::Fps90 => 90u32,
                FrameRateCap::Fps120 => 120u32,
            }),
    {
        match self {
            FrameRateCap::Fps60 => 60,
            FrameRateCap::Fps90 => 90,
            FrameRateCap::Fps120 => 120,
        }
    }

    /// Every cap, lowest first.
    pub fn all() -> (r: [FrameRateCap; 3])
        ensures
            r@ == seq![FrameRateCap::Fps60, FrameRateCap::Fps90, FrameRateCap::Fps120],
    {
        [FrameRateCap::Fps60, FrameRateCap::Fps90, FrameRateCap::Fps120]
    }
}

/// The side a unit fights on.
#[derive(Clone, Copy, Debug, PartialEq, Eq, Hash, Structural)]
pub enum Team {
    Friendly,
    Enemy,
    Neutral,
}

/// Which wave lane an enemy was spawned by.
#[derive(Clone, Copy, Debug, PartialEq, Eq, Hash, Structural)]
pub enum EnemySpawnLane {
    Small,
    Minor,
    Major,
}

/// Marks an enemy with the lane that spawned it.
#[derive(Clone, Copy, Debug, PartialEq, Eq, Structural)]
pub struct EnemySpawnSource {
    pub lane: EnemySpawnLane,
}

/// The faction-scoped identity of a unit: its faction, its lineage id
/// and whether it is the rescuable variant.
#[derive(Clone, Copy, Debug)]
pub struct UnitRef {
    pub faction: Option<PlayerFaction>,
    pub unit_id: &'static str,
    pub rescuable: bool,
}

/// The identity of a hero.
#[derive(Clone, Copy, Debug)]
pub struct HeroRef {
    pub faction: PlayerFaction,
    pub hero_id: &'static str,
}

/// Every kind of unit in the game.
#[derive(Clone, Copy, Debug, PartialEq, Eq, Hash, Structural)]
pub enum UnitKind {
    Commander,
    ChristianPeasantInfantry,
    ChristianPeasantArcher,
    ChristianPeasantPriest,
    ChristianMenAtArms,
    ChristianBowman,
    ChristianDevoted,
    ChristianShieldInfantry,
    ChristianSpearman,
    ChristianUnmountedKnight,
    ChristianSquire,
    ChristianExperiencedBowman,
    ChristianCrossbowman,
    ChristianTracker,
    ChristianScout,
    ChristianDevotedOne,
    ChristianFanatic,
    ChristianExperiencedShieldInfantry,
    ChristianShieldedSpearman,
    ChristianKnight,
    ChristianBannerman,
    ChristianEliteBowman,
    ChristianArmoredCrossbowman,
    ChristianPathfinder,
    ChristianMountedScout,
    ChristianCardinal,
    ChristianFlagellant,
    ChristianEliteShieldInfantry,
    ChristianHalberdier,
    ChristianHeavyKnight,
    ChristianEliteBannerman,
    ChristianLongbowman,
    ChristianEliteCrossbowman,
    ChristianHoundmaster,
    ChristianShockCavalry,
    ChristianEliteCardinal,
    ChristianEliteFlagellant,
    ChristianCitadelGuard,
    ChristianArmoredHalberdier,
    ChristianEliteHeavyKnight,
    ChristianGodsChosen,
    ChristianEliteLongbowman,
    ChristianSiegeCrossbowman,
    ChristianEliteHoundmaster,
    ChristianEliteShockCavalry,
    ChristianDivineSpeaker,
    ChristianDivineJudge,
    MuslimPeasantInfantry,
    MuslimPeasantArcher,
    MuslimPeasantPriest,
    MuslimMenAtArms,
    MuslimBowman,
    MuslimDevoted,
    MuslimShieldInfantry,
    MuslimSpearman,
    MuslimUnmountedKnight,
    MuslimSquire,
    MuslimExperiencedBowman,
    MuslimCrossbowman,
    MuslimTracker,
    MuslimScout,
    MuslimDevotedOne,
    MuslimFanatic,
    MuslimExperiencedShieldInfantry,
    MuslimShieldedSpearman,
    MuslimKnight,
    MuslimBannerman,
    MuslimEliteBowman,
    MuslimArmoredCrossbowman,
    MuslimPathfinder,
    MuslimMountedScout,
    MuslimCardinal,
    MuslimFlagellant,
    MuslimEliteShieldInfantry,
    MuslimHalberdier,
    MuslimHeavyKnight,
    MuslimEliteBannerman,
    MuslimLongbowman,
    MuslimEliteCrossbowman,
    MuslimHoundmaster,
    MuslimShockCavalry,
    MuslimEliteCardinal,
    MuslimEliteFlagellant,
    MuslimCitadelGuard,
    MuslimArmoredHalberdier,
    MuslimEliteHeavyKnight,
    MuslimGodsChosen,
    MuslimEliteLongbowman,
    MuslimSiegeCrossbowman,
    MuslimEliteHoundmaster,
    MuslimEliteShockCavalry,
    MuslimDivineSpeaker,
    MuslimDivineJudge,
    RescuableChristianPeasantInfantry,
    RescuableChristianPeasantArcher,
    RescuableChristianPeasantPriest,
    RescuableMuslimPeasantInfantry,
    RescuableMuslimPeasantArcher,
    RescuableMuslimPeasantPriest,
}

/// The three archetypes of tier-0 recruits.
#[derive(Clone, Copy, Debug, PartialEq, Eq, Hash, Structural)]
pub enum RecruitArchetype {
    Infantry,
    Archer,
    Priest,
}

/// Battlefield roles used by formations and damage counters.
#[derive(Clone, Copy, Debug, PartialEq, Eq, Hash, Structural)]
pub enum UnitRoleTag {
    Frontline,
    AntiCavalry,
    Cavalry,
    AntiArmor,
    Skirmisher,
    Support,
    HeroDoctrine,
}

/// How heavily a unit is armoured.
#[derive(Clone, Copy, Debug, PartialEq, Eq, Hash, Structural)]
pub enum UnitArmorClass {
    Unarmored,
    Light,
    Armored,
    Heavy,
}

/// A tier-0 recruit: a faction and an archetype.
#[derive(Clone, Copy, Debug, PartialEq, Eq, Hash, Structural)]
pub struct RecruitUnitKind {
    faction: PlayerFaction,
    archetype: RecruitArchetype,
}

/// The lineage id of each recruit archetype.
pub open spec fn archetype_line(archetype: RecruitArchetype) -> UnitLine {
    match archetype {
        RecruitArchetype::Infantry => UnitLine::PeasantInfantry,
        RecruitArchetype::Archer => UnitLine::PeasantArcher,
        RecruitArchetype::Priest => UnitLine::PeasantPriest,
    }
}

impl RecruitUnitKind {
    pub closed spec fn spec_faction(self) -> PlayerFaction {
        self.faction
    }

    pub closed spec fn spec_archetype(self) -> RecruitArchetype {
        self.archetype
    }

    /// The three recruits of `faction`: infantry, archer, priest.
    pub fn all_for_faction(faction: PlayerFaction) -> (r: [Self; 3])
        ensures
            r@.len() == 3,
            r@[0].spec_faction() == faction && r@[0].spec_archetype() == RecruitArchetype::Infantry,
            r@[1].spec_faction() == faction && r@[1].spec_archetype() == RecruitArchetype::Archer,
            r@[2].spec_faction() == faction && r@[2].spec_archetype() == RecruitArchetype::Priest,
    {
        [
            Self::from_faction_and_archetype(faction, RecruitArchetype::Infantry),
            Self::from_faction_and_archetype(faction, RecruitArchetype::Archer),
            Self::from_faction_and_archetype(faction, RecruitArchetype::Priest),
        ]
    }

    pub fn archetype(self) -> (r: RecruitArchetype)
        ensures
            r == self.spec_archetype(),
    {
        self.archetype
    }

    pub fn faction(self) -> (r: PlayerFaction)
        ensures
            r == self.spec_faction(),
    {
        self.faction
    }

    pub fn from_faction_and_archetype(faction: PlayerFaction, archetype: RecruitArchetype) -> (r:
        Self)
        ensures
            r.spec_faction() == faction,
            r.spec_archetype() == archetype,
    {
        RecruitUnitKind { faction, archetype }
    }

    /// The recruit a unit kind stands for: the non-rescuable peasant units
    /// of either faction.
    pub open spec fn spec_from_unit_kind(kind: UnitKind) -> Option<RecruitUnitKind> {
        let (faction, line, rescuable) = kind.spec_parts();
        if faction is Some && line.spec_recruit_archetype() is Some && !rescuable {
            Some(RecruitUnitKind::spec_new(faction.unwrap(), line.spec_recruit_archetype().unwrap()))
        } else {
            None
        }
    }

    pub closed spec fn spec_new(faction: PlayerFaction, archetype: RecruitArchetype) -> RecruitUnitKind {
        RecruitUnitKind { faction, archetype }
    }

    /// A recruit kind is made of its faction and its archetype.
    pub proof fn lemma_new(faction: PlayerFaction, archetype: RecruitArchetype)
        ensures
            Self::spec_new(faction, archetype).spec_faction() == faction,
            Self::spec_new(faction, archetype).spec_archetype() == archetype,
    {
    }

    pub fn from_unit_kind(kind: UnitKind) -> (r: Option<Self>)
        ensures
            r == Self::spec_from_unit_kind(kind),
    {
        let faction = match kind.faction() {
            Some(value) => value,
            None => return None,
        };
        let archetype = match kind.recruit_archetype() {
            Some(value) => value,
            None => return None,
        };
        if kind.is_rescuable_variant() {
            return None;
        }
        Some(Self::from_faction_and_archetype(faction, archetype))
    }

    /// The unit kind of this recruit.
    pub open spec fn spec_as_unit_kind(self) -> UnitKind {
        spec_kind_of(Some(self.spec_faction()), archetype_line(self.spec_archetype()), false)
    }

    pub fn as_unit_kind(self) -> (r: UnitKind)
        ensures
            r == self.spec_as_unit_kind(),
            r.spec_parts() == (Some(self.spec_faction()), archetype_line(self.spec_archetype()), false),
    {
        proof {
            lemma_line_id_round_trip(archetype_line(self.archetype), archetype_line(self.archetype).spec_id());
        }
        let r = UnitKind::from_faction_and_unit_id(self.faction(), self.unit_id(), false);
        r.unwrap()
    }

    /// The lineage id of this recruit's archetype.
    pub fn unit_id(self) -> (r: &'static str)
        ensures
            r@ == archetype_line(self.spec_archetype()).spec_id(),
    {
        match self.archetype() {
            RecruitArchetype::Infantry => "peasant_infantry",
            RecruitArchetype::Archer => "peasant_archer",
            RecruitArchetype::Priest => "peasant_priest",
        }
    }

    /// The rescuable (neutral) unit kind of this recruit.
    pub open spec fn spec_as_rescuable_unit_kind(self) -> UnitKind {
        spec_kind_of(Some(self.spec_faction()), archetype_line(self.spec_archetype()), true)
    }

    pub fn as_rescuable_unit_kind(self) -> (r: UnitKind)
        ensures
            r == self.spec_as_rescuable_unit_kind(),
            r.spec_parts() == (Some(self.spec_faction()), archetype_line(self.spec_archetype()), true),
    {
        proof {
            lemma_line_id_round_trip(archetype_line(self.archetype), archetype_line(self.archetype).spec_id());
        }
        let r = UnitKind::from_faction_and_unit_id(self.faction(), self.unit_id(), true);
        r.unwrap()
    }
}

impl UnitKind {
    /// A unit kind taken apart: its faction (none for the commander), its
    /// lineage, and whether it is the rescuable variant.
    pub open spec fn spec_parts(self) -> (Option<PlayerFaction>, UnitLine, bool) {
        match self {
            UnitKind::Commander => (None, UnitLine::Commander, false),
            UnitKind::ChristianPeasantInfantry => (Some(PlayerFaction::Christian), UnitLine::PeasantInfantry, false),
            UnitKind::ChristianPeasantArcher => (Some(PlayerFaction::Christian), UnitLine::PeasantArcher, false),
            UnitKind::ChristianPeasantPriest => (Some(PlayerFaction::Christian), UnitLine::PeasantPriest, false),
            UnitKind::ChristianMenAtArms => (Some(PlayerFaction::Christian), UnitLine::MenAtArms, false),
            UnitKind::ChristianBowman => (Some(PlayerFaction::Christian), UnitLine::Bowman, false),
            UnitKind::ChristianDevoted => (Some(PlayerFaction::Christian), UnitLine::Devoted, false),
            UnitKind::ChristianShieldInfantry => (Some(PlayerFaction::Christian), UnitLine::ShieldInfantry, false),
            UnitKind::ChristianSpearman => (Some(PlayerFaction::Christian), UnitLine::Spearman, false),
            UnitKind::ChristianUnmountedKnight => (Some(PlayerFaction::Christian), UnitLine::UnmountedKnight, false),
            UnitKind::ChristianSquire => (Some(PlayerFaction::Christian), UnitLine::Squire, false),
            UnitKind::ChristianExperiencedBowman => (Some(PlayerFaction::Christian), UnitLine::ExperiencedBowman, false),
            UnitKind::ChristianCrossbowman => (Some(PlayerFaction::Christian), UnitLine::Crossbowman, false),
            UnitKind::ChristianTracker => (Some(PlayerFaction::Christian), UnitLine::Tracker, false),
            UnitKind::ChristianScout => (Some(PlayerFaction::Christian), UnitLine::Scout, false),
            UnitKind::ChristianDevotedOne => (Some(PlayerFaction::Christian), UnitLine::DevotedOne, false),
            UnitKind::ChristianFanatic => (Some(PlayerFaction::Christian), UnitLine::Fanatic, false),
            UnitKind::ChristianExperiencedShieldInfantry => (Some(PlayerFaction::Christian), UnitLine::ExperiencedShieldInfantry, false),
            UnitKind::ChristianShieldedSpearman => (Some(PlayerFaction::Christian), UnitLine::ShieldedSpearman, false),
            UnitKind::ChristianKnight => (Some(PlayerFaction::Christian), UnitLine::Knight, false),
            UnitKind::ChristianBannerman => (Some(PlayerFaction::Christian), UnitLine::Bannerman, false),
            UnitKind::ChristianEliteBowman => (Some(PlayerFaction::Christian), UnitLine::EliteBowman, false),
            UnitKind::ChristianArmoredCrossbowman => (Some(PlayerFaction::Christian), UnitLine::ArmoredCrossbowman, false),
            UnitKind::ChristianPathfinder => (Some(PlayerFaction::Christian), UnitLine::Pathfinder, false),
            UnitKind::ChristianMountedScout => (Some(PlayerFaction::Christian), UnitLine::MountedScout, false),
            UnitKind::ChristianCardinal => (Some(PlayerFaction::Christian), UnitLine::Cardinal, false),
            UnitKind::ChristianFlagellant => (Some(PlayerFaction::Christian), UnitLine::Flagellant, false),
            UnitKind::ChristianEliteShieldInfantry => (Some(PlayerFaction::Christian), UnitLine::EliteShieldInfantry, false),
            UnitKind::ChristianHalberdier => (Some(PlayerFaction::Christian), UnitLine::Halberdier, false),
            UnitKind::ChristianHeavyKnight => (Some(PlayerFaction::Christian), UnitLine::HeavyKnight, false),
            UnitKind::ChristianEliteBannerman => (Some(PlayerFaction::Christian), UnitLine::EliteBannerman, false),
            UnitKind::ChristianLongbowman => (Some(PlayerFaction::Christian), UnitLine::Longbowman, false),
            UnitKind::ChristianEliteCrossbowman => (Some(PlayerFaction::Christian), UnitLine::EliteCrossbowman, false),
            UnitKind::ChristianHoundmaster => (Some(PlayerFaction::Christian), UnitLine::Houndmaster, false),
            UnitKind::ChristianShockCavalry => (Some(PlayerFaction::Christian), UnitLine::ShockCavalry, false),
            UnitKind::ChristianEliteCardinal => (Some(PlayerFaction::Christian), UnitLine::EliteCardinal, false),
            UnitKind::ChristianEliteFlagellant => (Some(PlayerFaction::Christian), UnitLine::EliteFlagellant, false),
            UnitKind::ChristianCitadelGuard => (Some(PlayerFaction::Christian), UnitLine::CitadelGuard, false),
            UnitKind::ChristianArmoredHalberdier => (Some(PlayerFaction::Christian), UnitLine::ArmoredHalberdier, false),
            UnitKind::ChristianEliteHeavyKnight => (Some(PlayerFaction::Christian), UnitLine::EliteHeavyKnight, false),
            UnitKind::ChristianGodsChosen => (Some(PlayerFaction::Christian), UnitLine::GodsChosen, false),
            UnitKind::ChristianEliteLongbowman => (Some(PlayerFaction::Christian), UnitLine::EliteLongbowman, false),
            UnitKind::ChristianSiegeCrossbowman => (Some(PlayerFaction::Christian), UnitLine::SiegeCrossbowman, false),
            UnitKind::ChristianEliteHoundmaster => (Some(PlayerFaction::Christian), UnitLine::EliteHoundmaster, false),
            UnitKind::ChristianEliteShockCavalry => (Some(PlayerFaction::Christian), UnitLine::EliteShockCavalry, false),
            UnitKind::ChristianDivineSpeaker => (Some(PlayerFaction::Christian), UnitLine::DivineSpeaker, false),
            UnitKind::ChristianDivineJudge => (Some(PlayerFaction::Christian), UnitLine::DivineJudge, false),
            UnitKind::MuslimPeasantInfantry => (Some(PlayerFaction::Muslim), UnitLine::PeasantInfantry, false),
            UnitKind::MuslimPeasantArcher => (Some(PlayerFaction::Muslim), UnitLine::PeasantArcher, false),
            UnitKind::MuslimPeasantPriest => (Some(PlayerFaction::Muslim), UnitLine::PeasantPriest, false),
            UnitKind::MuslimMenAtArms => (Some(PlayerFaction::Muslim), UnitLine::MenAtArms, false),
            UnitKind::MuslimBowman => (Some(PlayerFaction::Muslim), UnitLine::Bowman, false),
            UnitKind::MuslimDevoted => (Some(PlayerFaction::Muslim), UnitLine::Devoted, false),
            UnitKind::MuslimShieldInfantry => (Some(PlayerFaction::Muslim), UnitLine::ShieldInfantry, false),
            UnitKind::MuslimSpearman => (Some(PlayerFaction::Muslim), UnitLine::Spearman, false),
            UnitKind::MuslimUnmountedKnight => (Some(PlayerFaction::Muslim), UnitLine::UnmountedKnight, false),
            UnitKind::MuslimSquire => (Some(PlayerFaction::Muslim), UnitLine::Squire, false),
            UnitKind::MuslimExperiencedBowman => (Some(PlayerFaction::Muslim), UnitLine::ExperiencedBowman, false),
            UnitKind::MuslimCrossbowman => (Some(PlayerFaction::Muslim), UnitLine::Crossbowman, false),
            UnitKind::MuslimTracker => (Some(PlayerFaction::Muslim), UnitLine::Tracker, false),
            UnitKind::MuslimScout => (Some(PlayerFaction::Muslim), UnitLine::Scout, false),
            UnitKind::MuslimDevotedOne => (Some(PlayerFaction::Muslim), UnitLine::DevotedOne, false),
            UnitKind::MuslimFanatic => (Some(PlayerFaction::Muslim), UnitLine::Fanatic, false),
            UnitKind::MuslimExperiencedShieldInfantry => (Some(PlayerFaction::Muslim), UnitLine::ExperiencedShieldInfantry, false),
            UnitKind::MuslimShieldedSpearman => (Some(PlayerFaction::Muslim), UnitLine::ShieldedSpearman, false),
            UnitKind::MuslimKnight => (Some(PlayerFaction::Muslim), UnitLine::Knight, false),
            UnitKind::MuslimBannerman => (Some(PlayerFaction::Muslim), UnitLine::Bannerman, false),
            UnitKind::MuslimEliteBowman => (Some(PlayerFaction::Muslim), UnitLine::EliteBowman, false),
            UnitKind::MuslimArmoredCrossbowman => (Some(PlayerFaction::Muslim), UnitLine::ArmoredCrossbowman, false),
            UnitKind::MuslimPathfinder => (Some(PlayerFaction::Muslim), UnitLine::Pathfinder, false),
            UnitKind::MuslimMountedScout => (Some(PlayerFaction::Muslim), UnitLine::MountedScout, false),
            UnitKind::MuslimCardinal => (Some(PlayerFaction::Muslim), UnitLine::Cardinal, false),
            UnitKind::MuslimFlagellant => (Some(PlayerFaction::Muslim), UnitLine::Flagellant, false),
            UnitKind::MuslimEliteShieldInfantry => (Some(PlayerFaction::Muslim), UnitLine::EliteShieldInfantry, false),
            UnitKind::MuslimHalberdier => (Some(PlayerFaction::Muslim), UnitLine::Halberdier, false),
            UnitKind::MuslimHeavyKnight => (Some(PlayerFaction::Muslim), UnitLine::HeavyKnight, false),
            UnitKind::MuslimEliteBannerman => (Some(PlayerFaction::Muslim), UnitLine::EliteBannerman, false),
            UnitKind::MuslimLongbowman => (Some(PlayerFaction::Muslim), UnitLine::Longbowman, false),
            UnitKind::MuslimEliteCrossbowman => (Some(PlayerFaction::Muslim), UnitLine::EliteCrossbowman, false),
            UnitKind::MuslimHoundmaster => (Some(PlayerFaction::Muslim), UnitLine::Houndmaster, false),
            UnitKind::MuslimShockCavalry => (Some(PlayerFaction::Muslim), UnitLine::ShockCavalry, false),
            UnitKind::MuslimEliteCardinal => (Some(PlayerFaction::Muslim), UnitLine::EliteCardinal, false),
            UnitKind::MuslimEliteFlagellant => (Some(PlayerFaction::Muslim), UnitLine::EliteFlagellant, false),
            UnitKind::MuslimCitadelGuard => (Some(PlayerFaction::Muslim), UnitLine::CitadelGuard, false),
            UnitKind::MuslimArmoredHalberdier => (Some(PlayerFaction::Muslim), UnitLine::ArmoredHalberdier, false),
            UnitKind::MuslimEliteHeavyKnight => (Some(PlayerFaction::Muslim), UnitLine::EliteHeavyKnight, false),
            UnitKind::MuslimGodsChosen => (Some(PlayerFaction::Muslim), UnitLine::GodsChosen, false),
            UnitKind::MuslimEliteLongbowman => (Some(PlayerFaction::Muslim), UnitLine::EliteLongbowman, false),
            UnitKind::MuslimSiegeCrossbowman => (Some(PlayerFaction::Muslim), UnitLine::SiegeCrossbowman, false),
            UnitKind::MuslimEliteHoundmaster => (Some(PlayerFaction::Muslim), UnitLine::EliteHoundmaster, false),
            UnitKind::MuslimEliteShockCavalry => (Some(PlayerFaction::Muslim), UnitLine::EliteShockCavalry, false),
            UnitKind::MuslimDivineSpeaker => (Some(PlayerFaction::Muslim), UnitLine::DivineSpeaker, false),
            UnitKind::MuslimDivineJudge => (Some(PlayerFaction::Muslim), UnitLine::DivineJudge, false),
            UnitKind::RescuableChristianPeasantInfantry => (Some(PlayerFaction::Christian), UnitLine::PeasantInfantry, true),
            UnitKind::RescuableChristianPeasantArcher => (Some(PlayerFaction::Christian), UnitLine::PeasantArcher, true),
            UnitKind::RescuableChristianPeasantPriest => (Some(PlayerFaction::Christian), UnitLine::PeasantPriest, true),
            UnitKind::RescuableMuslimPeasantInfantry => (Some(PlayerFaction::Muslim), UnitLine::PeasantInfantry, true),
            UnitKind::RescuableMuslimPeasantArcher => (Some(PlayerFaction::Muslim), UnitLine::PeasantArcher, true),
            UnitKind::RescuableMuslimPeasantPriest => (Some(PlayerFaction::Muslim), UnitLine::PeasantPriest, true),
        }
    }

    /// The lineage of the unit kind.
    pub open spec fn spec_line(self) -> UnitLine {
        self.spec_parts().1
    }

    /// Executable form of [`UnitKind::spec_parts`].
    pub fn parts(self) -> (r: (Option<PlayerFaction>, UnitLine, bool))
        ensures
            r == self.spec_parts(),
    {
        match self {
            UnitKind::Commander => (None, UnitLine::Commander, false),
            UnitKind::ChristianPeasantInfantry => (Some(PlayerFaction::Christian), UnitLine::PeasantInfantry, false),
            UnitKind::ChristianPeasantArcher => (Some(PlayerFaction::Christian), UnitLine::PeasantArcher, false),
            UnitKind::ChristianPeasantPriest => (Some(PlayerFaction::Christian), UnitLine::PeasantPriest, false),
            UnitKind::ChristianMenAtArms => (Some(PlayerFaction::Christian), UnitLine::MenAtArms, false),
            UnitKind::ChristianBowman => (Some(PlayerFaction::Christian), UnitLine::Bowman, false),
            UnitKind::ChristianDevoted => (Some(PlayerFaction::Christian), UnitLine::Devoted, false),
            UnitKind::ChristianShieldInfantry => (Some(PlayerFaction::Christian), UnitLine::ShieldInfantry, false),
            UnitKind::ChristianSpearman => (Some(PlayerFaction::Christian), UnitLine::Spearman, false),
            UnitKind::ChristianUnmountedKnight => (Some(PlayerFaction::Christian), UnitLine::UnmountedKnight, false),
            UnitKind::ChristianSquire => (Some(PlayerFaction::Christian), UnitLine::Squire, false),
            UnitKind::ChristianExperiencedBowman => (Some(PlayerFaction::Christian), UnitLine::ExperiencedBowman, false),
            UnitKind::ChristianCrossbowman => (Some(PlayerFaction::Christian), UnitLine::Crossbowman, false),
            UnitKind::ChristianTracker => (Some(PlayerFaction::Christian), UnitLine::Tracker, false),
            UnitKind::ChristianScout => (Some(PlayerFaction::Christian), UnitLine::Scout, false),
            UnitKind::ChristianDevotedOne => (Some(PlayerFaction::Christian), UnitLine::DevotedOne, false),
            UnitKind::ChristianFanatic => (Some(PlayerFaction::Christian), UnitLine::Fanatic, false),
            UnitKind::ChristianExperiencedShieldInfantry => (Some(PlayerFaction::Christian), UnitLine::ExperiencedShieldInfantry, false),
            UnitKind::ChristianShieldedSpearman => (Some(PlayerFaction::Christian), UnitLine::ShieldedSpearman, false),
            UnitKind::ChristianKnight => (Some(PlayerFaction::Christian), UnitLine::Knight, false),
            UnitKind::ChristianBannerman => (Some(PlayerFaction::Christian), UnitLine::Bannerman, false),
            UnitKind::ChristianEliteBowman => (Some(PlayerFaction::Christian), UnitLine::EliteBowman, false),
            UnitKind::ChristianArmoredCrossbowman => (Some(PlayerFaction::Christian), UnitLine::ArmoredCrossbowman, false),
            UnitKind::ChristianPathfinder => (Some(PlayerFaction::Christian), UnitLine::Pathfinder, false),
            UnitKind::ChristianMountedScout => (Some(PlayerFaction::Christian), UnitLine::MountedScout, false),
            UnitKind::ChristianCardinal => (Some(PlayerFaction::Christian), UnitLine::Cardinal, false),
            UnitKind::ChristianFlagellant => (Some(PlayerFaction::Christian), UnitLine::Flagellant, false),
            UnitKind::ChristianEliteShieldInfantry => (Some(PlayerFaction::Christian), UnitLine::EliteShieldInfantry, false),
            UnitKind::ChristianHalberdier => (Some(PlayerFaction::Christian), UnitLine::Halberdier, false),
            UnitKind::ChristianHeavyKnight => (Some(PlayerFaction::Christian), UnitLine::HeavyKnight, false),
            UnitKind::ChristianEliteBannerman => (Some(PlayerFaction::Christian), UnitLine::EliteBannerman, false),
            UnitKind::ChristianLongbowman => (Some(PlayerFaction::Christian), UnitLine::Longbowman, false),
            UnitKind::ChristianEliteCrossbowman => (Some(PlayerFaction::Christian), UnitLine::EliteCrossbowman, false),
            UnitKind::ChristianHoundmaster => (Some(PlayerFaction::Christian), UnitLine::Houndmaster, false),
            UnitKind::ChristianShockCavalry => (Some(PlayerFaction::Christian), UnitLine::ShockCavalry, false),
            UnitKind::ChristianEliteCardinal => (Some(PlayerFaction::Christian), UnitLine::EliteCardinal, false),
            UnitKind::ChristianEliteFlagellant => (Some(PlayerFaction::Christian), UnitLine::EliteFlagellant, false),
            UnitKind::ChristianCitadelGuard => (Some(PlayerFaction::Christian), UnitLine::CitadelGuard, false),
            UnitKind::ChristianArmoredHalberdier => (Some(PlayerFaction::Christian), UnitLine::ArmoredHalberdier, false),
            UnitKind::ChristianEliteHeavyKnight => (Some(PlayerFaction::Christian), UnitLine::EliteHeavyKnight, false),
            UnitKind::ChristianGodsChosen => (Some(PlayerFaction::Christian), UnitLine::GodsChosen, false),
            UnitKind::ChristianEliteLongbowman => (Some(PlayerFaction::Christian), UnitLine::EliteLongbowman, false),
            UnitKind::ChristianSiegeCrossbowman => (Some(PlayerFaction::Christian), UnitLine::SiegeCrossbowman, false),
            UnitKind::ChristianEliteHoundmaster => (Some(PlayerFaction::Christian), UnitLine::EliteHoundmaster, false),
            UnitKind::ChristianEliteShockCavalry => (Some(PlayerFaction::Christian), UnitLine::EliteShockCavalry, false),
            UnitKind::ChristianDivineSpeaker => (Some(PlayerFaction::Christian), UnitLine::DivineSpeaker, false),
            UnitKind::ChristianDivineJudge => (Some(PlayerFaction::Christian), UnitLine::DivineJudge, false),
            UnitKind::MuslimPeasantInfantry => (Some(PlayerFaction::Muslim), UnitLine::PeasantInfantry, false),
            UnitKind::MuslimPeasantArcher => (Some(PlayerFaction::Muslim), UnitLine::PeasantArcher, false),
            UnitKind::MuslimPeasantPriest => (Some(PlayerFaction::Muslim), UnitLine::PeasantPriest, false),
            UnitKind::MuslimMenAtArms => (Some(PlayerFaction::Muslim), UnitLine::MenAtArms, false),
            UnitKind::MuslimBowman => (Some(PlayerFaction::Muslim), UnitLine::Bowman, false),
            UnitKind::MuslimDevoted => (Some(PlayerFaction::Muslim), UnitLine::Devoted, false),
            UnitKind::MuslimShieldInfantry => (Some(PlayerFaction::Muslim), UnitLine::ShieldInfantry, false),
            UnitKind::MuslimSpearman => (Some(PlayerFaction::Muslim), UnitLine::Spearman, false),
            UnitKind::MuslimUnmountedKnight => (Some(PlayerFaction::Muslim), UnitLine::UnmountedKnight, false),
            UnitKind::MuslimSquire => (Some(PlayerFaction::Muslim), UnitLine::Squire, false),
            UnitKind::MuslimExperiencedBowman => (Some(PlayerFaction::Muslim), UnitLine::ExperiencedBowman, false),
            UnitKind::MuslimCrossbowman => (Some(PlayerFaction::Muslim), UnitLine::Crossbowman, false),
            UnitKind::MuslimTracker => (Some(PlayerFaction::Muslim), UnitLine::Tracker, false),
            UnitKind::MuslimScout => (Some(PlayerFaction::Muslim), UnitLine::Scout, false),
            UnitKind::MuslimDevotedOne => (Some(PlayerFaction::Muslim), UnitLine::DevotedOne, false),
            UnitKind::MuslimFanatic => (Some(PlayerFaction::Muslim), UnitLine::Fanatic, false),
            UnitKind::MuslimExperiencedShieldInfantry => (Some(PlayerFaction::Muslim), UnitLine::ExperiencedShieldInfantry, false),
            UnitKind::MuslimShieldedSpearman => (Some(PlayerFaction::Muslim), UnitLine::ShieldedSpearman, false),
            UnitKind::MuslimKnight => (Some(PlayerFaction::Muslim), UnitLine::Knight, false),
            UnitKind::MuslimBannerman => (Some(PlayerFaction::Muslim), UnitLine::Bannerman, false),
            UnitKind::MuslimEliteBowman => (Some(PlayerFaction::Muslim), UnitLine::EliteBowman, false),
            UnitKind::MuslimArmoredCrossbowman => (Some(PlayerFaction::Muslim), UnitLine::ArmoredCrossbowman, false),
            UnitKind::MuslimPathfinder => (Some(PlayerFaction::Muslim), UnitLine::Pathfinder, false),
            UnitKind::MuslimMountedScout => (Some(PlayerFaction::Muslim), UnitLine::MountedScout, false),
            UnitKind::MuslimCardinal => (Some(PlayerFaction::Muslim), UnitLine::Cardinal, false),
            UnitKind::MuslimFlagellant => (Some(PlayerFaction::Muslim), UnitLine::Flagellant, false),
            UnitKind::MuslimEliteShieldInfantry => (Some(PlayerFaction::Muslim), UnitLine::EliteShieldInfantry, false),
            UnitKind::MuslimHalberdier => (Some(PlayerFaction::Muslim), UnitLine::Halberdier, false),
            UnitKind::MuslimHeavyKnight => (Some(PlayerFaction::Muslim), UnitLine::HeavyKnight, false),
            UnitKind::MuslimEliteBannerman => (Some(PlayerFaction::Muslim), UnitLine::EliteBannerman, false),
            UnitKind::MuslimLongbowman => (Some(PlayerFaction::Muslim), UnitLine::Longbowman, false),
            UnitKind::MuslimEliteCrossbowman => (Some(PlayerFaction::Muslim), UnitLine::EliteCrossbowman, false),
            UnitKind::MuslimHoundmaster => (Some(PlayerFaction::Muslim), UnitLine::Houndmaster, false),
            UnitKind::MuslimShockCavalry => (Some(PlayerFaction::Muslim), UnitLine::ShockCavalry, false),
            UnitKind::MuslimEliteCardinal => (Some(PlayerFaction::Muslim), UnitLine::EliteCardinal, false),
            UnitKind::MuslimEliteFlagellant => (Some(PlayerFaction::Muslim), UnitLine::EliteFlagellant, false),
            UnitKind::MuslimCitadelGuard => (Some(PlayerFaction::Muslim), UnitLine::CitadelGuard, false),
            UnitKind::MuslimArmoredHalberdier => (Some(PlayerFaction::Muslim), UnitLine::ArmoredHalberdier, false),
            UnitKind::MuslimEliteHeavyKnight => (Some(PlayerFaction::Muslim), UnitLine::EliteHeavyKnight, false),
            UnitKind::MuslimGodsChosen => (Some(PlayerFaction::Muslim), UnitLine::GodsChosen, false),
            UnitKind::MuslimEliteLongbowman => (Some(PlayerFaction::Muslim), UnitLine::EliteLongbowman, false),
            UnitKind::MuslimSiegeCrossbowman => (Some(PlayerFaction::Muslim), UnitLine::SiegeCrossbowman, false),
            UnitKind::MuslimEliteHoundmaster => (Some(PlayerFaction::Muslim), UnitLine::EliteHoundmaster, false),
            UnitKind::MuslimEliteShockCavalry => (Some(PlayerFaction::Muslim), UnitLine::EliteShockCavalry, false),
            UnitKind::MuslimDivineSpeaker => (Some(PlayerFaction::Muslim), UnitLine::DivineSpeaker, false),
            UnitKind::MuslimDivineJudge => (Some(PlayerFaction::Muslim), UnitLine::DivineJudge, false),
            UnitKind::RescuableChristianPeasantInfantry => (Some(PlayerFaction::Christian), UnitLine::PeasantInfantry, true),
            UnitKind::RescuableChristianPeasantArcher => (Some(PlayerFaction::Christian), UnitLine::PeasantArcher, true),
            UnitKind::RescuableChristianPeasantPriest => (Some(PlayerFaction::Christian), UnitLine::PeasantPriest, true),
            UnitKind::RescuableMuslimPeasantInfantry => (Some(PlayerFaction::Muslim), UnitLine::PeasantInfantry, true),
            UnitKind::RescuableMuslimPeasantArcher => (Some(PlayerFaction::Muslim), UnitLine::PeasantArcher, true),
            UnitKind::RescuableMuslimPeasantPriest => (Some(PlayerFaction::Muslim), UnitLine::PeasantPriest, true),
        }
    }

    /// The lineage of the unit kind.
    pub fn line(self) -> (r: UnitLine)
        ensures
            r == self.spec_line(),
    {
        self.parts().1
    }

    /// The lineage id shared by both factions' versions of this unit.
    pub fn unit_id(self) -> (r: &'static str)
        ensures
            r@ == self.spec_line().spec_id(),
    {
        self.line().id()
    }

    /// The unit kind with the lineage named `unit_id`, of `faction`, and
    /// the rescuable variant when `rescuable` is set; `None` where the id
    /// names no lineage or no such variant exists.
    pub fn from_faction_and_unit_id(faction: PlayerFaction, unit_id: &str, rescuable: bool) -> (r:
        Option<Self>)
        ensures
            r == (match spec_line_from_id(unit_id@) {
                Some(line) => spec_kind_from_parts(faction, line, rescuable),
                None => None,
            }),
    {
        let line = match UnitLine::from_id(unit_id) {
            Some(line) => line,
            None => return None,
        };
        let pair = if rescuable {
            Self::paired_rescuable_kind_for_line(line)
        } else {
            Self::paired_kind_for_line(line)
        };
        match pair {
            Some((christian, muslim)) => Some(Self::select_by_faction(faction, christian, muslim)),
            None => None,
        }
    }

    fn select_by_faction(faction: PlayerFaction, christian: Self, muslim: Self) -> (r: Self)
        ensures
            r == (match faction {
                PlayerFaction::Christian => christian,
                PlayerFaction::Muslim => muslim,
            }),
    {
        match faction {
            PlayerFaction::Christian => christian,
            PlayerFaction::Muslim => muslim,
        }
    }

    /// The rescuable Christian and Muslim kinds of a lineage.
    fn paired_rescuable_kind_for_line(line: UnitLine) -> (r: Option<(Self, Self)>)
        ensures
            r == (if spec_kind_from_parts(PlayerFaction::Christian, line, true) is Some {
                Some((
                    spec_kind_of(Some(PlayerFaction::Christian), line, true),
                    spec_kind_of(Some(PlayerFaction::Muslim), line, true),
                ))
            } else {
                None
            }),
            r is Some <==> spec_kind_from_parts(PlayerFaction::Muslim, line, true) is Some,
    {
        match line {
            UnitLine::PeasantInfantry => Some((
                Self::RescuableChristianPeasantInfantry,
                Self::RescuableMuslimPeasantInfantry,
            )),
            UnitLine::PeasantArcher => Some((
                Self::RescuableChristianPeasantArcher,
                Self::RescuableMuslimPeasantArcher,
            )),
            UnitLine::PeasantPriest => Some((
                Self::RescuableChristianPeasantPriest,
                Self::RescuableMuslimPeasantPriest,
            )),
            _ => None,
        }
    }

    /// The Christian and Muslim kinds of a lineage.
    fn paired_kind_for_line(line: UnitLine) -> (r: Option<(Self, Self)>)
        ensures
            r == (if spec_kind_from_parts(PlayerFaction::Christian, line, false) is Some {
                Some((
                    spec_kind_of(Some(PlayerFaction::Christian), line, false),
                    spec_kind_of(Some(PlayerFaction::Muslim), line, false),
                ))
            } else {
                None
            }),
            r is Some <==> spec_kind_from_parts(PlayerFaction::Muslim, line, false) is Some,
    {
        match line {
            UnitLine::Commander => None,
            UnitLine::PeasantInfantry => Some((Self::ChristianPeasantInfantry, Self::MuslimPeasantInfantry)),
            UnitLine::PeasantArcher => Some((Self::ChristianPeasantArcher, Self::MuslimPeasantArcher)),
            UnitLine::PeasantPriest => Some((Self::ChristianPeasantPriest, Self::MuslimPeasantPriest)),
            UnitLine::MenAtArms => Some((Self::ChristianMenAtArms, Self::MuslimMenAtArms)),
            UnitLine::Bowman => Some((Self::ChristianBowman, Self::MuslimBowman)),
            UnitLine::Devoted => Some((Self::ChristianDevoted, Self::MuslimDevoted)),
            UnitLine::ShieldInfantry => Some((Self::ChristianShieldInfantry, Self::MuslimShieldInfantry)),
            UnitLine::Spearman => Some((Self::ChristianSpearman, Self::MuslimSpearman)),
            UnitLine::UnmountedKnight => Some((Self::ChristianUnmountedKnight, Self::MuslimUnmountedKnight)),
            UnitLine::Squire => Some((Self::ChristianSquire, Self::MuslimSquire)),
            UnitLine::ExperiencedBowman => Some((Self::ChristianExperiencedBowman, Self::MuslimExperiencedBowman)),
            UnitLine::Crossbowman => Some((Self::ChristianCrossbowman, Self::MuslimCrossbowman)),
            UnitLine::Tracker => Some((Self::ChristianTracker, Self::MuslimTracker)),
            UnitLine::Scout => Some((Self::ChristianScout, Self::MuslimScout)),
            UnitLine::DevotedOne => Some((Self::ChristianDevotedOne, Self::MuslimDevotedOne)),
            UnitLine::Fanatic => Some((Self::ChristianFanatic, Self::MuslimFanatic)),
            UnitLine::ExperiencedShieldInfantry => Some((Self::ChristianExperiencedShieldInfantry, Self::MuslimExperiencedShieldInfantry)),
            UnitLine::ShieldedSpearman => Some((Self::ChristianShieldedSpearman, Self::MuslimShieldedSpearman)),
            UnitLine::Knight => Some((Self::ChristianKnight, Self::MuslimKnight)),
            UnitLine::Bannerman => Some((Self::ChristianBannerman, Self::MuslimBannerman)),
            UnitLine::EliteBowman => Some((Self::ChristianEliteBowman, Self::MuslimEliteBowman)),
            UnitLine::ArmoredCrossbowman => Some((Self::ChristianArmoredCrossbowman, Self::MuslimArmoredCrossbowman)),
            UnitLine::Pathfinder => Some((Self::ChristianPathfinder, Self::MuslimPathfinder)),
            UnitLine::MountedScout => Some((Self::ChristianMountedScout, Self::MuslimMountedScout)),
            UnitLine::Cardinal => Some((Self::ChristianCardinal, Self::MuslimCardinal)),
            UnitLine::Flagellant => Some((Self::ChristianFlagellant, Self::MuslimFlagellant)),
            UnitLine::EliteShieldInfantry => Some((Self::ChristianEliteShieldInfantry, Self::MuslimEliteShieldInfantry)),
            UnitLine::Halberdier => Some((Self::ChristianHalberdier, Self::MuslimHalberdier)),
            UnitLine::HeavyKnight => Some((Self::ChristianHeavyKnight, Self::MuslimHeavyKnight)),
            UnitLine::EliteBannerman => Some((Self::ChristianEliteBannerman, Self::MuslimEliteBannerman)),
            UnitLine::Longbowman => Some((Self::ChristianLongbowman, Self::MuslimLongbowman)),
            UnitLine::EliteCrossbowman => Some((Self::ChristianEliteCrossbowman, Self::MuslimEliteCrossbowman)),
            UnitLine::Houndmaster => Some((Self::ChristianHoundmaster, Self::MuslimHoundmaster)),
            UnitLine::ShockCavalry => Some((Self::ChristianShockCavalry, Self::MuslimShockCavalry)),
            UnitLine::EliteCardinal => Some((Self::ChristianEliteCardinal, Self::MuslimEliteCardinal)),
            UnitLine::EliteFlagellant => Some((Self::ChristianEliteFlagellant, Self::MuslimEliteFlagellant)),
            UnitLine::CitadelGuard => Some((Self::ChristianCitadelGuard, Self::MuslimCitadelGuard)),
            UnitLine::ArmoredHalberdier => Some((Self::ChristianArmoredHalberdier, Self::MuslimArmoredHalberdier)),
            UnitLine::EliteHeavyKnight => Some((Self::ChristianEliteHeavyKnight, Self::MuslimEliteHeavyKnight)),
            UnitLine::GodsChosen => Some((Self::ChristianGodsChosen, Self::MuslimGodsChosen)),
            UnitLine::EliteLongbowman => Some((Self::ChristianEliteLongbowman, Self::MuslimEliteLongbowman)),
            UnitLine::SiegeCrossbowman => Some((Self::ChristianSiegeCrossbowman, Self::MuslimSiegeCrossbowman)),
            UnitLine::EliteHoundmaster => Some((Self::ChristianEliteHoundmaster, Self::MuslimEliteHoundmaster)),
            UnitLine::EliteShockCavalry => Some((Self::ChristianEliteShockCavalry, Self::MuslimEliteShockCavalry)),
            UnitLine::DivineSpeaker => Some((Self::ChristianDivineSpeaker, Self::MuslimDivineSpeaker)),
            UnitLine::DivineJudge => Some((Self::ChristianDivineJudge, Self::MuslimDivineJudge)),
        }
    }

    /// The rescuable variants of the three peasant recruits.
    pub fn is_rescuable_variant(self) -> (r: bool)
        ensures
            r == self.spec_parts().2,
    {
        self.parts().2
    }

    pub fn as_unit_ref(self) -> (r: UnitRef)
        ensures
            r.faction == self.spec_parts().0,
            r.unit_id@ == self.spec_line().spec_id(),
            r.rescuable == self.spec_parts().2,
    {
        UnitRef {
            faction: self.faction(),
            unit_id: self.unit_id(),
            rescuable: self.is_rescuable_variant(),
        }
    }

    /// The recruit archetype of the peasant units, rescuable or not.
    pub fn recruit_archetype(self) -> (r: Option<RecruitArchetype>)
        ensures
            r == self.spec_line().spec_recruit_archetype(),
    {
        self.line().recruit_archetype()
    }

    pub fn is_tracker_line(self) -> (r: bool)
        ensures
            r == self.spec_line().spec_is_tracker_line(),
    {
        self.line().is_tracker_line()
    }

    pub fn is_scout_line(self) -> (r: bool)
        ensures
            r == self.spec_line().spec_is_scout_line(),
    {
        self.line().is_scout_line()
    }

    pub fn is_fanatic_line(self) -> (r: bool)
        ensures
            r == self.spec_line().spec_is_fanatic_line(),
    {
        self.line().is_fanatic_line()
    }

    pub fn is_archer_line(self) -> (r: bool)
        ensures
            r == self.spec_line().spec_is_archer_line(),
    {
        self.line().is_archer_line()
    }

    pub fn is_support_priest_line(self) -> (r: bool)
        ensures
            r == self.spec_line().spec_is_support_priest_line(),
    {
        self.line().is_support_priest_line()
    }

    pub fn is_priest_family_line(self) -> (r: bool)
        ensures
            r == self.spec_line().spec_is_priest_family_line(),
    {
        self.is_support_priest_line() || self.is_fanatic_line()
    }

    pub fn is_block_infantry_line(self) -> (r: bool)
        ensures
            r == self.spec_line().spec_is_block_infantry_line(),
    {
        self.line().is_block_infantry_line()
    }

    pub fn has_shielded_trait(self) -> (r: bool)
        ensures
            r == self.spec_line().spec_has_shielded_trait(),
    {
        self.line().has_shielded_trait()
    }

    pub fn has_role_tag(self, tag: UnitRoleTag) -> (r: bool)
        ensures
            r == self.spec_line().spec_has_role_tag(tag),
    {
        self.line().has_role_tag(tag)
    }

    pub fn armor_class(self) -> (r: UnitArmorClass)
        ensures
            r == self.spec_line().spec_armor_class(),
    {
        self.line().armor_class()
    }

    /// The recruit tier of a friendly recruit; `None` for the commander and
    /// the rescuable variants.
    pub open spec fn spec_tier_hint(self) -> Option<u8> {
        if self.spec_is_friendly_recruit() {
            self.spec_line().spec_tier()
        } else {
            None
        }
    }

    pub fn tier_hint(self) -> (r: Option<u8>)
        ensures
            r == self.spec_tier_hint(),
    {
        if !self.is_friendly_recruit() {
            return None;
        }
        self.line().tier()
    }

    pub fn faction(self) -> (r: Option<PlayerFaction>)
        ensures
            r == self.spec_parts().0,
    {
        self.parts().0
    }

    /// Recruits that fight for a faction: every faction unit but the
    /// rescuable variants.
    pub open spec fn spec_is_friendly_recruit(self) -> bool {
        self.spec_parts().0 is Some && !self.spec_parts().2
    }

    pub fn is_friendly_recruit(self) -> (r: bool)
        ensures
            r == self.spec_is_friendly_recruit(),
    {
        let (faction, _, rescuable) = self.parts();
        faction.is_some() && !rescuable
    }

    /// The priests proper: friendly recruits of a support-priest lineage.
    pub open spec fn spec_is_priest(self) -> bool {
        self.spec_is_friendly_recruit() && self.spec_line().spec_is_support_priest_line()
    }

    pub fn is_priest(self) -> (r: bool)
        ensures
            r == self.spec_is_priest(),
    {
        self.is_friendly_recruit() && self.line().is_support_priest_line()
    }

    pub fn as_recruit_unit_kind(self) -> (r: Option<RecruitUnitKind>)
        ensures
            r == RecruitUnitKind::spec_from_unit_kind(self),
    {
        RecruitUnitKind::from_unit_kind(self)
    }
}

/// The unit kind assembled from a faction, a lineage and the rescuable
/// flag.  Meaningful only where such a kind exists (see
/// [`spec_kind_from_parts`]).
pub open spec fn spec_kind_of(faction: Option<PlayerFaction>, line: UnitLine, rescuable: bool) -> UnitKind {
    match line {
        UnitLine::Commander => UnitKind::Commander,
        UnitLine::PeasantInfantry => if rescuable {
            if faction == Some(PlayerFaction::Muslim) {
                UnitKind::RescuableMuslimPeasantInfantry
            } else {
                UnitKind::RescuableChristianPeasantInfantry
            }
        } else if faction == Some(PlayerFaction::Muslim) {
            UnitKind::MuslimPeasantInfantry
        } else {
            UnitKind::ChristianPeasantInfantry
        },
        UnitLine::PeasantArcher => if rescuable {
            if faction == Some(PlayerFaction::Muslim) {
                UnitKind::RescuableMuslimPeasantArcher
            } else {
                UnitKind::RescuableChristianPeasantArcher
            }
        } else if faction == Some(PlayerFaction::Muslim) {
            UnitKind::MuslimPeasantArcher
        } else {
            UnitKind::ChristianPeasantArcher
        },
        UnitLine::PeasantPriest => if rescuable {
            if faction == Some(PlayerFaction::Muslim) {
                UnitKind::RescuableMuslimPeasantPriest
            } else {
                UnitKind::RescuableChristianPeasantPriest
            }
        } else if faction == Some(PlayerFaction::Muslim) {
            UnitKind::MuslimPeasantPriest
        } else {
            UnitKind::ChristianPeasantPriest
        },
        UnitLine::MenAtArms => if faction == Some(PlayerFaction::Muslim) {
            UnitKind::MuslimMenAtArms
        } else {
            UnitKind::ChristianMenAtArms
        },
        UnitLine::Bowman => if faction == Some(PlayerFaction::Muslim) {
            UnitKind::MuslimBowman
        } else {
            UnitKind::ChristianBowman
        },
        UnitLine::Devoted => if faction == Some(PlayerFaction::Muslim) {
            UnitKind::MuslimDevoted
        } else {
            UnitKind::ChristianDevoted
        },
        UnitLine::ShieldInfantry => if faction == Some(PlayerFaction::Muslim) {
            UnitKind::MuslimShieldInfantry
        } else {
            UnitKind::ChristianShieldInfantry
        },
        UnitLine::Spearman => if faction == Some(PlayerFaction::Muslim) {
            UnitKind::MuslimSpearman
        } else {
            UnitKind::ChristianSpearman
        },
        UnitLine::UnmountedKnight => if faction == Some(PlayerFaction::Muslim) {
            UnitKind::MuslimUnmountedKnight
        } else {
            UnitKind::ChristianUnmountedKnight
        },
        UnitLine::Squire => if faction == Some(PlayerFaction::Muslim) {
            UnitKind::MuslimSquire
        } else {
            UnitKind::ChristianSquire
        },
        UnitLine::ExperiencedBowman => if faction == Some(PlayerFaction::Muslim) {
            UnitKind::MuslimExperiencedBowman
        } else {
            UnitKind::ChristianExperiencedBowman
        },
        UnitLine::Crossbowman => if faction == Some(PlayerFaction::Muslim) {
            UnitKind::MuslimCrossbowman
        } else {
            UnitKind::ChristianCrossbowman
        },
        UnitLine::Tracker => if faction == Some(PlayerFaction::Muslim) {
            UnitKind::MuslimTracker
        } else {
            UnitKind::ChristianTracker
        },
        UnitLine::Scout => if faction == Some(PlayerFaction::Muslim) {
            UnitKind::MuslimScout
        } else {
            UnitKind::ChristianScout
        },
        UnitLine::DevotedOne => if faction == Some(PlayerFaction::Muslim) {
            UnitKind::MuslimDevotedOne
        } else {
            UnitKind::ChristianDevotedOne
        },
        UnitLine::Fanatic => if faction == Some(PlayerFaction::Muslim) {
            UnitKind::MuslimFanatic
        } else {
            UnitKind::ChristianFanatic
        },
        UnitLine::ExperiencedShieldInfantry => if faction == Some(PlayerFaction::Muslim) {
            UnitKind::MuslimExperiencedShieldInfantry
        } else {
            UnitKind::ChristianExperiencedShieldInfantry
        },
        UnitLine::ShieldedSpearman => if faction == Some(PlayerFaction::Muslim) {
            UnitKind::MuslimShieldedSpearman
        } else {
            UnitKind::ChristianShieldedSpearman
        },
        UnitLine::Knight => if faction == Some(PlayerFaction::Muslim) {
            UnitKind::MuslimKnight
        } else {
            UnitKind::ChristianKnight
        },
        UnitLine::Bannerman => if faction == Some(PlayerFaction::Muslim) {
            UnitKind::MuslimBannerman
        } else {
            UnitKind::ChristianBannerman
        },
        UnitLine::EliteBowman => if faction == Some(PlayerFaction::Muslim) {
            UnitKind::MuslimEliteBowman
        } else {
            UnitKind::ChristianEliteBowman
        },
        UnitLine::ArmoredCrossbowman => if faction == Some(PlayerFaction::Muslim) {
            UnitKind::MuslimArmoredCrossbowman
        } else {
            UnitKind::ChristianArmoredCrossbowman
        },
        UnitLine::Pathfinder => if faction == Some(PlayerFaction::Muslim) {
            UnitKind::MuslimPathfinder
        } else {
            UnitKind::ChristianPathfinder
        },
        UnitLine::MountedScout => if faction == Some(PlayerFaction::Muslim) {
            UnitKind::MuslimMountedScout
        } else {
            UnitKind::ChristianMountedScout
        },
        UnitLine::Cardinal => if faction == Some(PlayerFaction::Muslim) {
            UnitKind::MuslimCardinal
        } else {
            UnitKind::ChristianCardinal
        },
        UnitLine::Flagellant => if faction == Some(PlayerFaction::Muslim) {
            UnitKind::MuslimFlagellant
        } else {
            UnitKind::ChristianFlagellant
        },
        UnitLine::EliteShieldInfantry => if faction == Some(PlayerFaction::Muslim) {
            UnitKind::MuslimEliteShieldInfantry
        } else {
            UnitKind::ChristianEliteShieldInfantry
        },
        UnitLine::Halberdier => if faction == Some(PlayerFaction::Muslim) {
            UnitKind::MuslimHalberdier
        } else {
            UnitKind::ChristianHalberdier
        },
        UnitLine::HeavyKnight => if faction == Some(PlayerFaction::Muslim) {
            UnitKind::MuslimHeavyKnight
        } else {
            UnitKind::ChristianHeavyKnight
        },
        UnitLine::EliteBannerman => if faction == Some(PlayerFaction::Muslim) {
            UnitKind::MuslimEliteBannerman
        } else {
            UnitKind::ChristianEliteBannerman
        },
        UnitLine::Longbowman => if faction == Some(PlayerFaction::Muslim) {
            UnitKind::MuslimLongbowman
        } else {
            UnitKind::ChristianLongbowman
        },
        UnitLine::EliteCrossbowman => if faction == Some(PlayerFaction::Muslim) {
            UnitKind::MuslimEliteCrossbowman
        } else {
            UnitKind::ChristianEliteCrossbowman
        },
        UnitLine::Houndmaster => if faction == Some(PlayerFaction::Muslim) {
            UnitKind::MuslimHoundmaster
        } else {
            UnitKind::ChristianHoundmaster
        },
        UnitLine::ShockCavalry => if faction == Some(PlayerFaction::Muslim) {
            UnitKind::MuslimShockCavalry
        } else {
            UnitKind::ChristianShockCavalry
        },
        UnitLine::EliteCardinal => if faction == Some(PlayerFaction::Muslim) {
            UnitKind::MuslimEliteCardinal
        } else {
            UnitKind::ChristianEliteCardinal
        },
        UnitLine::EliteFlagellant => if faction == Some(PlayerFaction::Muslim) {
            UnitKind::MuslimEliteFlagellant
        } else {
            UnitKind::ChristianEliteFlagellant
        },
        UnitLine::CitadelGuard => if faction == Some(PlayerFaction::Muslim) {
            UnitKind::MuslimCitadelGuard
        } else {
            UnitKind::ChristianCitadelGuard
        },
        UnitLine::ArmoredHalberdier => if faction == Some(PlayerFaction::Muslim) {
            UnitKind::MuslimArmoredHalberdier
        } else {
            UnitKind::ChristianArmoredHalberdier
        },
        UnitLine::EliteHeavyKnight => if faction == Some(PlayerFaction::Muslim) {
            UnitKind::MuslimEliteHeavyKnight
        } else {
            UnitKind::ChristianEliteHeavyKnight
        },
        UnitLine::GodsChosen => if faction == Some(PlayerFaction::Muslim) {
            UnitKind::MuslimGodsChosen
        } else {
            UnitKind::ChristianGodsChosen
        },
        UnitLine::EliteLongbowman => if faction == Some(PlayerFaction::Muslim) {
            UnitKind::MuslimEliteLongbowman
        } else {
            UnitKind::ChristianEliteLongbowman
        },
        UnitLine::SiegeCrossbowman => if faction == Some(PlayerFaction::Muslim) {
            UnitKind::MuslimSiegeCrossbowman
        } else {
            UnitKind::ChristianSiegeCrossbowman
        },
        UnitLine::EliteHoundmaster => if faction == Some(PlayerFaction::Muslim) {
            UnitKind::MuslimEliteHoundmaster
        } else {
            UnitKind::ChristianEliteHoundmaster
        },
        UnitLine::EliteShockCavalry => if faction == Some(PlayerFaction::Muslim) {
            UnitKind::MuslimEliteShockCavalry
        } else {
            UnitKind::ChristianEliteShockCavalry
        },
        UnitLine::DivineSpeaker => if faction == Some(PlayerFaction::Muslim) {
            UnitKind::MuslimDivineSpeaker
        } else {
            UnitKind::ChristianDivineSpeaker
        },
        UnitLine::DivineJudge => if faction == Some(PlayerFaction::Muslim) {
            UnitKind::MuslimDivineJudge
        } else {
            UnitKind::ChristianDivineJudge
        },
    }
}

/// The faction unit of `faction` with lineage `line`, rescuable or not,
/// where such a kind exists.
pub open spec fn spec_kind_from_parts(faction: PlayerFaction, line: UnitLine, rescuable: bool) -> Option<UnitKind> {
    let k = spec_kind_of(Some(faction), line, rescuable);
    if k.spec_parts() == (Some(faction), line, rescuable) {
        Some(k)
    } else {
        None
    }
}

/// A unit kind is assembled back from its parts.
pub proof fn lemma_kind_of_parts(k: UnitKind)
    ensures
        spec_kind_of(k.spec_parts().0, k.spec_parts().1, k.spec_parts().2) == k,
{
}

/// Two unit kinds with the same parts are the same kind.
pub proof fn lemma_parts_injective(a: UnitKind, b: UnitKind)
    ensures
        a.spec_parts() == b.spec_parts() ==> a == b,
{
    lemma_kind_of_parts(a);
    lemma_kind_of_parts(b);
}

/// Resolving a faction unit by its faction, its lineage id and its
/// rescuable flag gives back that unit; the commander, which has no
/// faction, is not resolved this way.
pub proof fn lemma_unit_id_round_trip(k: UnitKind)
    requires
        k.spec_parts().0 is Some,
    ensures
        (match spec_line_from_id(k.spec_line().spec_id()) {
            Some(line) => spec_kind_from_parts(k.spec_parts().0.unwrap(), line, k.spec_parts().2),
            None => None,
        }) == Some(k),
{
    lemma_line_id_round_trip(k.spec_line(), k.spec_line().spec_id());
    lemma_kind_of_parts(k);
}

/// A unit on the field.
#[derive(Clone, Copy, Debug)]
pub struct Unit {
    pub team: Team,
    pub kind: UnitKind,
    pub level: u32,
}

/// The tier a unit was recruited at.
#[derive(Clone, Copy, Debug)]
pub struct UnitTier(pub u8);

/// The modal screens that can open over a run.
#[derive(Clone, Copy, Debug, PartialEq, Eq, Hash, Structural)]
pub enum RunModalScreen {
    Inventory,
    Chest,
    Stats,
    SkillBook,
    Archive,
    UnitUpgrade,
}

/// Which modal, if any, is open over the run.
#[derive(Clone, Copy, Debug, PartialEq, Eq, Structural)]
pub enum RunModalState {
    Closed,
    Open(RunModalScreen),
}

impl Default for RunModalState {
    fn default() -> (r: Self)
        ensures
            r == RunModalState::Closed,
    {
        RunModalState::Closed
    }
}

impl RunModalState {
    pub fn is_open(self) -> (r: bool)
        ensures
            r == (self is Open),
    {
        match self {
            RunModalState::Open(_) => true,
            RunModalState::Closed => false,
        }
    }
}

/// A request to change the open modal.
#[derive(Clone, Copy, Debug, PartialEq, Eq, Structural)]
pub enum RunModalAction {
    Open(RunModalScreen),
    Toggle(RunModalScreen),
    Close,
}

/// The event that carries a [`RunModalAction`].
#[derive(Clone, Copy, Debug, PartialEq, Eq, Structural)]
pub struct RunModalRequestEvent {
    pub action: RunModalAction,
}

/// Sent when a run begins.
#[derive(Clone, Copy, Debug, Default)]
pub struct StartRunEvent;

/// The floating texts a hit can produce.
#[derive(Clone, Copy, Debug, PartialEq, Eq, Structural)]
pub enum DamageTextKind {
    Blocked,
    CriticalHit,
}

/// The highest level a commander can reach.
pub const MAX_COMMANDER_LEVEL: u32 = 100;

/// The level cap left once `locked_levels` levels are locked away.
pub fn level_cap_from_locked_budget(locked_levels: u32) -> (r: u32)
    ensures
        r == (if locked_levels <= MAX_COMMANDER_LEVEL { (MAX_COMMANDER_LEVEL - locked_levels) as u32 } else { 0 }),
{
    MAX_COMMANDER_LEVEL.saturating_sub(locked_levels)
}

} // verus!
