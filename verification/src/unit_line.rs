//! Unit lineages: the identity a unit shares with its counterpart of the
//! other faction, named by a snake-case id such as `"peasant_archer"`.
//! Every trait of a unit that does not depend on its faction (role tags,
//! armour class, tier) is a property of its lineage.
use vstd::prelude::*;

use crate::model::{RecruitArchetype, UnitArmorClass, UnitRoleTag};
use crate::text::str_eq;

verus! {

/// The lineage of a unit kind, shared by both factions.
#[derive(Clone, Copy, Debug, PartialEq, Eq, Hash, Structural)]
pub enum UnitLine {
    Commander,
    PeasantInfantry,
    PeasantArcher,
    PeasantPriest,
    MenAtArms,
    Bowman,
    Devoted,
    ShieldInfantry,
    Spearman,
    UnmountedKnight,
    Squire,
    ExperiencedBowman,
    Crossbowman,
    Tracker,
    Scout,
    DevotedOne,
    Fanatic,
    ExperiencedShieldInfantry,
    ShieldedSpearman,
    Knight,
    Bannerman,
    EliteBowman,
    ArmoredCrossbowman,
    Pathfinder,
    MountedScout,
    Cardinal,
    Flagellant,
    EliteShieldInfantry,
    Halberdier,
    HeavyKnight,
    EliteBannerman,
    Longbowman,
    EliteCrossbowman,
    Houndmaster,
    ShockCavalry,
    EliteCardinal,
    EliteFlagellant,
    CitadelGuard,
    ArmoredHalberdier,
    EliteHeavyKnight,
    GodsChosen,
    EliteLongbowman,
    SiegeCrossbowman,
    EliteHoundmaster,
    EliteShockCavalry,
    DivineSpeaker,
    DivineJudge,
}

impl UnitLine {
    /// The lineage's id, as written in the config files.
    pub open spec fn spec_id(self) -> Seq<char> {
        match self {
            UnitLine::Commander => "commander"@,
            UnitLine::PeasantInfantry => "peasant_infantry"@,
            UnitLine::PeasantArcher => "peasant_archer"@,
            UnitLine::PeasantPriest => "peasant_priest"@,
            UnitLine::MenAtArms => "men_at_arms"@,
            UnitLine::Bowman => "bowman"@,
            UnitLine::Devoted => "devoted"@,
            UnitLine::ShieldInfantry => "shield_infantry"@,
            UnitLine::Spearman => "spearman"@,
            UnitLine::UnmountedKnight => "unmounted_knight"@,
            UnitLine::Squire => "squire"@,
            UnitLine::ExperiencedBowman => "experienced_bowman"@,
            UnitLine::Crossbowman => "crossbowman"@,
            UnitLine::Tracker => "tracker"@,
            UnitLine::Scout => "scout"@,
            UnitLine::DevotedOne => "devoted_one"@,
            UnitLine::Fanatic => "fanatic"@,
            UnitLine::ExperiencedShieldInfantry => "experienced_shield_infantry"@,
            UnitLine::ShieldedSpearman => "shielded_spearman"@,
            UnitLine::Knight => "knight"@,
            UnitLine::Bannerman => "bannerman"@,
            UnitLine::EliteBowman => "elite_bowman"@,
            UnitLine::ArmoredCrossbowman => "armored_crossbowman"@,
            UnitLine::Pathfinder => "pathfinder"@,
            UnitLine::MountedScout => "mounted_scout"@,
            UnitLine::Cardinal => "cardinal"@,
            UnitLine::Flagellant => "flagellant"@,
            UnitLine::EliteShieldInfantry => "elite_shield_infantry"@,
            UnitLine::Halberdier => "halberdier"@,
            UnitLine::HeavyKnight => "heavy_knight"@,
            UnitLine::EliteBannerman => "elite_bannerman"@,
            UnitLine::Longbowman => "longbowman"@,
            UnitLine::EliteCrossbowman => "elite_crossbowman"@,
            UnitLine::Houndmaster => "houndmaster"@,
            UnitLine::ShockCavalry => "shock_cavalry"@,
            UnitLine::EliteCardinal => "elite_cardinal"@,
            UnitLine::EliteFlagellant => "elite_flagellant"@,
            UnitLine::CitadelGuard => "citadel_guard"@,
            UnitLine::ArmoredHalberdier => "armored_halberdier"@,
            UnitLine::EliteHeavyKnight => "elite_heavy_knight"@,
            UnitLine::GodsChosen => "gods_chosen"@,
            UnitLine::EliteLongbowman => "elite_longbowman"@,
            UnitLine::SiegeCrossbowman => "siege_crossbowman"@,
            UnitLine::EliteHoundmaster => "elite_houndmaster"@,
            UnitLine::EliteShockCavalry => "elite_shock_cavalry"@,
            UnitLine::DivineSpeaker => "divine_speaker"@,
            UnitLine::DivineJudge => "divine_judge"@,
        }
    }

    /// Executable form of [`UnitLine::spec_id`].
    pub fn id(self) -> (r: &'static str)
        ensures
            r@ == self.spec_id(),
    {
        match self {
            UnitLine::Commander => "commander",
            UnitLine::PeasantInfantry => "peasant_infantry",
            UnitLine::PeasantArcher => "peasant_archer",
            UnitLine::PeasantPriest => "peasant_priest",
            UnitLine::MenAtArms => "men_at_arms",
            UnitLine::Bowman => "bowman",
            UnitLine::Devoted => "devoted",
            UnitLine::ShieldInfantry => "shield_infantry",
            UnitLine::Spearman => "spearman",
            UnitLine::UnmountedKnight => "unmounted_knight",
            UnitLine::Squire => "squire",
            UnitLine::ExperiencedBowman => "experienced_bowman",
            UnitLine::Crossbowman => "crossbowman",
            UnitLine::Tracker => "tracker",
            UnitLine::Scout => "scout",
            UnitLine::DevotedOne => "devoted_one",
            UnitLine::Fanatic => "fanatic",
            UnitLine::ExperiencedShieldInfantry => "experienced_shield_infantry",
            UnitLine::ShieldedSpearman => "shielded_spearman",
            UnitLine::Knight => "knight",
            UnitLine::Bannerman => "bannerman",
            UnitLine::EliteBowman => "elite_bowman",
            UnitLine::ArmoredCrossbowman => "armored_crossbowman",
            UnitLine::Pathfinder => "pathfinder",
            UnitLine::MountedScout => "mounted_scout",
            UnitLine::Cardinal => "cardinal",
            UnitLine::Flagellant => "flagellant",
            UnitLine::EliteShieldInfantry => "elite_shield_infantry",
            UnitLine::Halberdier => "halberdier",
            UnitLine::HeavyKnight => "heavy_knight",
            UnitLine::EliteBannerman => "elite_bannerman",
            UnitLine::Longbowman => "longbowman",
            UnitLine::EliteCrossbowman => "elite_crossbowman",
            UnitLine::Houndmaster => "houndmaster",
            UnitLine::ShockCavalry => "shock_cavalry",
            UnitLine::EliteCardinal => "elite_cardinal",
            UnitLine::EliteFlagellant => "elite_flagellant",
            UnitLine::CitadelGuard => "citadel_guard",
            UnitLine::ArmoredHalberdier => "armored_halberdier",
            UnitLine::EliteHeavyKnight => "elite_heavy_knight",
            UnitLine::GodsChosen => "gods_chosen",
            UnitLine::EliteLongbowman => "elite_longbowman",
            UnitLine::SiegeCrossbowman => "siege_crossbowman",
            UnitLine::EliteHoundmaster => "elite_houndmaster",
            UnitLine::EliteShockCavalry => "elite_shock_cavalry",
            UnitLine::DivineSpeaker => "divine_speaker",
            UnitLine::DivineJudge => "divine_judge",
        }
    }

    /// The lineage whose id is `s`, if any.
    pub fn from_id(s: &str) -> (r: Option<UnitLine>)
        ensures
            r == spec_line_from_id(s@),
    {
        if str_eq(s, "commander") {
            proof { lemma_line_for_sig_of_id(UnitLine::Commander); }
            return Some(UnitLine::Commander);
        }
        if str_eq(s, "peasant_infantry") {
            proof { lemma_line_for_sig_of_id(UnitLine::PeasantInfantry); }
            return Some(UnitLine::PeasantInfantry);
        }
        if str_eq(s, "peasant_archer") {
            proof { lemma_line_for_sig_of_id(UnitLine::PeasantArcher); }
            return Some(UnitLine::PeasantArcher);
        }
        if str_eq(s, "peasant_priest") {
            proof { lemma_line_for_sig_of_id(UnitLine::PeasantPriest); }
            return Some(UnitLine::PeasantPriest);
        }
        if str_eq(s, "men_at_arms") {
            proof { lemma_line_for_sig_of_id(UnitLine::MenAtArms); }
            return Some(UnitLine::MenAtArms);
        }
        if str_eq(s, "bowman") {
            proof { lemma_line_for_sig_of_id(UnitLine::Bowman); }
            return Some(UnitLine::Bowman);
        }
        if str_eq(s, "devoted") {
            proof { lemma_line_for_sig_of_id(UnitLine::Devoted); }
            return Some(UnitLine::Devoted);
        }
        if str_eq(s, "shield_infantry") {
            proof { lemma_line_for_sig_of_id(UnitLine::ShieldInfantry); }
            return Some(UnitLine::ShieldInfantry);
        }
        if str_eq(s, "spearman") {
            proof { lemma_line_for_sig_of_id(UnitLine::Spearman); }
            return Some(UnitLine::Spearman);
        }
        if str_eq(s, "unmounted_knight") {
            proof { lemma_line_for_sig_of_id(UnitLine::UnmountedKnight); }
            return Some(UnitLine::UnmountedKnight);
        }
        if str_eq(s, "squire") {
            proof { lemma_line_for_sig_of_id(UnitLine::Squire); }
            return Some(UnitLine::Squire);
        }
        if str_eq(s, "experienced_bowman") {
            proof { lemma_line_for_sig_of_id(UnitLine::ExperiencedBowman); }
            return Some(UnitLine::ExperiencedBowman);
        }
        if str_eq(s, "crossbowman") {
            proof { lemma_line_for_sig_of_id(UnitLine::Crossbowman); }
            return Some(UnitLine::Crossbowman);
        }
        if str_eq(s, "tracker") {
            proof { lemma_line_for_sig_of_id(UnitLine::Tracker); }
            return Some(UnitLine::Tracker);
        }
        if str_eq(s, "scout") {
            proof { lemma_line_for_sig_of_id(UnitLine::Scout); }
            return Some(UnitLine::Scout);
        }
        if str_eq(s, "devoted_one") {
            proof { lemma_line_for_sig_of_id(UnitLine::DevotedOne); }
            return Some(UnitLine::DevotedOne);
        }
        if str_eq(s, "fanatic") {
            proof { lemma_line_for_sig_of_id(UnitLine::Fanatic); }
            return Some(UnitLine::Fanatic);
        }
        if str_eq(s, "experienced_shield_infantry") {
            proof { lemma_line_for_sig_of_id(UnitLine::ExperiencedShieldInfantry); }
            return Some(UnitLine::ExperiencedShieldInfantry);
        }
        if str_eq(s, "shielded_spearman") {
            proof { lemma_line_for_sig_of_id(UnitLine::ShieldedSpearman); }
            return Some(UnitLine::ShieldedSpearman);
        }
        if str_eq(s, "knight") {
            proof { lemma_line_for_sig_of_id(UnitLine::Knight); }
            return Some(UnitLine::Knight);
        }
        if str_eq(s, "bannerman") {
            proof { lemma_line_for_sig_of_id(UnitLine::Bannerman); }
            return Some(UnitLine::Bannerman);
        }
        if str_eq(s, "elite_bowman") {
            proof { lemma_line_for_sig_of_id(UnitLine::EliteBowman); }
            return Some(UnitLine::EliteBowman);
        }
        if str_eq(s, "armored_crossbowman") {
            proof { lemma_line_for_sig_of_id(UnitLine::ArmoredCrossbowman); }
            return Some(UnitLine::ArmoredCrossbowman);
        }
        if str_eq(s, "pathfinder") {
            proof { lemma_line_for_sig_of_id(UnitLine::Pathfinder); }
            return Some(UnitLine::Pathfinder);
        }
        if str_eq(s, "mounted_scout") {
            proof { lemma_line_for_sig_of_id(UnitLine::MountedScout); }
            return Some(UnitLine::MountedScout);
        }
        if str_eq(s, "cardinal") {
            proof { lemma_line_for_sig_of_id(UnitLine::Cardinal); }
            return Some(UnitLine::Cardinal);
        }
        if str_eq(s, "flagellant") {
            proof { lemma_line_for_sig_of_id(UnitLine::Flagellant); }
            return Some(UnitLine::Flagellant);
        }
        if str_eq(s, "elite_shield_infantry") {
            proof { lemma_line_for_sig_of_id(UnitLine::EliteShieldInfantry); }
            return Some(UnitLine::EliteShieldInfantry);
        }
        if str_eq(s, "halberdier") {
            proof { lemma_line_for_sig_of_id(UnitLine::Halberdier); }
            return Some(UnitLine::Halberdier);
        }
        if str_eq(s, "heavy_knight") {
            proof { lemma_line_for_sig_of_id(UnitLine::HeavyKnight); }
            return Some(UnitLine::HeavyKnight);
        }
        if str_eq(s, "elite_bannerman") {
            proof { lemma_line_for_sig_of_id(UnitLine::EliteBannerman); }
            return Some(UnitLine::EliteBannerman);
        }
        if str_eq(s, "longbowman") {
            proof { lemma_line_for_sig_of_id(UnitLine::Longbowman); }
            return Some(UnitLine::Longbowman);
        }
        if str_eq(s, "elite_crossbowman") {
            proof { lemma_line_for_sig_of_id(UnitLine::EliteCrossbowman); }
            return Some(UnitLine::EliteCrossbowman);
        }
        if str_eq(s, "houndmaster") {
            proof { lemma_line_for_sig_of_id(UnitLine::Houndmaster); }
            return Some(UnitLine::Houndmaster);
        }
        if str_eq(s, "shock_cavalry") {
            proof { lemma_line_for_sig_of_id(UnitLine::ShockCavalry); }
            return Some(UnitLine::ShockCavalry);
        }
        if str_eq(s, "elite_cardinal") {
            proof { lemma_line_for_sig_of_id(UnitLine::EliteCardinal); }
            return Some(UnitLine::EliteCardinal);
        }
        if str_eq(s, "elite_flagellant") {
            proof { lemma_line_for_sig_of_id(UnitLine::EliteFlagellant); }
            return Some(UnitLine::EliteFlagellant);
        }
        if str_eq(s, "citadel_guard") {
            proof { lemma_line_for_sig_of_id(UnitLine::CitadelGuard); }
            return Some(UnitLine::CitadelGuard);
        }
        if str_eq(s, "armored_halberdier") {
            proof { lemma_line_for_sig_of_id(UnitLine::ArmoredHalberdier); }
            return Some(UnitLine::ArmoredHalberdier);
        }
        if str_eq(s, "elite_heavy_knight") {
            proof { lemma_line_for_sig_of_id(UnitLine::EliteHeavyKnight); }
            return Some(UnitLine::EliteHeavyKnight);
        }
        if str_eq(s, "gods_chosen") {
            proof { lemma_line_for_sig_of_id(UnitLine::GodsChosen); }
            return Some(UnitLine::GodsChosen);
        }
        if str_eq(s, "elite_longbowman") {
            proof { lemma_line_for_sig_of_id(UnitLine::EliteLongbowman); }
            return Some(UnitLine::EliteLongbowman);
        }
        if str_eq(s, "siege_crossbowman") {
            proof { lemma_line_for_sig_of_id(UnitLine::SiegeCrossbowman); }
            return Some(UnitLine::SiegeCrossbowman);
        }
        if str_eq(s, "elite_houndmaster") {
            proof { lemma_line_for_sig_of_id(UnitLine::EliteHoundmaster); }
            return Some(UnitLine::EliteHoundmaster);
        }
        if str_eq(s, "elite_shock_cavalry") {
            proof { lemma_line_for_sig_of_id(UnitLine::EliteShockCavalry); }
            return Some(UnitLine::EliteShockCavalry);
        }
        if str_eq(s, "divine_speaker") {
            proof { lemma_line_for_sig_of_id(UnitLine::DivineSpeaker); }
            return Some(UnitLine::DivineSpeaker);
        }
        if str_eq(s, "divine_judge") {
            proof { lemma_line_for_sig_of_id(UnitLine::DivineJudge); }
            return Some(UnitLine::DivineJudge);
        }
        proof {
            let o = line_for_sig(id_sig(s@));
            if let Some(l) = o {
                assert(l.spec_id() != s@);
            }
        }
        None
    }

    /// Trackers and their upgrades.
    pub open spec fn spec_is_tracker_line(self) -> bool {
        matches!(self, UnitLine::Tracker | UnitLine::Pathfinder | UnitLine::Houndmaster | UnitLine::EliteHoundmaster)
    }

    /// Executable form of [`UnitLine::spec_is_tracker_line`].
    pub fn is_tracker_line(self) -> (r: bool)
        ensures
            r == self.spec_is_tracker_line(),
    {
        matches!(self, UnitLine::Tracker | UnitLine::Pathfinder | UnitLine::Houndmaster | UnitLine::EliteHoundmaster)
    }

    /// Scouts and their mounted upgrades.
    pub open spec fn spec_is_scout_line(self) -> bool {
        matches!(self, UnitLine::Scout | UnitLine::MountedScout | UnitLine::ShockCavalry | UnitLine::EliteShockCavalry)
    }

    /// Executable form of [`UnitLine::spec_is_scout_line`].
    pub fn is_scout_line(self) -> (r: bool)
        ensures
            r == self.spec_is_scout_line(),
    {
        matches!(self, UnitLine::Scout | UnitLine::MountedScout | UnitLine::ShockCavalry | UnitLine::EliteShockCavalry)
    }

    /// Fanatics and their upgrades.
    pub open spec fn spec_is_fanatic_line(self) -> bool {
        matches!(self, UnitLine::Fanatic | UnitLine::Flagellant | UnitLine::EliteFlagellant | UnitLine::DivineJudge)
    }

    /// Executable form of [`UnitLine::spec_is_fanatic_line`].
    pub fn is_fanatic_line(self) -> (r: bool)
        ensures
            r == self.spec_is_fanatic_line(),
    {
        matches!(self, UnitLine::Fanatic | UnitLine::Flagellant | UnitLine::EliteFlagellant | UnitLine::DivineJudge)
    }

    /// Every lineage that shoots: bows, crossbows, trackers and scouts.
    pub open spec fn spec_is_archer_line(self) -> bool {
        matches!(self, UnitLine::PeasantArcher | UnitLine::Bowman | UnitLine::ExperiencedBowman | UnitLine::EliteBowman | UnitLine::Longbowman | UnitLine::EliteLongbowman | UnitLine::Crossbowman | UnitLine::ArmoredCrossbowman | UnitLine::EliteCrossbowman | UnitLine::SiegeCrossbowman | UnitLine::Tracker | UnitLine::Pathfinder | UnitLine::Houndmaster | UnitLine::EliteHoundmaster | UnitLine::Scout | UnitLine::MountedScout | UnitLine::ShockCavalry | UnitLine::EliteShockCavalry)
    }

    /// Executable form of [`UnitLine::spec_is_archer_line`].
    pub fn is_archer_line(self) -> (r: bool)
        ensures
            r == self.spec_is_archer_line(),
    {
        matches!(self, UnitLine::PeasantArcher | UnitLine::Bowman | UnitLine::ExperiencedBowman | UnitLine::EliteBowman | UnitLine::Longbowman | UnitLine::EliteLongbowman | UnitLine::Crossbowman | UnitLine::ArmoredCrossbowman | UnitLine::EliteCrossbowman | UnitLine::SiegeCrossbowman | UnitLine::Tracker | UnitLine::Pathfinder | UnitLine::Houndmaster | UnitLine::EliteHoundmaster | UnitLine::Scout | UnitLine::MountedScout | UnitLine::ShockCavalry | UnitLine::EliteShockCavalry)
    }

    /// The supporting priest lineages.
    pub open spec fn spec_is_support_priest_line(self) -> bool {
        matches!(self, UnitLine::PeasantPriest | UnitLine::Devoted | UnitLine::Squire | UnitLine::Bannerman | UnitLine::EliteBannerman | UnitLine::GodsChosen | UnitLine::DevotedOne | UnitLine::Cardinal | UnitLine::EliteCardinal | UnitLine::DivineSpeaker)
    }

    /// Executable form of [`UnitLine::spec_is_support_priest_line`].
    pub fn is_support_priest_line(self) -> (r: bool)
        ensures
            r == self.spec_is_support_priest_line(),
    {
        matches!(self, UnitLine::PeasantPriest | UnitLine::Devoted | UnitLine::Squire | UnitLine::Bannerman | UnitLine::EliteBannerman | UnitLine::GodsChosen | UnitLine::DevotedOne | UnitLine::Cardinal | UnitLine::EliteCardinal | UnitLine::DivineSpeaker)
    }

    /// The infantry that holds a block of the formation.
    pub open spec fn spec_is_block_infantry_line(self) -> bool {
        matches!(self, UnitLine::PeasantInfantry | UnitLine::MenAtArms | UnitLine::ShieldInfantry | UnitLine::ExperiencedShieldInfantry | UnitLine::EliteShieldInfantry | UnitLine::Spearman | UnitLine::ShieldedSpearman | UnitLine::Halberdier | UnitLine::UnmountedKnight | UnitLine::Knight | UnitLine::HeavyKnight | UnitLine::CitadelGuard | UnitLine::ArmoredHalberdier | UnitLine::EliteHeavyKnight)
    }

    /// Executable form of [`UnitLine::spec_is_block_infantry_line`].
    pub fn is_block_infantry_line(self) -> (r: bool)
        ensures
            r == self.spec_is_block_infantry_line(),
    {
        matches!(self, UnitLine::PeasantInfantry | UnitLine::MenAtArms | UnitLine::ShieldInfantry | UnitLine::ExperiencedShieldInfantry | UnitLine::EliteShieldInfantry | UnitLine::Spearman | UnitLine::ShieldedSpearman | UnitLine::Halberdier | UnitLine::UnmountedKnight | UnitLine::Knight | UnitLine::HeavyKnight | UnitLine::CitadelGuard | UnitLine::ArmoredHalberdier | UnitLine::EliteHeavyKnight)
    }

    /// The lineages that carry shields.
    pub open spec fn spec_has_shielded_trait(self) -> bool {
        matches!(self, UnitLine::PeasantInfantry | UnitLine::ShieldInfantry | UnitLine::ExperiencedShieldInfantry | UnitLine::EliteShieldInfantry | UnitLine::ShieldedSpearman | UnitLine::CitadelGuard)
    }

    /// Executable form of [`UnitLine::spec_has_shielded_trait`].
    pub fn has_shielded_trait(self) -> (r: bool)
        ensures
            r == self.spec_has_shielded_trait(),
    {
        matches!(self, UnitLine::PeasantInfantry | UnitLine::ShieldInfantry | UnitLine::ExperiencedShieldInfantry | UnitLine::EliteShieldInfantry | UnitLine::ShieldedSpearman | UnitLine::CitadelGuard)
    }

    /// Lineages tagged [`UnitRoleTag::Frontline`].
    pub open spec fn spec_is_frontline(self) -> bool {
        matches!(self, UnitLine::PeasantInfantry | UnitLine::MenAtArms | UnitLine::ShieldInfantry | UnitLine::ExperiencedShieldInfantry | UnitLine::EliteShieldInfantry | UnitLine::UnmountedKnight | UnitLine::Knight | UnitLine::HeavyKnight | UnitLine::EliteHeavyKnight | UnitLine::CitadelGuard)
    }

    /// Executable form of [`UnitLine::spec_is_frontline`].
    pub fn is_frontline(self) -> (r: bool)
        ensures
            r == self.spec_is_frontline(),
    {
        matches!(self, UnitLine::PeasantInfantry | UnitLine::MenAtArms | UnitLine::ShieldInfantry | UnitLine::ExperiencedShieldInfantry | UnitLine::EliteShieldInfantry | UnitLine::UnmountedKnight | UnitLine::Knight | UnitLine::HeavyKnight | UnitLine::EliteHeavyKnight | UnitLine::CitadelGuard)
    }

    /// Lineages tagged [`UnitRoleTag::AntiCavalry`].
    pub open spec fn spec_is_anti_cavalry(self) -> bool {
        matches!(self, UnitLine::Spearman | UnitLine::ShieldedSpearman | UnitLine::Halberdier | UnitLine::ArmoredHalberdier)
    }

    /// Executable form of [`UnitLine::spec_is_anti_cavalry`].
    pub fn is_anti_cavalry(self) -> (r: bool)
        ensures
            r == self.spec_is_anti_cavalry(),
    {
        matches!(self, UnitLine::Spearman | UnitLine::ShieldedSpearman | UnitLine::Halberdier | UnitLine::ArmoredHalberdier)
    }

    /// Lineages tagged [`UnitRoleTag::Cavalry`].
    pub open spec fn spec_is_cavalry(self) -> bool {
        matches!(self, UnitLine::Scout | UnitLine::MountedScout | UnitLine::ShockCavalry | UnitLine::EliteShockCavalry)
    }

    /// Executable form of [`UnitLine::spec_is_cavalry`].
    pub fn is_cavalry(self) -> (r: bool)
        ensures
            r == self.spec_is_cavalry(),
    {
        matches!(self, UnitLine::Scout | UnitLine::MountedScout | UnitLine::ShockCavalry | UnitLine::EliteShockCavalry)
    }

    /// Lineages tagged [`UnitRoleTag::AntiArmor`].
    pub open spec fn spec_is_anti_armor(self) -> bool {
        matches!(self, UnitLine::Crossbowman | UnitLine::ArmoredCrossbowman | UnitLine::EliteCrossbowman | UnitLine::SiegeCrossbowman | UnitLine::ArmoredHalberdier)
    }

    /// Executable form of [`UnitLine::spec_is_anti_armor`].
    pub fn is_anti_armor(self) -> (r: bool)
        ensures
            r == self.spec_is_anti_armor(),
    {
        matches!(self, UnitLine::Crossbowman | UnitLine::ArmoredCrossbowman | UnitLine::EliteCrossbowman | UnitLine::SiegeCrossbowman | UnitLine::ArmoredHalberdier)
    }

    /// Lineages tagged [`UnitRoleTag::HeroDoctrine`].
    pub open spec fn spec_is_hero_doctrine(self) -> bool {
        matches!(self, UnitLine::CitadelGuard | UnitLine::ArmoredHalberdier | UnitLine::EliteHeavyKnight | UnitLine::EliteLongbowman | UnitLine::SiegeCrossbowman | UnitLine::EliteHoundmaster | UnitLine::DivineSpeaker | UnitLine::DivineJudge | UnitLine::EliteShockCavalry)
    }

    /// Executable form of [`UnitLine::spec_is_hero_doctrine`].
    pub fn is_hero_doctrine(self) -> (r: bool)
        ensures
            r == self.spec_is_hero_doctrine(),
    {
        matches!(self, UnitLine::CitadelGuard | UnitLine::ArmoredHalberdier | UnitLine::EliteHeavyKnight | UnitLine::EliteLongbowman | UnitLine::SiegeCrossbowman | UnitLine::EliteHoundmaster | UnitLine::DivineSpeaker | UnitLine::DivineJudge | UnitLine::EliteShockCavalry)
    }

    /// Priests of either kind: support priests and the fanatic branch.
    pub open spec fn spec_is_priest_family_line(self) -> bool {
        self.spec_is_support_priest_line() || self.spec_is_fanatic_line()
    }

    /// Whether the lineage carries the role tag `tag`.
    pub open spec fn spec_has_role_tag(self, tag: UnitRoleTag) -> bool {
        match tag {
            UnitRoleTag::Frontline => self.spec_is_frontline(),
            UnitRoleTag::AntiCavalry => self.spec_is_anti_cavalry(),
            UnitRoleTag::Cavalry => self.spec_is_cavalry(),
            UnitRoleTag::AntiArmor => self.spec_is_anti_armor(),
            UnitRoleTag::Skirmisher => self.spec_is_tracker_line() || self.spec_is_scout_line()
                || self.spec_is_fanatic_line(),
            UnitRoleTag::Support => self.spec_is_support_priest_line(),
            UnitRoleTag::HeroDoctrine => self.spec_is_hero_doctrine(),
        }
    }

    /// Executable form of [`UnitLine::spec_has_role_tag`].
    pub fn has_role_tag(self, tag: UnitRoleTag) -> (r: bool)
        ensures
            r == self.spec_has_role_tag(tag),
    {
        match tag {
            UnitRoleTag::Frontline => self.is_frontline(),
            UnitRoleTag::AntiCavalry => self.is_anti_cavalry(),
            UnitRoleTag::Cavalry => self.is_cavalry(),
            UnitRoleTag::AntiArmor => self.is_anti_armor(),
            UnitRoleTag::Skirmisher => self.is_tracker_line() || self.is_scout_line()
                || self.is_fanatic_line(),
            UnitRoleTag::Support => self.is_support_priest_line(),
            UnitRoleTag::HeroDoctrine => self.is_hero_doctrine(),
        }
    }

    /// The armour class of the lineage.
    pub open spec fn spec_armor_class(self) -> UnitArmorClass {
        if matches!(self, UnitLine::CitadelGuard | UnitLine::ArmoredHalberdier | UnitLine::EliteHeavyKnight) {
            UnitArmorClass::Heavy
        } else if matches!(self, UnitLine::MenAtArms | UnitLine::ShieldInfantry | UnitLine::Spearman | UnitLine::UnmountedKnight | UnitLine::ExperiencedShieldInfantry | UnitLine::ShieldedSpearman | UnitLine::Knight | UnitLine::ArmoredCrossbowman | UnitLine::Halberdier | UnitLine::HeavyKnight | UnitLine::EliteShieldInfantry | UnitLine::EliteCrossbowman | UnitLine::EliteBannerman | UnitLine::GodsChosen | UnitLine::SiegeCrossbowman | UnitLine::EliteShockCavalry) {
            UnitArmorClass::Armored
        } else if matches!(self, UnitLine::PeasantInfantry | UnitLine::PeasantPriest | UnitLine::Devoted | UnitLine::Squire | UnitLine::DevotedOne | UnitLine::Fanatic | UnitLine::Bannerman | UnitLine::Cardinal | UnitLine::Flagellant | UnitLine::EliteCardinal | UnitLine::EliteFlagellant | UnitLine::DivineSpeaker | UnitLine::DivineJudge | UnitLine::ShockCavalry) {
            UnitArmorClass::Light
        } else {
            UnitArmorClass::Unarmored
        }
    }

    /// Executable form of [`UnitLine::spec_armor_class`].
    pub fn armor_class(self) -> (r: UnitArmorClass)
        ensures
            r == self.spec_armor_class(),
    {
        if matches!(self, UnitLine::CitadelGuard | UnitLine::ArmoredHalberdier | UnitLine::EliteHeavyKnight) {
            UnitArmorClass::Heavy
        } else if matches!(self, UnitLine::MenAtArms | UnitLine::ShieldInfantry | UnitLine::Spearman | UnitLine::UnmountedKnight | UnitLine::ExperiencedShieldInfantry | UnitLine::ShieldedSpearman | UnitLine::Knight | UnitLine::ArmoredCrossbowman | UnitLine::Halberdier | UnitLine::HeavyKnight | UnitLine::EliteShieldInfantry | UnitLine::EliteCrossbowman | UnitLine::EliteBannerman | UnitLine::GodsChosen | UnitLine::SiegeCrossbowman | UnitLine::EliteShockCavalry) {
            UnitArmorClass::Armored
        } else if matches!(self, UnitLine::PeasantInfantry | UnitLine::PeasantPriest | UnitLine::Devoted | UnitLine::Squire | UnitLine::DevotedOne | UnitLine::Fanatic | UnitLine::Bannerman | UnitLine::Cardinal | UnitLine::Flagellant | UnitLine::EliteCardinal | UnitLine::EliteFlagellant | UnitLine::DivineSpeaker | UnitLine::DivineJudge | UnitLine::ShockCavalry) {
            UnitArmorClass::Light
        } else {
            UnitArmorClass::Unarmored
        }
    }

    /// The recruit tier of the lineage; the commander has none.
    pub open spec fn spec_tier(self) -> Option<u8> {
        if matches!(self, UnitLine::PeasantInfantry | UnitLine::PeasantArcher | UnitLine::PeasantPriest) {
            Some(0u8)
        } else if matches!(self, UnitLine::MenAtArms | UnitLine::Bowman | UnitLine::Devoted) {
            Some(1u8)
        } else if matches!(self, UnitLine::ShieldInfantry | UnitLine::Spearman | UnitLine::UnmountedKnight | UnitLine::Squire | UnitLine::ExperiencedBowman | UnitLine::Crossbowman | UnitLine::Tracker | UnitLine::Scout | UnitLine::DevotedOne | UnitLine::Fanatic) {
            Some(2u8)
        } else if matches!(self, UnitLine::ExperiencedShieldInfantry | UnitLine::ShieldedSpearman | UnitLine::Knight | UnitLine::Bannerman | UnitLine::EliteBowman | UnitLine::ArmoredCrossbowman | UnitLine::Pathfinder | UnitLine::MountedScout | UnitLine::Cardinal | UnitLine::Flagellant) {
            Some(3u8)
        } else if matches!(self, UnitLine::EliteShieldInfantry | UnitLine::Halberdier | UnitLine::HeavyKnight | UnitLine::EliteBannerman | UnitLine::Longbowman | UnitLine::EliteCrossbowman | UnitLine::Houndmaster | UnitLine::ShockCavalry | UnitLine::EliteCardinal | UnitLine::EliteFlagellant) {
            Some(4u8)
        } else if matches!(self, UnitLine::CitadelGuard | UnitLine::ArmoredHalberdier | UnitLine::EliteHeavyKnight | UnitLine::GodsChosen | UnitLine::EliteLongbowman | UnitLine::SiegeCrossbowman | UnitLine::EliteHoundmaster | UnitLine::EliteShockCavalry | UnitLine::DivineSpeaker | UnitLine::DivineJudge) {
            Some(5u8)
        } else {
            None
        }
    }

    /// Executable form of [`UnitLine::spec_tier`].
    pub fn tier(self) -> (r: Option<u8>)
        ensures
            r == self.spec_tier(),
    {
        if matches!(self, UnitLine::PeasantInfantry | UnitLine::PeasantArcher | UnitLine::PeasantPriest) {
            Some(0u8)
        } else if matches!(self, UnitLine::MenAtArms | UnitLine::Bowman | UnitLine::Devoted) {
            Some(1u8)
        } else if matches!(self, UnitLine::ShieldInfantry | UnitLine::Spearman | UnitLine::UnmountedKnight | UnitLine::Squire | UnitLine::ExperiencedBowman | UnitLine::Crossbowman | UnitLine::Tracker | UnitLine::Scout | UnitLine::DevotedOne | UnitLine::Fanatic) {
            Some(2u8)
        } else if matches!(self, UnitLine::ExperiencedShieldInfantry | UnitLine::ShieldedSpearman | UnitLine::Knight | UnitLine::Bannerman | UnitLine::EliteBowman | UnitLine::ArmoredCrossbowman | UnitLine::Pathfinder | UnitLine::MountedScout | UnitLine::Cardinal | UnitLine::Flagellant) {
            Some(3u8)
        } else if matches!(self, UnitLine::EliteShieldInfantry | UnitLine::Halberdier | UnitLine::HeavyKnight | UnitLine::EliteBannerman | UnitLine::Longbowman | UnitLine::EliteCrossbowman | UnitLine::Houndmaster | UnitLine::ShockCavalry | UnitLine::EliteCardinal | UnitLine::EliteFlagellant) {
            Some(4u8)
        } else if matches!(self, UnitLine::CitadelGuard | UnitLine::ArmoredHalberdier | UnitLine::EliteHeavyKnight | UnitLine::GodsChosen | UnitLine::EliteLongbowman | UnitLine::SiegeCrossbowman | UnitLine::EliteHoundmaster | UnitLine::EliteShockCavalry | UnitLine::DivineSpeaker | UnitLine::DivineJudge) {
            Some(5u8)
        } else {
            None
        }
    }

    /// The recruit archetype of the three peasant lineages.
    pub open spec fn spec_recruit_archetype(self) -> Option<RecruitArchetype> {
        match self {
            UnitLine::PeasantInfantry => Some(RecruitArchetype::Infantry),
            UnitLine::PeasantArcher => Some(RecruitArchetype::Archer),
            UnitLine::PeasantPriest => Some(RecruitArchetype::Priest),
            _ => None,
        }
    }

    /// Executable form of [`UnitLine::spec_recruit_archetype`].
    pub fn recruit_archetype(self) -> (r: Option<RecruitArchetype>)
        ensures
            r == self.spec_recruit_archetype(),
    {
        match self {
            UnitLine::PeasantInfantry => Some(RecruitArchetype::Infantry),
            UnitLine::PeasantArcher => Some(RecruitArchetype::Archer),
            UnitLine::PeasantPriest => Some(RecruitArchetype::Priest),
            _ => None,
        }
    }
}

/// A short fingerprint of an id: its length and the characters at
/// positions 0 and 8 (a space where the id is too short).  No two
/// lineage ids share one.
pub open spec fn id_sig(s: Seq<char>) -> (nat, char, char) {
    (s.len(), s[0], if s.len() > 8 { s[8] } else { ' ' })
}

/// The lineage with fingerprint `sig`, if any.
pub open spec fn line_for_sig(sig: (nat, char, char)) -> Option<UnitLine> {
    if sig == (9nat, 'c', 'r') {
        Some(UnitLine::Commander)
    } else if sig == (16nat, 'p', 'i') {
        Some(UnitLine::PeasantInfantry)
    } else if sig == (14nat, 'p', 'a') {
        Some(UnitLine::PeasantArcher)
    } else if sig == (14nat, 'p', 'p') {
        Some(UnitLine::PeasantPriest)
    } else if sig == (11nat, 'm', 'r') {
        Some(UnitLine::MenAtArms)
    } else if sig == (6nat, 'b', ' ') {
        Some(UnitLine::Bowman)
    } else if sig == (7nat, 'd', ' ') {
        Some(UnitLine::Devoted)
    } else if sig == (15nat, 's', 'n') {
        Some(UnitLine::ShieldInfantry)
    } else if sig == (8nat, 's', ' ') {
        Some(UnitLine::Spearman)
    } else if sig == (16nat, 'u', 'd') {
        Some(UnitLine::UnmountedKnight)
    } else if sig == (6nat, 's', ' ') {
        Some(UnitLine::Squire)
    } else if sig == (18nat, 'e', 'c') {
        Some(UnitLine::ExperiencedBowman)
    } else if sig == (11nat, 'c', 'm') {
        Some(UnitLine::Crossbowman)
    } else if sig == (7nat, 't', ' ') {
        Some(UnitLine::Tracker)
    } else if sig == (5nat, 's', ' ') {
        Some(UnitLine::Scout)
    } else if sig == (11nat, 'd', 'o') {
        Some(UnitLine::DevotedOne)
    } else if sig == (7nat, 'f', ' ') {
        Some(UnitLine::Fanatic)
    } else if sig == (27nat, 'e', 'c') {
        Some(UnitLine::ExperiencedShieldInfantry)
    } else if sig == (17nat, 's', '_') {
        Some(UnitLine::ShieldedSpearman)
    } else if sig == (6nat, 'k', ' ') {
        Some(UnitLine::Knight)
    } else if sig == (9nat, 'b', 'n') {
        Some(UnitLine::Bannerman)
    } else if sig == (12nat, 'e', 'w') {
        Some(UnitLine::EliteBowman)
    } else if sig == (19nat, 'a', 'c') {
        Some(UnitLine::ArmoredCrossbowman)
    } else if sig == (10nat, 'p', 'e') {
        Some(UnitLine::Pathfinder)
    } else if sig == (13nat, 'm', 's') {
        Some(UnitLine::MountedScout)
    } else if sig == (8nat, 'c', ' ') {
        Some(UnitLine::Cardinal)
    } else if sig == (10nat, 'f', 'n') {
        Some(UnitLine::Flagellant)
    } else if sig == (21nat, 'e', 'i') {
        Some(UnitLine::EliteShieldInfantry)
    } else if sig == (10nat, 'h', 'e') {
        Some(UnitLine::Halberdier)
    } else if sig == (12nat, 'h', 'i') {
        Some(UnitLine::HeavyKnight)
    } else if sig == (15nat, 'e', 'n') {
        Some(UnitLine::EliteBannerman)
    } else if sig == (10nat, 'l', 'a') {
        Some(UnitLine::Longbowman)
    } else if sig == (17nat, 'e', 'o') {
        Some(UnitLine::EliteCrossbowman)
    } else if sig == (11nat, 'h', 't') {
        Some(UnitLine::Houndmaster)
    } else if sig == (13nat, 's', 'v') {
        Some(UnitLine::ShockCavalry)
    } else if sig == (14nat, 'e', 'r') {
        Some(UnitLine::EliteCardinal)
    } else if sig == (16nat, 'e', 'a') {
        Some(UnitLine::EliteFlagellant)
    } else if sig == (13nat, 'c', 'g') {
        Some(UnitLine::CitadelGuard)
    } else if sig == (18nat, 'a', 'h') {
        Some(UnitLine::ArmoredHalberdier)
    } else if sig == (18nat, 'e', 'a') {
        Some(UnitLine::EliteHeavyKnight)
    } else if sig == (11nat, 'g', 's') {
        Some(UnitLine::GodsChosen)
    } else if sig == (16nat, 'e', 'n') {
        Some(UnitLine::EliteLongbowman)
    } else if sig == (17nat, 's', 'o') {
        Some(UnitLine::SiegeCrossbowman)
    } else if sig == (17nat, 'e', 'u') {
        Some(UnitLine::EliteHoundmaster)
    } else if sig == (19nat, 'e', 'o') {
        Some(UnitLine::EliteShockCavalry)
    } else if sig == (14nat, 'd', 'p') {
        Some(UnitLine::DivineSpeaker)
    } else if sig == (12nat, 'd', 'u') {
        Some(UnitLine::DivineJudge)
    } else {
        None
    }
}

/// The lineage whose id is `s`, if any.
pub open spec fn spec_line_from_id(s: Seq<char>) -> Option<UnitLine> {
    match line_for_sig(id_sig(s)) {
        Some(l) => if l.spec_id() == s {
            Some(l)
        } else {
            None
        },
        None => None,
    }
}

/// The fingerprint of a lineage's id leads back to that lineage.
pub proof fn lemma_line_for_sig_of_id(l: UnitLine)
    ensures
        line_for_sig(id_sig(l.spec_id())) == Some(l),
{
    match l {
        UnitLine::Commander => {
            reveal_strlit("commander");
        },
        UnitLine::PeasantInfantry => {
            reveal_strlit("peasant_infantry");
        },
        UnitLine::PeasantArcher => {
            reveal_strlit("peasant_archer");
        },
        UnitLine::PeasantPriest => {
            reveal_strlit("peasant_priest");
        },
        UnitLine::MenAtArms => {
            reveal_strlit("men_at_arms");
        },
        UnitLine::Bowman => {
            reveal_strlit("bowman");
        },
        UnitLine::Devoted => {
            reveal_strlit("devoted");
        },
        UnitLine::ShieldInfantry => {
            reveal_strlit("shield_infantry");
        },
        UnitLine::Spearman => {
            reveal_strlit("spearman");
        },
        UnitLine::UnmountedKnight => {
            reveal_strlit("unmounted_knight");
        },
        UnitLine::Squire => {
            reveal_strlit("squire");
        },
        UnitLine::ExperiencedBowman => {
            reveal_strlit("experienced_bowman");
        },
        UnitLine::Crossbowman => {
            reveal_strlit("crossbowman");
        },
        UnitLine::Tracker => {
            reveal_strlit("tracker");
        },
        UnitLine::Scout => {
            reveal_strlit("scout");
        },
        UnitLine::DevotedOne => {
            reveal_strlit("devoted_one");
        },
        UnitLine::Fanatic => {
            reveal_strlit("fanatic");
        },
        UnitLine::ExperiencedShieldInfantry => {
            reveal_strlit("experienced_shield_infantry");
        },
        UnitLine::ShieldedSpearman => {
            reveal_strlit("shielded_spearman");
        },
        UnitLine::Knight => {
            reveal_strlit("knight");
        },
        UnitLine::Bannerman => {
            reveal_strlit("bannerman");
        },
        UnitLine::EliteBowman => {
            reveal_strlit("elite_bowman");
        },
        UnitLine::ArmoredCrossbowman => {
            reveal_strlit("armored_crossbowman");
        },
        UnitLine::Pathfinder => {
            reveal_strlit("pathfinder");
        },
        UnitLine::MountedScout => {
            reveal_strlit("mounted_scout");
        },
        UnitLine::Cardinal => {
            reveal_strlit("cardinal");
        },
        UnitLine::Flagellant => {
            reveal_strlit("flagellant");
        },
        UnitLine::EliteShieldInfantry => {
            reveal_strlit("elite_shield_infantry");
        },
        UnitLine::Halberdier => {
            reveal_strlit("halberdier");
        },
        UnitLine::HeavyKnight => {
            reveal_strlit("heavy_knight");
        },
        UnitLine::EliteBannerman => {
            reveal_strlit("elite_bannerman");
        },
        UnitLine::Longbowman => {
            reveal_strlit("longbowman");
        },
        UnitLine::EliteCrossbowman => {
            reveal_strlit("elite_crossbowman");
        },
        UnitLine::Houndmaster => {
            reveal_strlit("houndmaster");
        },
        UnitLine::ShockCavalry => {
            reveal_strlit("shock_cavalry");
        },
        UnitLine::EliteCardinal => {
            reveal_strlit("elite_cardinal");
        },
        UnitLine::EliteFlagellant => {
            reveal_strlit("elite_flagellant");
        },
        UnitLine::CitadelGuard => {
            reveal_strlit("citadel_guard");
        },
        UnitLine::ArmoredHalberdier => {
            reveal_strlit("armored_halberdier");
        },
        UnitLine::EliteHeavyKnight => {
            reveal_strlit("elite_heavy_knight");
        },
        UnitLine::GodsChosen => {
            reveal_strlit("gods_chosen");
        },
        UnitLine::EliteLongbowman => {
            reveal_strlit("elite_longbowman");
        },
        UnitLine::SiegeCrossbowman => {
            reveal_strlit("siege_crossbowman");
        },
        UnitLine::EliteHoundmaster => {
            reveal_strlit("elite_houndmaster");
        },
        UnitLine::EliteShockCavalry => {
            reveal_strlit("elite_shock_cavalry");
        },
        UnitLine::DivineSpeaker => {
            reveal_strlit("divine_speaker");
        },
        UnitLine::DivineJudge => {
            reveal_strlit("divine_judge");
        },
    }
}

/// Each lineage is named by exactly one id: reading the id of `l`
/// gives back `l`, and a text reads as `l` only if it is `l`'s id.
pub proof fn lemma_line_id_round_trip(l: UnitLine, s: Seq<char>)
    ensures
        spec_line_from_id(l.spec_id()) == Some(l),
        spec_line_from_id(s) == Some(l) <==> s == l.spec_id(),
{
    lemma_line_for_sig_of_id(l);
}

/// Two lineages with the same id are the same lineage.
pub proof fn lemma_line_id_injective(a: UnitLine, b: UnitLine)
    ensures
        a.spec_id() == b.spec_id() ==> a == b,
{
    lemma_line_for_sig_of_id(a);
    lemma_line_for_sig_of_id(b);
}

} // verus!
