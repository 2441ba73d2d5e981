//! The in-game archive: its categories, its entries, and the check that
//! every entry has a title and a description.
use vstd::prelude::*;

use crate::text::{is_blank, str_is_blank};

verus! {

/// The tabs of the archive.
#[derive(Clone, Copy, Debug, PartialEq, Eq, Hash, Structural)]
pub enum ArchiveCategory {
    Units,
    Enemies,
    Skills,
    Stats,
    Bonuses,
    Drops,
}

impl ArchiveCategory {
    /// The name of the tab.
    pub fn label(self) -> (r: &'static str)
        ensures
            r@ == (match self {
                ArchiveCategory::Units => "Units"@,
                ArchiveCategory::Enemies => "Enemies"@,
                ArchiveCategory::Skills => "Skills"@,
                ArchiveCategory::Stats => "Stats"@,
                ArchiveCategory::Bonuses => "Bonuses"@,
                ArchiveCategory::Drops => "Drops"@,
            }),
    {
        match self {
            ArchiveCategory::Units => "Units",
            ArchiveCategory::Enemies => "Enemies",
            ArchiveCategory::Skills => "Skills",
            ArchiveCategory::Stats => "Stats",
            ArchiveCategory::Bonuses => "Bonuses",
            ArchiveCategory::Drops => "Drops",
        }
    }

    /// Every tab, in display order.
    pub fn all() -> (r: [Self; 6])
        ensures
            r@ == seq![
                ArchiveCategory::Units,
                ArchiveCategory::Enemies,
                ArchiveCategory::Skills,
                ArchiveCategory::Stats,
                ArchiveCategory::Bonuses,
                ArchiveCategory::Drops,
            ],
    {
        let r = [
            ArchiveCategory::Units,
            ArchiveCategory::Enemies,
            ArchiveCategory::Skills,
            ArchiveCategory::Stats,
            ArchiveCategory::Bonuses,
            ArchiveCategory::Drops,
        ];
        proof {
            assert(r@ =~= seq![
                ArchiveCategory::Units,
                ArchiveCategory::Enemies,
                ArchiveCategory::Skills,
                ArchiveCategory::Stats,
                ArchiveCategory::Bonuses,
                ArchiveCategory::Drops,
            ]);
        }
        r
    }
}

/// One entry of the archive.
#[derive(Clone, Debug, PartialEq, Eq)]
pub struct ArchiveEntry {
    pub category: ArchiveCategory,
    pub title: String,
    pub description: String,
}

/// Why a list of archive entries was rejected.
#[derive(Clone, Copy, Debug, PartialEq, Eq, Structural)]
pub enum ArchiveEntryError {
    /// The list holds no entry.
    Empty,
    /// The entry at this index has a title of whitespace only.
    EmptyTitle(usize),
    /// The entry at this index has a description of whitespace only.
    EmptyDescription(usize),
}

/// The first problem of an entry from position `i` on.
pub open spec fn first_entry_problem(entries: Seq<ArchiveEntry>, i: int) -> Option<ArchiveEntryError>
    decreases entries.len() - i,
{
    if i < 0 || i >= entries.len() {
        None
    } else if is_blank(entries[i].title@) {
        Some(ArchiveEntryError::EmptyTitle(i as usize))
    } else if is_blank(entries[i].description@) {
        Some(ArchiveEntryError::EmptyDescription(i as usize))
    } else {
        first_entry_problem(entries, i + 1)
    }
}

/// The archive is valid when it has entries and each has a title and a
/// description that are not whitespace only; else the first problem.
pub open spec fn spec_archive_error(entries: Seq<ArchiveEntry>) -> Option<ArchiveEntryError> {
    if entries.len() == 0 {
        Some(ArchiveEntryError::Empty)
    } else {
        first_entry_problem(entries, 0)
    }
}

pub fn validate_archive_entries(entries: &[ArchiveEntry]) -> (r: Result<(), ArchiveEntryError>)
    ensures
        r == (match spec_archive_error(entries@) {
            Some(e) => Err(e),
            None => Ok(()),
        }),
{
    if entries.len() == 0 {
        return Err(ArchiveEntryError::Empty);
    }
    let mut index: usize = 0;
    while index < entries.len()
        invariant
            index <= entries@.len(),
            first_entry_problem(entries@, 0) == first_entry_problem(entries@, index as int),
        decreases entries@.len() - index,
    {
        if str_is_blank(entries[index].title.as_str()) {
            return Err(ArchiveEntryError::EmptyTitle(index));
        }
        if str_is_blank(entries[index].description.as_str()) {
            return Err(ArchiveEntryError::EmptyDescription(index));
        }
        index = index + 1;
    }
    Ok(())
}

} // verus!
