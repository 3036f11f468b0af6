//! The import policy and the per-entry decision table.
use vstd::prelude::*;

use crate::date::{date_day, day_of};
use crate::entry::UserAnime;
use crate::text::same_text;

verus! {

/// Whether the store is cleared before an import, and how entries whose id
/// is already stored are treated.
#[derive(Debug, Clone, Copy, PartialEq, Eq, Structural)]
pub enum MergeStrategy {
    /// Entries are merged in place; a stored id is settled by the conflict policy.
    Merge,
    /// The store is cleared first, so every entry is inserted.
    Replace,
    /// Entries whose id is already stored are left alone.
    SkipExisting,
}

/// How an entry is settled when its id is already stored under `Merge`.
#[derive(Debug, Clone, Copy, PartialEq, Eq, Structural)]
pub enum ConflictResolution {
    KeepExisting,
    UseImported,
    /// The entry with the later end date wins; see `incoming_wins`.
    KeepNewer,
}

/// What is done with one incoming entry.
#[derive(Debug, Clone, Copy, PartialEq, Eq, Structural)]
pub enum EntryAction {
    /// Stored as a new entry; counted as imported.
    Insert,
    /// Written over the stored entry; counted as updated.
    Overwrite,
    /// Left out because the strategy skips stored ids; counted as skipped.
    Skip,
    /// Left out because the conflict policy kept the stored entry; counted
    /// as skipped and as a conflict.
    KeepExisting,
}

impl EntryAction {
    pub open spec fn spec_writes(self) -> bool {
        self is Insert || self is Overwrite
    }

    /// Whether the action writes the incoming entry into the store.
    #[verifier::when_used_as_spec(spec_writes)]
    pub fn writes(self) -> (r: bool)
        ensures
            r == self.spec_writes(),
    {
        match self {
            EntryAction::Insert | EntryAction::Overwrite => true,
            _ => false,
        }
    }
}

/// The strategy that a name selects: `replace` and `skip_existing` name
/// theirs, and every other name means merging.
pub open spec fn strategy_named(name: Seq<char>) -> MergeStrategy {
    if name == "replace"@ {
        MergeStrategy::Replace
    } else if name == "skip_existing"@ {
        MergeStrategy::SkipExisting
    } else {
        MergeStrategy::Merge
    }
}

/// The conflict policy that a name selects: `keep_existing` and `keep_newer`
/// name theirs, and every other name means using the imported entry.
pub open spec fn resolution_named(name: Seq<char>) -> ConflictResolution {
    if name == "keep_existing"@ {
        ConflictResolution::KeepExisting
    } else if name == "keep_newer"@ {
        ConflictResolution::KeepNewer
    } else {
        ConflictResolution::UseImported
    }
}

impl MergeStrategy {
    pub fn from_name(name: &str) -> (r: MergeStrategy)
        ensures
            r == strategy_named(name@),
    {
        if same_text(name, "replace") {
            MergeStrategy::Replace
        } else if same_text(name, "skip_existing") {
            MergeStrategy::SkipExisting
        } else {
            MergeStrategy::Merge
        }
    }
}

impl ConflictResolution {
    pub fn from_name(name: &str) -> (r: ConflictResolution)
        ensures
            r == resolution_named(name@),
    {
        if same_text(name, "keep_existing") {
            ConflictResolution::KeepExisting
        } else if same_text(name, "keep_newer") {
            ConflictResolution::KeepNewer
        } else {
            ConflictResolution::UseImported
        }
    }
}

/// Under `KeepNewer`: the incoming entry wins when both end dates are known
/// and it is strictly later, or when only its own is known.
pub open spec fn incoming_wins(existing_day: Option<int>, incoming_day: Option<int>) -> bool {
    match (existing_day, incoming_day) {
        (Some(e), Some(i)) => i > e,
        (None, Some(_)) => true,
        _ => false,
    }
}

/// The decision table: what is done with an entry, given whether its id is
/// stored, the policy, and the day numbers of the stored and incoming end
/// dates.
pub open spec fn action_for(
    exists: bool,
    strategy: MergeStrategy,
    resolution: ConflictResolution,
    existing_day: Option<int>,
    incoming_day: Option<int>,
) -> EntryAction {
    if !exists {
        EntryAction::Insert
    } else {
        match strategy {
            MergeStrategy::Replace => EntryAction::Insert,
            MergeStrategy::SkipExisting => EntryAction::Skip,
            MergeStrategy::Merge => match resolution {
                ConflictResolution::KeepExisting => EntryAction::KeepExisting,
                ConflictResolution::UseImported => EntryAction::Overwrite,
                ConflictResolution::KeepNewer => if incoming_wins(existing_day, incoming_day) {
                    EntryAction::Overwrite
                } else {
                    EntryAction::KeepExisting
                },
            },
        }
    }
}

/// `action_for` on entries: the end dates are read as `YYYY-MM-DD`.
pub open spec fn decision(
    existing: Option<crate::entry::EntryView>,
    incoming: crate::entry::EntryView,
    strategy: MergeStrategy,
    resolution: ConflictResolution,
) -> EntryAction {
    action_for(
        existing is Some,
        strategy,
        resolution,
        match existing {
            Some(e) => day_of(e.end_date),
            None => None,
        },
        day_of(incoming.end_date),
    )
}

/// Decides what is done with `incoming`, given the stored entry with its id.
pub fn decide(
    existing: Option<&UserAnime>,
    incoming: &UserAnime,
    strategy: MergeStrategy,
    resolution: ConflictResolution,
) -> (r: EntryAction)
    ensures
        r == decision(
            match existing {
                Some(e) => Some(e@),
                None => None,
            },
            incoming@,
            strategy,
            resolution,
        ),
{
    match existing {
        None => EntryAction::Insert,
        Some(current) => match strategy {
            MergeStrategy::Replace => EntryAction::Insert,
            MergeStrategy::SkipExisting => EntryAction::Skip,
            MergeStrategy::Merge => match resolution {
                ConflictResolution::KeepExisting => EntryAction::KeepExisting,
                ConflictResolution::UseImported => EntryAction::Overwrite,
                ConflictResolution::KeepNewer => {
                    let existing_day = date_day(&current.end_date);
                    let incoming_day = date_day(&incoming.end_date);
                    let wins = match (existing_day, incoming_day) {
                        (Some(e), Some(i)) => i > e,
                        (None, Some(_)) => true,
                        _ => false,
                    };
                    if wins {
                        EntryAction::Overwrite
                    } else {
                        EntryAction::KeepExisting
                    }
                },
            },
        },
    }
}

} // verus!
