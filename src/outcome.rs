//! The account of an import: what happened to each entry, and the report
//! that sums it up.
use vstd::prelude::*;

use crate::entry::{EntryProblem, EntryView};
use crate::policy::EntryAction;

verus! {

/// What happened to one entry of an import.
pub enum EntryOutcome {
    /// The decision table chose this action, and the store carried it out.
    Applied(EntryAction),
    /// The entry broke a domain rule and was not offered to the store.
    Rejected(EntryProblem),
    /// The store failed on the entry, with this message.
    Failed(Seq<char>),
}

/// Why an entry of an import was not applied.
#[derive(Debug)]
pub enum EntryFault {
    Invalid(EntryProblem),
    Store(String),
}

/// An entry of an import that was not applied: its position among the
/// entries in scope, its id, and why.
#[derive(Debug)]
pub struct EntryError {
    pub index: usize,
    pub anime_id: i64,
    pub fault: EntryFault,
}

pub enum FaultView {
    Invalid(EntryProblem),
    Store(Seq<char>),
}

pub struct ErrorView {
    pub index: int,
    pub anime_id: i64,
    pub fault: FaultView,
}

impl View for EntryError {
    type V = ErrorView;

    open spec fn view(&self) -> ErrorView {
        ErrorView {
            index: self.index as int,
            anime_id: self.anime_id,
            fault: match self.fault {
                EntryFault::Invalid(p) => FaultView::Invalid(p),
                EntryFault::Store(m) => FaultView::Store(m@),
            },
        }
    }
}

pub open spec fn error_views(v: Seq<EntryError>) -> Seq<ErrorView> {
    v.map_values(|e: EntryError| e@)
}

/// How many outcomes are the action `a`.
pub open spec fn count_action(os: Seq<EntryOutcome>, a: EntryAction) -> nat
    decreases os.len(),
{
    if os.len() == 0 {
        0
    } else {
        count_action(os.drop_last(), a) + if os.last() == EntryOutcome::Applied(a) {
            1nat
        } else {
            0nat
        }
    }
}

/// The errors that a run of outcomes reports, in order: one for each
/// outcome that is no applied action, where `es` are the entries in scope.
pub open spec fn errors_of(es: Seq<EntryView>, os: Seq<EntryOutcome>) -> Seq<ErrorView>
    decreases os.len(),
{
    if os.len() == 0 {
        Seq::empty()
    } else {
        let k = os.len() - 1;
        let rest = errors_of(es, os.drop_last());
        match os.last() {
            EntryOutcome::Applied(_) => rest,
            EntryOutcome::Rejected(p) => rest.push(
                ErrorView { index: k, anime_id: es[k].anime_id, fault: FaultView::Invalid(p) },
            ),
            EntryOutcome::Failed(m) => rest.push(
                ErrorView { index: k, anime_id: es[k].anime_id, fault: FaultView::Store(m) },
            ),
        }
    }
}

/// Every outcome is counted once: as one of the four actions or as an error.
pub proof fn lemma_outcomes_partition(es: Seq<EntryView>, os: Seq<EntryOutcome>)
    ensures
        count_action(os, EntryAction::Insert) + count_action(os, EntryAction::Overwrite)
            + count_action(os, EntryAction::Skip) + count_action(os, EntryAction::KeepExisting)
            + errors_of(es, os).len() == os.len(),
    decreases os.len(),
{
    if os.len() > 0 {
        lemma_outcomes_partition(es, os.drop_last());
    }
}

/// The outcome that an action or a fault stands for.
pub open spec fn outcome_of_result(r: Result<EntryAction, EntryFault>) -> EntryOutcome {
    match r {
        Ok(a) => EntryOutcome::Applied(a),
        Err(EntryFault::Invalid(p)) => EntryOutcome::Rejected(p),
        Err(EntryFault::Store(m)) => EntryOutcome::Failed(m@),
    }
}

/// The report of an import.
#[derive(Debug)]
pub struct ImportResult {
    /// The entries in scope.
    pub total_entries: usize,
    /// Entries stored as new.
    pub imported_entries: usize,
    /// Entries written over a stored one.
    pub updated_entries: usize,
    /// Entries left out, by the strategy or by the conflict policy.
    pub skipped_entries: usize,
    /// Of the skipped entries, those whose id was stored and which the
    /// conflict policy settled for the stored entry.
    pub conflict_entries: usize,
    /// The entries that were not applied, in order.
    pub errors: Vec<EntryError>,
    pub import_type: String,
    pub merge_strategy: String,
}

impl ImportResult {
    /// The counters and errors are those of the outcomes `os` of the entries `es`.
    pub open spec fn accounts_for(&self, es: Seq<EntryView>, os: Seq<EntryOutcome>) -> bool {
        &&& self.total_entries == es.len()
        &&& self.imported_entries == count_action(os, EntryAction::Insert)
        &&& self.updated_entries == count_action(os, EntryAction::Overwrite)
        &&& self.skipped_entries == count_action(os, EntryAction::Skip) + count_action(
            os,
            EntryAction::KeepExisting,
        )
        &&& self.conflict_entries == count_action(os, EntryAction::KeepExisting)
        &&& error_views(self.errors@) == errors_of(es, os)
    }

    /// Every entry in scope is accounted for exactly once.
    pub open spec fn is_balanced(&self) -> bool {
        self.total_entries == self.imported_entries + self.updated_entries + self.skipped_entries
            + self.errors@.len()
    }

    pub(crate) fn open(total: usize, import_type: String, merge_strategy: String) -> (r: ImportResult)
        ensures
            r.total_entries == total,
            r.import_type == import_type,
            r.merge_strategy == merge_strategy,
            r.imported_entries == 0,
            r.updated_entries == 0,
            r.skipped_entries == 0,
            r.conflict_entries == 0,
            r.errors@.len() == 0,
    {
        ImportResult {
            total_entries: total,
            imported_entries: 0,
            updated_entries: 0,
            skipped_entries: 0,
            conflict_entries: 0,
            errors: Vec::new(),
            import_type,
            merge_strategy,
        }
    }

    /// Adds the outcome of entry `os.len()` of `es`.
    pub(crate) fn record(
        &mut self,
        Ghost(es): Ghost<Seq<EntryView>>,
        Ghost(os): Ghost<Seq<EntryOutcome>>,
        index: usize,
        anime_id: i64,
        outcome: Result<EntryAction, EntryFault>,
    )
        requires
            old(self).accounts_for(es, os),
            index == os.len(),
            index < es.len(),
            es[index as int].anime_id == anime_id,
        ensures
            final(self).accounts_for(es, os.push(outcome_of_result(outcome))),
            final(self).import_type == old(self).import_type,
            final(self).merge_strategy == old(self).merge_strategy,
    {
        let ghost next = os.push(outcome_of_result(outcome));
        assert(next.drop_last() =~= os);
        proof {
            lemma_outcomes_partition(es, os);
        }
        match outcome {
            Ok(a) => {
                match a {
                    EntryAction::Insert => {
                        self.imported_entries = self.imported_entries + 1;
                    },
                    EntryAction::Overwrite => {
                        self.updated_entries = self.updated_entries + 1;
                    },
                    EntryAction::Skip => {
                        self.skipped_entries = self.skipped_entries + 1;
                    },
                    EntryAction::KeepExisting => {
                        self.skipped_entries = self.skipped_entries + 1;
                        self.conflict_entries = self.conflict_entries + 1;
                    },
                }
                assert(error_views(self.errors@) =~= errors_of(es, next));
            },
            Err(fault) => {
                self.errors.push(EntryError { index, anime_id, fault });
                assert(error_views(self.errors@) =~= errors_of(es, next));
            },
        }
    }
}

} // verus!

verus! {

/// Why an import stopped before it applied any entry.
#[derive(Debug)]
pub enum ImportError {
    /// The snapshot could not be read; raised where its bytes are decoded.
    Format(String),
    /// The snapshot's format version has a major component this library does
    /// not read; it holds that version.
    UnsupportedVersion(String),
    /// The store could not be cleared before a replacing import.
    ClearFailed(String),
}

} // verus!
