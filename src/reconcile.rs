//! The reconciliation engine: which entries of a snapshot are in scope, what
//! becomes of each against a keyed store, and a session that walks an import
//! step by step so that any store can carry out its requests.
use vstd::prelude::*;

use crate::entry::{is_valid, problem_of, EntryView, UserAnime};
use crate::outcome::{EntryFault, EntryOutcome, ImportError, ImportResult};
use crate::policy::{
    decide, decision, resolution_named, strategy_named, ConflictResolution, EntryAction,
    MergeStrategy,
};
use crate::text::{lower_of, same_text, same_text_ignoring_case};

verus! {

/// What the caller asks of an import: where the snapshot is, the merge
/// strategy, the conflict policy and the scope, each by name.
#[derive(Debug)]
pub struct ImportOptions {
    pub import_path: String,
    /// `merge`, `replace` or `skip_existing`.
    pub merge_strategy: String,
    /// `keep_existing`, `use_imported` or `keep_newer`.
    pub conflict_resolution: String,
    /// `all`, or a status.
    pub import_type: String,
}

pub open spec fn views(v: Seq<UserAnime>) -> Seq<EntryView> {
    v.map_values(|e: UserAnime| e@)
}

/// An entry is in scope when the scope is `all`, or names its status, up to case.
pub open spec fn in_scope(e: EntryView, scope: Seq<char>) -> bool {
    scope == "all"@ || lower_of(e.status) == lower_of(scope)
}

/// The entries in scope, in their order.
pub open spec fn scoped(es: Seq<EntryView>, scope: Seq<char>) -> Seq<EntryView>
    decreases es.len(),
{
    if es.len() == 0 {
        Seq::empty()
    } else {
        let rest = scoped(es.drop_last(), scope);
        if in_scope(es.last(), scope) {
            rest.push(es.last())
        } else {
            rest
        }
    }
}

/// The stored entry with id `id`, if any.
pub open spec fn lookup(m: Map<i64, EntryView>, id: i64) -> Option<EntryView> {
    if m.contains_key(id) {
        Some(m[id])
    } else {
        None
    }
}

/// What becomes of entry `e` against a store holding `m`.
pub open spec fn outcome_in(
    m: Map<i64, EntryView>,
    e: EntryView,
    strategy: MergeStrategy,
    resolution: ConflictResolution,
) -> EntryOutcome {
    match problem_of(e) {
        Some(p) => EntryOutcome::Rejected(p),
        None => EntryOutcome::Applied(decision(lookup(m, e.anime_id), e, strategy, resolution)),
    }
}

/// What a store holding `m` holds once entry `e` has been applied.
pub open spec fn store_after_entry(
    m: Map<i64, EntryView>,
    e: EntryView,
    strategy: MergeStrategy,
    resolution: ConflictResolution,
) -> Map<i64, EntryView> {
    match outcome_in(m, e, strategy, resolution) {
        EntryOutcome::Applied(a) => if a.spec_writes() {
            m.insert(e.anime_id, e)
        } else {
            m
        },
        _ => m,
    }
}

/// What a store holding `m` holds once the entries `es` have been applied in order.
pub open spec fn stored_after(
    m: Map<i64, EntryView>,
    es: Seq<EntryView>,
    strategy: MergeStrategy,
    resolution: ConflictResolution,
) -> Map<i64, EntryView>
    decreases es.len(),
{
    if es.len() == 0 {
        m
    } else {
        store_after_entry(
            stored_after(m, es.drop_last(), strategy, resolution),
            es.last(),
            strategy,
            resolution,
        )
    }
}

/// The outcome of each of the entries `es` applied in order to a store
/// holding `m`, where the store carries out every request.
pub open spec fn outcomes(
    m: Map<i64, EntryView>,
    es: Seq<EntryView>,
    strategy: MergeStrategy,
    resolution: ConflictResolution,
) -> Seq<EntryOutcome>
    decreases es.len(),
{
    if es.len() == 0 {
        Seq::empty()
    } else {
        outcomes(m, es.drop_last(), strategy, resolution).push(
            outcome_in(
                stored_after(m, es.drop_last(), strategy, resolution),
                es.last(),
                strategy,
                resolution,
            ),
        )
    }
}

/// What the entries are applied to: nothing under `Replace`, which clears
/// the store first, and the store as it is otherwise.
pub open spec fn import_base(m: Map<i64, EntryView>, strategy: MergeStrategy) -> Map<
    i64,
    EntryView,
> {
    if strategy == MergeStrategy::Replace {
        Map::empty()
    } else {
        m
    }
}

/// Extends `os`, the outcomes of the first entries of `es`, past the
/// entries that break a domain rule, which are rejected without the store.
pub open spec fn settle(es: Seq<EntryView>, os: Seq<EntryOutcome>) -> Seq<EntryOutcome>
    decreases es.len() - os.len(),
{
    if os.len() < es.len() && !is_valid(es[os.len() as int]) {
        settle(es, os.push(EntryOutcome::Rejected(problem_of(es[os.len() as int])->0)))
    } else {
        os
    }
}

/// Where the settling of `os` stops: at the end of `es`, or at a valid entry.
pub proof fn lemma_settle_stops(es: Seq<EntryView>, os: Seq<EntryOutcome>)
    requires
        os.len() <= es.len(),
    ensures
        os.len() <= settle(es, os).len() <= es.len(),
        settle(es, os).len() < es.len() ==> is_valid(es[settle(es, os).len() as int]),
    decreases es.len() - os.len(),
{
    if os.len() < es.len() && !is_valid(es[os.len() as int]) {
        lemma_settle_stops(
            es,
            os.push(EntryOutcome::Rejected(problem_of(es[os.len() as int])->0)),
        );
    }
}

/// Settling the outcomes of the first entries of `es` keeps them the
/// outcomes that `outcomes` gives, and leaves the store as it was.
pub proof fn lemma_settle_follows_model(
    base: Map<i64, EntryView>,
    es: Seq<EntryView>,
    os: Seq<EntryOutcome>,
    strategy: MergeStrategy,
    resolution: ConflictResolution,
)
    requires
        os.len() <= es.len(),
        os == outcomes(base, es.take(os.len() as int), strategy, resolution),
    ensures
        settle(es, os) == outcomes(base, es.take(settle(es, os).len() as int), strategy, resolution),
        stored_after(base, es.take(settle(es, os).len() as int), strategy, resolution)
            == stored_after(base, es.take(os.len() as int), strategy, resolution),
    decreases es.len() - os.len(),
{
    let n = os.len() as int;
    if n < es.len() && !is_valid(es[n]) {
        let next = os.push(EntryOutcome::Rejected(problem_of(es[n])->0));
        assert(es.take(n + 1).drop_last() =~= es.take(n));
        assert(es.take(n + 1).last() == es[n]);
        lemma_settle_follows_model(base, es, next, strategy, resolution);
    }
}

/// Keeps the entries in scope.
pub fn scope_entries(entries: &Vec<UserAnime>, scope: &str) -> (r: Vec<UserAnime>)
    ensures
        views(r@) == scoped(views(entries@), scope@),
{
    let all = same_text(scope, "all");
    let mut out: Vec<UserAnime> = Vec::new();
    let mut i: usize = 0;
    while i < entries.len()
        invariant
            i <= entries.len(),
            all == (scope@ == "all"@),
            views(out@) == scoped(views(entries@).take(i as int), scope@),
        decreases entries.len() - i,
    {
        let e = &entries[i];
        let ghost es = views(entries@).take(i as int + 1);
        assert(es.drop_last() =~= views(entries@).take(i as int));
        assert(es.last() == e@);
        if all || same_text_ignoring_case(e.status.as_str(), scope) {
            out.push(e.duplicate());
            assert(views(out@) =~= scoped(views(entries@).take(i as int), scope@).push(e@));
        }
        i = i + 1;
    }
    assert(views(entries@).take(entries.len() as int) =~= views(entries@));
    out
}

/// Where an import session stands.
#[derive(Debug, Clone, Copy, PartialEq, Eq, Structural)]
pub enum Stage {
    /// The store must be cleared before any entry.
    Clearing,
    /// The stored entry with the current entry's id must be looked up.
    Lookup,
    /// The current entry must be written, and then counts as this action.
    Write(EntryAction),
    /// Every entry in scope is accounted for.
    Finished,
}

/// What an import session needs from the store next.
#[derive(Debug)]
pub enum StoreRequest {
    /// Remove every entry.
    Clear,
    /// Fetch the entry with this id, or report that there is none.
    Lookup(i64),
    /// Insert this entry, or write it over the one with its id.
    Write(UserAnime),
    /// Nothing more: the report is ready.
    Done,
}

/// An import in progress. Its owner asks `request` what the store must do,
/// does it, and hands back what came of it, until the request is `Done`.
pub struct ImportSession {
    entries: Vec<UserAnime>,
    strategy: MergeStrategy,
    resolution: ConflictResolution,
    stage: Stage,
    next: usize,
    result: ImportResult,
    done: Ghost<Seq<EntryOutcome>>,
}

impl ImportSession {
    /// The entries in scope.
    pub closed spec fn entries(&self) -> Seq<EntryView> {
        views(self.entries@)
    }

    pub closed spec fn strategy(&self) -> MergeStrategy {
        self.strategy
    }

    pub closed spec fn resolution(&self) -> ConflictResolution {
        self.resolution
    }

    pub closed spec fn stage(&self) -> Stage {
        self.stage
    }

    /// The outcomes of the entries settled so far; the next one is the current entry.
    pub closed spec fn done(&self) -> Seq<EntryOutcome> {
        self.done@
    }

    pub closed spec fn import_type(&self) -> Seq<char> {
        self.result.import_type@
    }

    pub closed spec fn strategy_name(&self) -> Seq<char> {
        self.result.merge_strategy@
    }

    pub closed spec fn wf(&self) -> bool {
        &&& self.next == self.done@.len()
        &&& self.next <= self.entries@.len()
        &&& self.result.accounts_for(views(self.entries@), self.done@)
        &&& match self.stage {
            Stage::Clearing => self.next == 0 && self.strategy == MergeStrategy::Replace,
            Stage::Lookup => self.next < self.entries@.len() && is_valid(
                self.entries@[self.next as int]@,
            ) && self.strategy != MergeStrategy::Replace,
            Stage::Write(a) => self.next < self.entries@.len() && is_valid(
                self.entries@[self.next as int]@,
            ) && a.spec_writes() && (self.strategy == MergeStrategy::Replace ==> a
                == EntryAction::Insert),
            Stage::Finished => self.next == self.entries@.len(),
        }
    }

    /// The stage that follows once the outcomes `os` are settled.
    pub open spec fn stage_after(&self, os: Seq<EntryOutcome>) -> Stage {
        if os.len() == self.entries().len() {
            Stage::Finished
        } else if self.strategy() == MergeStrategy::Replace {
            Stage::Write(EntryAction::Insert)
        } else {
            Stage::Lookup
        }
    }

    /// The session keeps its entries and policy from one step to the next.
    pub open spec fn same_import(&self, other: &ImportSession) -> bool {
        &&& other.entries() == self.entries()
        &&& other.strategy() == self.strategy()
        &&& other.resolution() == self.resolution()
        &&& other.import_type() == self.import_type()
        &&& other.strategy_name() == self.strategy_name()
    }

    /// Rejects the entries from the current one on that break a domain rule,
    /// up to the next valid entry or the end.
    fn settle_invalid(&mut self)
        requires
            old(self).next == old(self).done@.len(),
            old(self).next <= old(self).entries@.len(),
            old(self).result.accounts_for(views(old(self).entries@), old(self).done@),
            old(self).strategy == MergeStrategy::Replace ==> old(self).stage != Stage::Lookup,
        ensures
            final(self).wf(),
            old(self).same_import(final(self)),
            final(self).done() == settle(old(self).entries(), old(self).done()),
            final(self).stage() == final(self).stage_after(final(self).done()),
    {
        let ghost es = views(self.entries@);
        let ghost start = self.done@;
        while self.next < self.entries.len() && self.entries[self.next].problem().is_some()
            invariant
                views(self.entries@) == es,
                self.next == self.done@.len(),
                self.next <= self.entries@.len(),
                self.result.accounts_for(es, self.done@),
                settle(es, self.done@) == settle(es, start),
                self.strategy == old(self).strategy,
                self.resolution == old(self).resolution,
                self.result.import_type == old(self).result.import_type,
                self.result.merge_strategy == old(self).result.merge_strategy,
            decreases self.entries@.len() - self.next,
        {
            let problem = self.entries[self.next].problem().unwrap();
            let anime_id = self.entries[self.next].anime_id;
            self.result.record(
                Ghost(es),
                Ghost(self.done@),
                self.next,
                anime_id,
                Err(EntryFault::Invalid(problem)),
            );
            self.done = Ghost(self.done@.push(EntryOutcome::Rejected(problem)));
            self.next = self.next + 1;
        }
        self.stage = if self.next == self.entries.len() {
            Stage::Finished
        } else if self.strategy == MergeStrategy::Replace {
            Stage::Write(EntryAction::Insert)
        } else {
            Stage::Lookup
        };
    }

    /// Opens an import of the entries of a snapshot, of which those in the
    /// scope `options.import_type` take part.
    pub fn start(entries: &Vec<UserAnime>, options: &ImportOptions) -> (s: ImportSession)
        ensures
            s.wf(),
            s.entries() == scoped(views(entries@), options.import_type@),
            s.strategy() == strategy_named(options.merge_strategy@),
            s.resolution() == resolution_named(options.conflict_resolution@),
            s.import_type() == options.import_type@,
            s.strategy_name() == options.merge_strategy@,
            s.strategy() == MergeStrategy::Replace ==> s.stage() == Stage::Clearing && s.done()
                == Seq::<EntryOutcome>::empty(),
            s.strategy() != MergeStrategy::Replace ==> s.done() == settle(
                s.entries(),
                Seq::empty(),
            ) && s.stage() == s.stage_after(s.done()),
    {
        let in_scope = scope_entries(entries, options.import_type.as_str());
        let strategy = MergeStrategy::from_name(options.merge_strategy.as_str());
        let resolution = ConflictResolution::from_name(options.conflict_resolution.as_str());
        let result = ImportResult::open(
            in_scope.len(),
            options.import_type.clone(),
            options.merge_strategy.clone(),
        );
        let mut s = ImportSession {
            entries: in_scope,
            strategy,
            resolution,
            stage: Stage::Clearing,
            next: 0,
            result,
            done: Ghost(Seq::empty()),
        };
        assert(crate::outcome::error_views(s.result.errors@) =~= Seq::empty());
        if strategy != MergeStrategy::Replace {
            s.settle_invalid();
        }
        s
    }

    pub fn is_finished(&self) -> (r: bool)
        ensures
            r == (self.stage() == Stage::Finished),
    {
        self.stage == Stage::Finished
    }

    /// What the store must do next.
    pub fn request(&self) -> (r: StoreRequest)
        requires
            self.wf(),
        ensures
            match self.stage() {
                Stage::Clearing => r is Clear,
                Stage::Lookup => r == StoreRequest::Lookup(
                    self.entries()[self.done().len() as int].anime_id,
                ),
                Stage::Write(_) => r matches StoreRequest::Write(e) && e@ == self.entries()[
                    self.done().len() as int],
                Stage::Finished => r is Done,
            },
    {
        match self.stage {
            Stage::Clearing => StoreRequest::Clear,
            Stage::Lookup => StoreRequest::Lookup(self.entries[self.next].anime_id),
            Stage::Write(_) => StoreRequest::Write(self.entries[self.next].duplicate()),
            Stage::Finished => StoreRequest::Done,
        }
    }

    pub fn needs_clear(&self) -> (r: bool)
        ensures
            r == (self.stage() == Stage::Clearing),
    {
        self.stage == Stage::Clearing
    }

    /// Reports that the store was cleared.
    pub fn cleared(&mut self)
        requires
            old(self).wf(),
            old(self).stage() == Stage::Clearing,
        ensures
            final(self).wf(),
            old(self).same_import(final(self)),
            final(self).done() == settle(old(self).entries(), Seq::empty()),
            final(self).stage() == final(self).stage_after(final(self).done()),
    {
        assert(self.done@ =~= Seq::empty());
        self.settle_invalid();
    }

    /// Reports that the store could not be cleared, which ends the import
    /// before any entry is applied.
    pub fn clear_failed(self, message: String) -> (r: ImportError)
        requires
            self.wf(),
            self.stage() == Stage::Clearing,
        ensures
            r matches ImportError::ClearFailed(m) && m@ == message@,
    {
        ImportError::ClearFailed(message)
    }

    /// Hands back the stored entry with the current entry's id, or the
    /// store's failure to fetch it.
    pub fn looked_up(&mut self, found: Result<Option<UserAnime>, String>)
        requires
            old(self).wf(),
            old(self).stage() == Stage::Lookup,
        ensures
            final(self).wf(),
            old(self).same_import(final(self)),
            ({
                let e = old(self).entries()[old(self).done().len() as int];
                match found {
                    Ok(x) => {
                        let a = decision(
                            crate::entry::opt_view(x),
                            e,
                            old(self).strategy(),
                            old(self).resolution(),
                        );
                        if a.spec_writes() {
                            final(self).done() == old(self).done() && final(self).stage()
                                == Stage::Write(a)
                        } else {
                            final(self).done() == settle(
                                old(self).entries(),
                                old(self).done().push(EntryOutcome::Applied(a)),
                            ) && final(self).stage() == final(self).stage_after(final(self).done())
                        }
                    },
                    Err(m) => final(self).done() == settle(
                        old(self).entries(),
                        old(self).done().push(EntryOutcome::Failed(m@)),
                    ) && final(self).stage() == final(self).stage_after(final(self).done()),
                }
            }),
    {
        let ghost es = views(self.entries@);
        let anime_id = self.entries[self.next].anime_id;
        match found {
            Ok(x) => {
                let a = decide(x.as_ref(), &self.entries[self.next], self.strategy, self.resolution);
                if a.writes() {
                    self.stage = Stage::Write(a);
                } else {
                    self.result.record(Ghost(es), Ghost(self.done@), self.next, anime_id, Ok(a));
                    self.done = Ghost(self.done@.push(EntryOutcome::Applied(a)));
                    self.next = self.next + 1;
                    self.settle_invalid();
                }
            },
            Err(m) => {
                let ghost mv = m@;
                self.result.record(
                    Ghost(es),
                    Ghost(self.done@),
                    self.next,
                    anime_id,
                    Err(EntryFault::Store(m)),
                );
                self.done = Ghost(self.done@.push(EntryOutcome::Failed(mv)));
                self.next = self.next + 1;
                self.settle_invalid();
            },
        }
    }

    /// Hands back what came of writing the current entry.
    pub fn written(&mut self, outcome: Result<(), String>)
        requires
            old(self).wf(),
            old(self).stage() is Write,
        ensures
            final(self).wf(),
            old(self).same_import(final(self)),
            final(self).done() == settle(
                old(self).entries(),
                old(self).done().push(
                    match outcome {
                        Ok(()) => EntryOutcome::Applied(old(self).stage()->0),
                        Err(m) => EntryOutcome::Failed(m@),
                    },
                ),
            ),
            final(self).stage() == final(self).stage_after(final(self).done()),
    {
        let ghost es = views(self.entries@);
        let anime_id = self.entries[self.next].anime_id;
        let a = match self.stage {
            Stage::Write(a) => a,
            _ => EntryAction::Insert,
        };
        match outcome {
            Ok(()) => {
                self.result.record(Ghost(es), Ghost(self.done@), self.next, anime_id, Ok(a));
                self.done = Ghost(self.done@.push(EntryOutcome::Applied(a)));
            },
            Err(m) => {
                let ghost mv = m@;
                self.result.record(
                    Ghost(es),
                    Ghost(self.done@),
                    self.next,
                    anime_id,
                    Err(EntryFault::Store(m)),
                );
                self.done = Ghost(self.done@.push(EntryOutcome::Failed(mv)));
            },
        }
        self.next = self.next + 1;
        self.settle_invalid();
    }

    /// The report, once every entry in scope is accounted for.
    pub fn finish(self) -> (r: ImportResult)
        requires
            self.wf(),
            self.stage() == Stage::Finished,
        ensures
            self.done().len() == self.entries().len(),
            r.accounts_for(self.entries(), self.done()),
            r.import_type@ == self.import_type(),
            r.merge_strategy@ == self.strategy_name(),
            r.is_balanced(),
    {
        proof {
            crate::outcome::lemma_outcomes_partition(views(self.entries@), self.done@);
        }
        self.result
    }
}

} // verus!
