//! A keyed store of entries held in memory, and imports into it.
use vstd::prelude::*;

use crate::entry::{is_valid, problem_of, EntryProblem, EntryView, UserAnime};
use crate::outcome::{EntryOutcome, ImportResult};
use crate::policy::{resolution_named, strategy_named};
use crate::reconcile::{
    import_base, lemma_settle_follows_model, lemma_settle_stops, lookup, outcomes, scoped,
    stored_after, views, ImportOptions, ImportSession, Stage, StoreRequest,
};
use crate::text::same_text;

verus! {

/// What a store holds: each entry under its own id, and every entry valid.
pub open spec fn is_store_view(m: Map<i64, EntryView>) -> bool {
    forall|k: i64| m.contains_key(k) ==> m[k].anime_id == k && is_valid(#[trigger] m[k])
}

/// The status filter of a listing: none, or a status to match.
pub open spec fn has_status(e: EntryView, status: Option<Seq<char>>) -> bool {
    status matches Some(s) ==> e.status == s
}

/// `es` lists, each once, the entries of `m` whose status is `status`, or
/// all of them where no status is given.
pub open spec fn lists(es: Seq<EntryView>, m: Map<i64, EntryView>, status: Option<Seq<char>>) -> bool {
    &&& forall|i: int, j: int| 0 <= i < j < es.len() ==> es[i].anime_id != es[j].anime_id
    &&& forall|i: int|
        0 <= i < es.len() ==> m.contains_key(#[trigger] es[i].anime_id) && m[es[i].anime_id]
            == es[i] && has_status(es[i], status)
    &&& forall|k: i64|
        m.contains_key(k) && has_status(m[k], status) ==> exists|i: int|
            0 <= i < es.len() && #[trigger] es[i].anime_id == k
}

/// A keyed store of entries, one per id, held in memory.
pub struct MemoryStore {
    records: Vec<UserAnime>,
    model: Ghost<Map<i64, EntryView>>,
}

impl View for MemoryStore {
    type V = Map<i64, EntryView>;

    closed spec fn view(&self) -> Map<i64, EntryView> {
        self.model@
    }
}

impl MemoryStore {
    pub closed spec fn wf(&self) -> bool {
        &&& forall|i: int, j: int|
            0 <= i < j < self.records@.len() ==> self.records@[i].anime_id
                != self.records@[j].anime_id
        &&& forall|i: int|
            0 <= i < self.records@.len() ==> self.model@.contains_key(
                #[trigger] self.records@[i].anime_id,
            ) && self.model@[self.records@[i].anime_id] == self.records@[i]@ && is_valid(
                self.records@[i]@,
            )
        &&& forall|k: i64|
            self.model@.contains_key(k) ==> exists|i: int|
                0 <= i < self.records@.len() && #[trigger] self.records@[i].anime_id == k
    }

    pub proof fn lemma_store_view(&self)
        requires
            self.wf(),
        ensures
            is_store_view(self@),
    {
        assert forall|k: i64| self@.contains_key(k) implies self@[k].anime_id == k && is_valid(
            #[trigger] self@[k],
        ) by {
            let i = choose|i: int| 0 <= i < self.records@.len() && self.records@[i].anime_id == k;
        }
    }

    pub fn new() -> (s: MemoryStore)
        ensures
            s.wf(),
            s@ == Map::<i64, EntryView>::empty(),
    {
        MemoryStore { records: Vec::new(), model: Ghost(Map::empty()) }
    }

    fn position(&self, anime_id: i64) -> (r: Option<usize>)
        requires
            self.wf(),
        ensures
            match r {
                Some(i) => i < self.records@.len() && self.records@[i as int].anime_id == anime_id,
                None => !self@.contains_key(anime_id),
            },
    {
        let mut i: usize = 0;
        while i < self.records.len()
            invariant
                i <= self.records@.len(),
                forall|j: int| 0 <= j < i ==> self.records@[j].anime_id != anime_id,
            decreases self.records@.len() - i,
        {
            if self.records[i].anime_id == anime_id {
                return Some(i);
            }
            i = i + 1;
        }
        None
    }

    /// The entry with id `anime_id`, if any.
    pub fn get(&self, anime_id: i64) -> (r: Option<UserAnime>)
        requires
            self.wf(),
        ensures
            crate::entry::opt_view(r) == lookup(self@, anime_id),
    {
        match self.position(anime_id) {
            Some(i) => Some(self.records[i].duplicate()),
            None => None,
        }
    }

    /// Stores `entry` under its id: as a new entry, or over the one stored
    /// there, which keeps its row number. An entry that breaks a domain rule
    /// is refused and nothing changes.
    pub fn upsert(&mut self, entry: UserAnime) -> (r: Result<UserAnime, EntryProblem>)
        requires
            old(self).wf(),
        ensures
            final(self).wf(),
            match problem_of(entry@) {
                Some(p) => r == Err::<UserAnime, EntryProblem>(p) && final(self)@ == old(self)@,
                None => r matches Ok(s) && s@ == entry@ && final(self)@ == old(self)@.insert(
                    entry.anime_id,
                    entry@,
                ),
            },
    {
        if let Some(p) = entry.problem() {
            return Err(p);
        }
        let ghost e = entry@;
        let id = entry.anime_id;
        let ghost m = self.model@.insert(id, e);
        match self.position(id) {
            Some(i) => {
                let mut stored = entry;
                stored.id = self.records[i].id;
                let out = stored.duplicate();
                self.records.set(i, stored);
                self.model = Ghost(m);
                assert forall|k: i64| self.model@.contains_key(k) implies exists|j: int|
                    0 <= j < self.records@.len() && #[trigger] self.records@[j].anime_id == k by {
                    if k != id {
                        let j = choose|j: int|
                            0 <= j < old(self).records@.len() && old(self).records@[j].anime_id
                                == k;
                        assert(self.records@[j].anime_id == k);
                    } else {
                        assert(self.records@[i as int].anime_id == k);
                    }
                }
                Ok(out)
            },
            None => {
                let out = entry.duplicate();
                self.records.push(entry);
                self.model = Ghost(m);
                let ghost n = self.records@.len() - 1;
                assert forall|k: i64| self.model@.contains_key(k) implies exists|j: int|
                    0 <= j < self.records@.len() && #[trigger] self.records@[j].anime_id == k by {
                    if k != id {
                        let j = choose|j: int|
                            0 <= j < old(self).records@.len() && old(self).records@[j].anime_id
                                == k;
                        assert(self.records@[j].anime_id == k);
                    } else {
                        assert(self.records@[n].anime_id == k);
                    }
                }
                Ok(out)
            },
        }
    }

    /// Removes the entry with id `anime_id`; says whether there was one.
    pub fn delete(&mut self, anime_id: i64) -> (r: bool)
        requires
            old(self).wf(),
        ensures
            final(self).wf(),
            r == old(self)@.contains_key(anime_id),
            final(self)@ == old(self)@.remove(anime_id),
    {
        match self.position(anime_id) {
            Some(i) => {
                let ghost old_records = self.records@;
                self.records.remove(i);
                self.model = Ghost(self.model@.remove(anime_id));
                assert forall|k: i64| self.model@.contains_key(k) implies exists|j: int|
                    0 <= j < self.records@.len() && #[trigger] self.records@[j].anime_id == k by {
                    let j = choose|j: int|
                        0 <= j < old_records.len() && old_records[j].anime_id == k;
                    if j < i {
                        assert(self.records@[j].anime_id == k);
                    } else {
                        assert(self.records@[j - 1].anime_id == k);
                    }
                }
                assert forall|j: int| 0 <= j < self.records@.len() implies self.model@.contains_key(
                    #[trigger] self.records@[j].anime_id,
                ) && self.model@[self.records@[j].anime_id] == self.records@[j]@ && is_valid(
                    self.records@[j]@,
                ) by {
                    if j >= i {
                        assert(self.records@[j] == old_records[j + 1]);
                    }
                }
                true
            },
            None => {
                assert(self.model@.remove(anime_id) =~= self.model@);
                false
            },
        }
    }

    /// Removes every entry.
    pub fn clear(&mut self)
        requires
            old(self).wf(),
        ensures
            final(self).wf(),
            final(self)@ == Map::<i64, EntryView>::empty(),
    {
        self.records.clear();
        self.model = Ghost(Map::empty());
    }

    /// The stored entries whose status is `status`, or all of them, each once.
    pub fn list(&self, status: Option<&str>) -> (r: Vec<UserAnime>)
        requires
            self.wf(),
        ensures
            lists(
                views(r@),
                self@,
                match status {
                    Some(s) => Some(s@),
                    None => None,
                },
            ),
    {
        let ghost want = match status {
            Some(s) => Some(s@),
            None => None::<Seq<char>>,
        };
        let mut out: Vec<UserAnime> = Vec::new();
        let ghost picked: Seq<int> = Seq::empty();
        let mut i: usize = 0;
        while i < self.records.len()
            invariant
                self.wf(),
                want == match status {
                    Some(s) => Some(s@),
                    None => None::<Seq<char>>,
                },
                i <= self.records@.len(),
                out@.len() == picked.len(),
                forall|a: int, b: int| 0 <= a < b < picked.len() ==> picked[a] < picked[b],
                forall|a: int|
                    0 <= a < picked.len() ==> 0 <= #[trigger] picked[a] < i && out@[a]@
                        == self.records@[picked[a]]@,
                forall|a: int| 0 <= a < out@.len() ==> has_status(#[trigger] out@[a]@, want),
                forall|j: int|
                    0 <= j < i && has_status(#[trigger] self.records@[j]@, want) ==> exists|a: int|
                        0 <= a < picked.len() && picked[a] == j,
            decreases self.records@.len() - i,
        {
            let keep = match status {
                Some(s) => {
                    let k = same_text(self.records[i].status.as_str(), s);
                    assert(want == Some(s@));
                    assert(self.records@[i as int]@.status == self.records[i as int].status@);
                    k
                },
                None => true,
            };
            assert(keep == has_status(self.records@[i as int]@, want));
            if keep {
                let ghost before = out@;
                out.push(self.records[i].duplicate());
                assert(forall|a: int| 0 <= a < before.len() ==> out@[a] == before[a]);
                assert(out@[before.len() as int]@ == self.records@[i as int]@);
                proof {
                    let old_picked = picked;
                    picked = picked.push(i as int);
                    assert forall|j: int|
                        0 <= j < i + 1 && has_status(#[trigger] self.records@[j]@, want) implies exists|
                        a: int,
                    | 0 <= a < picked.len() && picked[a] == j by {
                        if j == i {
                            assert(picked[picked.len() - 1] == j);
                        } else {
                            let a = choose|a: int| 0 <= a < old_picked.len() && old_picked[a] == j;
                            assert(picked[a] == j);
                        }
                    }
                }
            }
            i = i + 1;
        }
        let ghost es = views(out@);
        assert forall|x: int| 0 <= x < es.len() implies self@.contains_key(#[trigger] es[x].anime_id)
            && self@[es[x].anime_id] == es[x] && has_status(es[x], want) by {
            assert(es[x] == out@[x]@);
            assert(self.records@[picked[x]]@ == es[x]);
        }
        assert forall|x: int, y: int| 0 <= x < y < es.len() implies es[x].anime_id
            != es[y].anime_id by {
            assert(picked[x] < picked[y]);
        }
        assert forall|k: i64|
            self@.contains_key(k) && has_status(self@[k], want) implies exists|
            x: int,
        | 0 <= x < es.len() && #[trigger] es[x].anime_id == k by {
            let j = choose|j: int| 0 <= j < self.records@.len() && self.records@[j].anime_id == k;
            let a = choose|a: int| 0 <= a < picked.len() && picked[a] == j;
            assert(es[a].anime_id == k);
        }
        out
    }

    /// Imports the entries of a snapshot under `options`: the entries in
    /// scope are applied in order, and the store ends as the model says.
    pub fn import_entries(&mut self, entries: &Vec<UserAnime>, options: &ImportOptions) -> (r:
        ImportResult)
        requires
            old(self).wf(),
        ensures
            final(self).wf(),
            ({
                let strategy = strategy_named(options.merge_strategy@);
                let resolution = resolution_named(options.conflict_resolution@);
                let es = scoped(views(entries@), options.import_type@);
                let base = import_base(old(self)@, strategy);
                &&& final(self)@ == stored_after(base, es, strategy, resolution)
                &&& r.accounts_for(es, outcomes(base, es, strategy, resolution))
            }),
            r.is_balanced(),
            r.import_type@ == options.import_type@,
            r.merge_strategy@ == options.merge_strategy@,
    {
        let ghost strategy = strategy_named(options.merge_strategy@);
        let ghost resolution = resolution_named(options.conflict_resolution@);
        let ghost es = scoped(views(entries@), options.import_type@);
        let ghost base = import_base(self@, strategy);
        let mut session = ImportSession::start(entries, options);
        assert(es.take(0) =~= Seq::<EntryView>::empty());
        assert(outcomes(base, es.take(0), strategy, resolution) =~= Seq::<EntryOutcome>::empty());
        if session.needs_clear() {
            self.clear();
            session.cleared();
        }
        proof {
            lemma_settle_follows_model(base, es, Seq::empty(), strategy, resolution);
            lemma_settle_stops(es, Seq::empty());
        }
        while !session.is_finished()
            invariant
                self.wf(),
                session.wf(),
                session.entries() == es,
                session.strategy() == strategy,
                session.resolution() == resolution,
                session.import_type() == options.import_type@,
                session.strategy_name() == options.merge_strategy@,
                session.stage() != Stage::Clearing,
                session.done().len() <= es.len(),
                session.done() == outcomes(
                    base,
                    es.take(session.done().len() as int),
                    strategy,
                    resolution,
                ),
                self@ == stored_after(base, es.take(session.done().len() as int), strategy, resolution),
                session.stage() != Stage::Finished ==> session.done().len() < es.len() && is_valid(
                    es[session.done().len() as int],
                ),
                session.stage() == Stage::Finished ==> session.done().len() == es.len(),
                session.stage() matches Stage::Write(a) ==> a == crate::policy::decision(
                    lookup(self@, es[session.done().len() as int].anime_id),
                    es[session.done().len() as int],
                    strategy,
                    resolution,
                ) && a.spec_writes(),
            decreases 2 * (es.len() - session.done().len()) + if session.stage() == Stage::Lookup {
                1int
            } else {
                0int
            },
        {
            let ghost n = session.done().len() as int;
            let ghost e = es[n];
            assert(es.take(n + 1).drop_last() =~= es.take(n));
            assert(es.take(n + 1).last() == e);
            let ghost old_done = session.done();
            let ghost m0 = self@;
            let ghost stage0 = session.stage();
            assert(stored_after(base, es.take(n + 1), strategy, resolution) == crate::reconcile::store_after_entry(m0, e, strategy, resolution));
            assert(outcomes(base, es.take(n + 1), strategy, resolution) == old_done.push(
                crate::reconcile::outcome_in(m0, e, strategy, resolution),
            ));
            match session.request() {
                StoreRequest::Lookup(id) => {
                    let found = self.get(id);
                    let ghost fv = crate::entry::opt_view(found);
                    assert(fv == lookup(m0, e.anime_id));
                    session.looked_up(Ok(found));
                    proof {
                        let act = crate::policy::decision(fv, e, strategy, resolution);
                        if !act.spec_writes() {
                            let os = old_done.push(EntryOutcome::Applied(act));
                            lemma_settle_stops(es, os);
                            lemma_settle_follows_model(base, es, os, strategy, resolution);
                        }
                    }
                },
                StoreRequest::Write(entry) => {
                    let written = self.upsert(entry);
                    let reply = match written {
                        Ok(_) => Ok(()),
                        Err(_) => Err(String::new()),
                    };
                    session.written(reply);
                    proof {
                        let os = old_done.push(EntryOutcome::Applied(stage0->0));
                        lemma_settle_stops(es, os);
                        lemma_settle_follows_model(base, es, os, strategy, resolution);
                    }
                },
                _ => {
                },
            }
        }
        assert(es.take(es.len() as int) =~= es);
        session.finish()
    }
}

} // verus!
