//! Properties of imports, proved over the model that the import functions
//! are specified against (`stored_after`, `outcomes`).
use vstd::prelude::*;

use crate::entry::{is_valid, EntryView};
use crate::memory::{is_store_view, lists};
use crate::outcome::{count_action, lemma_outcomes_partition, EntryOutcome, ImportResult};
use crate::policy::{ConflictResolution, EntryAction, MergeStrategy};
use crate::reconcile::{in_scope, outcomes, scoped, stored_after};

verus! {

/// There is one outcome per entry.
pub proof fn lemma_outcomes_len(
    m: Map<i64, EntryView>,
    es: Seq<EntryView>,
    strategy: MergeStrategy,
    resolution: ConflictResolution,
)
    ensures
        outcomes(m, es, strategy, resolution).len() == es.len(),
    decreases es.len(),
{
    if es.len() > 0 {
        lemma_outcomes_len(m, es.drop_last(), strategy, resolution);
    }
}

/// An import never removes a stored id, and leaves the id of every valid
/// entry stored.
pub proof fn lemma_ids_stay_stored(
    m: Map<i64, EntryView>,
    es: Seq<EntryView>,
    strategy: MergeStrategy,
    resolution: ConflictResolution,
)
    ensures
        forall|k: i64| m.contains_key(k) ==> #[trigger] stored_after(m, es, strategy, resolution).contains_key(k),
        forall|i: int|
            0 <= i < es.len() && is_valid(es[i]) ==> stored_after(m, es, strategy, resolution).contains_key(
                #[trigger] es[i].anime_id,
            ),
    decreases es.len(),
{
    if es.len() > 0 {
        let rest = es.drop_last();
        lemma_ids_stay_stored(m, rest, strategy, resolution);
        let before = stored_after(m, rest, strategy, resolution);
        assert forall|k: i64| before.contains_key(k) implies #[trigger] stored_after(
            m,
            es,
            strategy,
            resolution,
        ).contains_key(k) by {}
        assert forall|i: int|
            0 <= i < es.len() && is_valid(es[i]) implies stored_after(m, es, strategy, resolution).contains_key(
            #[trigger] es[i].anime_id,
        ) by {
            if i < es.len() - 1 {
                assert(rest[i] == es[i]);
            }
        }
    }
}

/// Entries that are all valid and all stored meet one and the same action
/// under these policies.
pub open spec fn settled_action(
    strategy: MergeStrategy,
    resolution: ConflictResolution,
    a: EntryAction,
) -> bool {
    ||| strategy == MergeStrategy::Merge && resolution == ConflictResolution::UseImported && a
        == EntryAction::Overwrite
    ||| strategy == MergeStrategy::Merge && resolution == ConflictResolution::KeepExisting && a
        == EntryAction::KeepExisting
    ||| strategy == MergeStrategy::SkipExisting && a == EntryAction::Skip
}

proof fn lemma_all_stored(
    m: Map<i64, EntryView>,
    es: Seq<EntryView>,
    strategy: MergeStrategy,
    resolution: ConflictResolution,
    a: EntryAction,
)
    requires
        settled_action(strategy, resolution, a),
        forall|i: int| 0 <= i < es.len() ==> is_valid(#[trigger] es[i]),
        forall|i: int| 0 <= i < es.len() ==> m.contains_key(#[trigger] es[i].anime_id),
    ensures
        count_action(outcomes(m, es, strategy, resolution), a) == es.len(),
        forall|b: EntryAction|
            b != a ==> #[trigger] count_action(outcomes(m, es, strategy, resolution), b) == 0,
    decreases es.len(),
{
    if es.len() > 0 {
        let rest = es.drop_last();
        assert forall|i: int| 0 <= i < rest.len() implies is_valid(#[trigger] rest[i]) by {
            assert(rest[i] == es[i]);
        }
        assert forall|i: int| 0 <= i < rest.len() implies m.contains_key(#[trigger] rest[i].anime_id) by {
            assert(rest[i] == es[i]);
        }
        lemma_all_stored(m, rest, strategy, resolution, a);
        lemma_ids_stay_stored(m, rest, strategy, resolution);
        let e = es[es.len() - 1];
        assert(is_valid(e));
        assert(m.contains_key(e.anime_id));
        let os = outcomes(m, es, strategy, resolution);
        assert(os.drop_last() == outcomes(m, rest, strategy, resolution));
        assert(os.last() == EntryOutcome::Applied(a));
        assert forall|b: EntryAction| b != a implies #[trigger] count_action(os, b) == 0 by {
            assert(count_action(outcomes(m, rest, strategy, resolution), b) == 0);
        }
    }
}

/// Every import report whose counters are those of a full run of outcomes
/// accounts for each entry in scope exactly once:
/// `total == imported + updated + skipped + errors`.
pub proof fn law_report_balanced(
    r: ImportResult,
    m: Map<i64, EntryView>,
    es: Seq<EntryView>,
    strategy: MergeStrategy,
    resolution: ConflictResolution,
)
    requires
        r.accounts_for(es, outcomes(m, es, strategy, resolution)),
    ensures
        r.is_balanced(),
{
    lemma_outcomes_len(m, es, strategy, resolution);
    lemma_outcomes_partition(es, outcomes(m, es, strategy, resolution));
}

/// Importing the same valid entries a second time with the `use_imported`
/// policy inserts nothing and updates every entry in scope.
pub proof fn law_reimport_use_imported(m: Map<i64, EntryView>, entries: Seq<EntryView>, scope: Seq<char>)
    requires
        forall|i: int|
            0 <= i < scoped(entries, scope).len() ==> is_valid(#[trigger] scoped(entries, scope)[i]),
    ensures
        ({
            let es = scoped(entries, scope);
            let s = MergeStrategy::Merge;
            let c = ConflictResolution::UseImported;
            let second = outcomes(stored_after(m, es, s, c), es, s, c);
            &&& count_action(second, EntryAction::Insert) == 0
            &&& count_action(second, EntryAction::Overwrite) == es.len()
        }),
{
    let es = scoped(entries, scope);
    let s = MergeStrategy::Merge;
    let c = ConflictResolution::UseImported;
    lemma_ids_stay_stored(m, es, s, c);
    lemma_all_stored(stored_after(m, es, s, c), es, s, c, EntryAction::Overwrite);
}

/// Importing the same valid entries a second time with the `keep_existing`
/// policy, merging or skipping stored ids, skips every entry in scope.
pub proof fn law_reimport_keep_existing(
    m: Map<i64, EntryView>,
    entries: Seq<EntryView>,
    scope: Seq<char>,
    strategy: MergeStrategy,
)
    requires
        strategy != MergeStrategy::Replace,
        forall|i: int|
            0 <= i < scoped(entries, scope).len() ==> is_valid(#[trigger] scoped(entries, scope)[i]),
    ensures
        ({
            let es = scoped(entries, scope);
            let c = ConflictResolution::KeepExisting;
            let second = outcomes(stored_after(m, es, strategy, c), es, strategy, c);
            &&& count_action(second, EntryAction::Skip) + count_action(
                second,
                EntryAction::KeepExisting,
            ) == es.len()
            &&& count_action(second, EntryAction::Insert) == 0
            &&& count_action(second, EntryAction::Overwrite) == 0
        }),
{
    let es = scoped(entries, scope);
    let c = ConflictResolution::KeepExisting;
    lemma_ids_stay_stored(m, es, strategy, c);
    let a = if strategy == MergeStrategy::Merge {
        EntryAction::KeepExisting
    } else {
        EntryAction::Skip
    };
    lemma_all_stored(stored_after(m, es, strategy, c), es, strategy, c, a);
}

/// Under `Replace`, valid entries with distinct ids applied to an empty
/// store are each inserted, and the store ends holding exactly them.
proof fn lemma_fresh_inserts(es: Seq<EntryView>, resolution: ConflictResolution)
    requires
        forall|i: int| 0 <= i < es.len() ==> is_valid(#[trigger] es[i]),
        forall|i: int, j: int| 0 <= i < j < es.len() ==> es[i].anime_id != es[j].anime_id,
    ensures
        ({
            let r = stored_after(Map::empty(), es, MergeStrategy::Replace, resolution);
            &&& r.dom().finite()
            &&& r.dom().len() == es.len()
            &&& forall|i: int|
                0 <= i < es.len() ==> r.contains_key(#[trigger] es[i].anime_id) && r[es[i].anime_id]
                    == es[i]
            &&& forall|k: i64|
                r.contains_key(k) ==> exists|i: int| 0 <= i < es.len() && #[trigger] es[i].anime_id == k
            &&& count_action(
                outcomes(Map::empty(), es, MergeStrategy::Replace, resolution),
                EntryAction::Insert,
            ) == es.len()
        }),
    decreases es.len(),
{
    let s = MergeStrategy::Replace;
    if es.len() == 0 {
        assert(stored_after(Map::empty(), es, s, resolution).dom() =~= Set::<i64>::empty());
    } else {
        let rest = es.drop_last();
        let n = es.len() - 1;
        let e = es[n];
        assert forall|i: int| 0 <= i < rest.len() implies is_valid(#[trigger] rest[i]) by {
            assert(rest[i] == es[i]);
        }
        lemma_fresh_inserts(rest, resolution);
        let before = stored_after(Map::empty(), rest, s, resolution);
        if before.contains_key(e.anime_id) {
            let i = choose|i: int| 0 <= i < rest.len() && #[trigger] rest[i].anime_id == e.anime_id;
            assert(rest[i] == es[i]);
        }
        assert(is_valid(e));
        let r = stored_after(Map::empty(), es, s, resolution);
        assert(r == before.insert(e.anime_id, e));
        assert(r.dom() =~= before.dom().insert(e.anime_id));
        assert(!before.dom().contains(e.anime_id));
        assert(r.dom().len() == before.dom().len() + 1);
        let os = outcomes(Map::empty(), es, s, resolution);
        assert(os.drop_last() == outcomes(Map::empty(), rest, s, resolution));
        assert(os.last() == EntryOutcome::Applied(EntryAction::Insert));
        assert forall|i: int|
            0 <= i < es.len() implies r.contains_key(#[trigger] es[i].anime_id) && r[es[i].anime_id]
            == es[i] by {
            if i < n {
                assert(rest[i] == es[i]);
            }
        }
        assert forall|k: i64| r.contains_key(k) implies exists|i: int|
            0 <= i < es.len() && #[trigger] es[i].anime_id == k by {
            if k != e.anime_id {
                let i = choose|i: int| 0 <= i < rest.len() && #[trigger] rest[i].anime_id == k;
                assert(es[i] == rest[i]);
            } else {
                assert(es[n].anime_id == k);
            }
        }
    }
}

/// A replacing import of valid entries with distinct ids leaves the store
/// holding exactly the entries in scope, whatever it held before, and
/// counts every one of them as imported.
pub proof fn law_replace_holds_exactly_snapshot(
    m: Map<i64, EntryView>,
    entries: Seq<EntryView>,
    scope: Seq<char>,
    resolution: ConflictResolution,
)
    requires
        forall|i: int|
            0 <= i < scoped(entries, scope).len() ==> is_valid(#[trigger] scoped(entries, scope)[i]),
        forall|i: int, j: int|
            0 <= i < j < scoped(entries, scope).len() ==> scoped(entries, scope)[i].anime_id
                != scoped(entries, scope)[j].anime_id,
    ensures
        ({
            let es = scoped(entries, scope);
            let s = MergeStrategy::Replace;
            let r = stored_after(crate::reconcile::import_base(m, s), es, s, resolution);
            &&& r.dom().len() == es.len()
            &&& forall|i: int|
                0 <= i < es.len() ==> r.contains_key(#[trigger] es[i].anime_id) && r[es[i].anime_id]
                    == es[i]
            &&& forall|k: i64|
                r.contains_key(k) ==> exists|i: int| 0 <= i < es.len() && #[trigger] es[i].anime_id == k
            &&& count_action(
                outcomes(crate::reconcile::import_base(m, s), es, s, resolution),
                EntryAction::Insert,
            ) == es.len()
        }),
{
    lemma_fresh_inserts(scoped(entries, scope), resolution);
}

/// The scope `all` keeps every entry.
pub proof fn lemma_scope_all(es: Seq<EntryView>)
    ensures
        scoped(es, "all"@) == es,
    decreases es.len(),
{
    if es.len() > 0 {
        lemma_scope_all(es.drop_last());
        assert(in_scope(es.last(), "all"@));
        assert(es.drop_last().push(es.last()) =~= es);
    }
}

/// Entries that each equal the stored entry with their id leave the store
/// as it was under `use_imported`.
proof fn lemma_same_entries_keep_store(m: Map<i64, EntryView>, es: Seq<EntryView>)
    requires
        forall|i: int| 0 <= i < es.len() ==> is_valid(#[trigger] es[i]),
        forall|i: int|
            0 <= i < es.len() ==> m.contains_key(#[trigger] es[i].anime_id) && m[es[i].anime_id] == es[i],
    ensures
        stored_after(m, es, MergeStrategy::Merge, ConflictResolution::UseImported) == m,
    decreases es.len(),
{
    if es.len() > 0 {
        let rest = es.drop_last();
        assert forall|i: int| 0 <= i < rest.len() implies is_valid(#[trigger] rest[i]) by {
            assert(rest[i] == es[i]);
        }
        assert forall|i: int| 0 <= i < rest.len() implies m.contains_key(#[trigger] rest[i].anime_id)
            && m[rest[i].anime_id] == rest[i] by {
            assert(rest[i] == es[i]);
        }
        lemma_same_entries_keep_store(m, rest);
        let e = es[es.len() - 1];
        assert(is_valid(e));
        assert(m.insert(e.anime_id, e) =~= m);
    }
}

/// Exporting every stored entry and importing that snapshot straight back
/// with scope `all`, merging with `use_imported`, updates every entry,
/// inserts and skips none, and leaves the store as it was.
pub proof fn law_round_trip(m: Map<i64, EntryView>, listing: Seq<EntryView>)
    requires
        is_store_view(m),
        lists(listing, m, None),
    ensures
        ({
            let s = MergeStrategy::Merge;
            let c = ConflictResolution::UseImported;
            let es = scoped(listing, "all"@);
            let os = outcomes(m, es, s, c);
            &&& stored_after(m, es, s, c) == m
            &&& count_action(os, EntryAction::Overwrite) == es.len()
            &&& count_action(os, EntryAction::Insert) == 0
            &&& count_action(os, EntryAction::Skip) == 0
            &&& count_action(os, EntryAction::KeepExisting) == 0
        }),
{
    lemma_scope_all(listing);
    assert forall|i: int| 0 <= i < listing.len() implies is_valid(#[trigger] listing[i]) by {
        assert(m.contains_key(listing[i].anime_id));
    }
    lemma_same_entries_keep_store(m, listing);
    lemma_all_stored(
        m,
        listing,
        MergeStrategy::Merge,
        ConflictResolution::UseImported,
        EntryAction::Overwrite,
    );
}

} // verus!
