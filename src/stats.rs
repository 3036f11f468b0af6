//! Totals over a list of entries: how many have each status, the progress
//! summed, and the rated scores summed and counted.
use vstd::prelude::*;

use crate::entry::{EntryView, UserAnime};
use crate::reconcile::views;
use crate::text::same_text;

verus! {

/// How many of the entries have status `s`.
pub open spec fn count_status(es: Seq<EntryView>, s: Seq<char>) -> nat
    decreases es.len(),
{
    if es.len() == 0 {
        0
    } else {
        count_status(es.drop_last(), s) + if es.last().status == s {
            1nat
        } else {
            0nat
        }
    }
}

/// The progress of the entries, summed.
pub open spec fn progress_sum(es: Seq<EntryView>) -> int
    decreases es.len(),
{
    if es.len() == 0 {
        0
    } else {
        progress_sum(es.drop_last()) + es.last().progress
    }
}

/// The scores of the rated entries (score above 0), summed.
pub open spec fn rated_sum(es: Seq<EntryView>) -> int
    decreases es.len(),
{
    if es.len() == 0 {
        0
    } else {
        rated_sum(es.drop_last()) + if es.last().score > 0 {
            es.last().score as int
        } else {
            0
        }
    }
}

/// How many entries are rated.
pub open spec fn rated_count(es: Seq<EntryView>) -> nat
    decreases es.len(),
{
    if es.len() == 0 {
        0
    } else {
        rated_count(es.drop_last()) + if es.last().score > 0 {
            1nat
        } else {
            0nat
        }
    }
}

/// Totals over a list of entries.
#[derive(Debug)]
pub struct ListSummary {
    /// The entries with one of the known statuses.
    pub total: usize,
    pub watching: usize,
    pub completed: usize,
    pub on_hold: usize,
    pub dropped: usize,
    pub plan_to_watch: usize,
    /// The progress of all entries, summed.
    pub total_episodes: i128,
    /// The scores of the rated entries, summed.
    pub rated_total: i128,
    pub rated_count: usize,
}

const I64_MAGNITUDE: i128 = 0x8000_0000_0000_0000;

/// Sums up `entries`.
pub fn summarize(entries: &Vec<UserAnime>) -> (r: ListSummary)
    ensures
        r.watching == count_status(views(entries@), "watching"@),
        r.completed == count_status(views(entries@), "completed"@),
        r.on_hold == count_status(views(entries@), "on_hold"@),
        r.dropped == count_status(views(entries@), "dropped"@),
        r.plan_to_watch == count_status(views(entries@), "planned"@),
        r.total == r.watching + r.completed + r.on_hold + r.dropped + r.plan_to_watch,
        r.total_episodes == progress_sum(views(entries@)),
        r.rated_total == rated_sum(views(entries@)),
        r.rated_count == rated_count(views(entries@)),
{
    let mut r = ListSummary {
        total: 0,
        watching: 0,
        completed: 0,
        on_hold: 0,
        dropped: 0,
        plan_to_watch: 0,
        total_episodes: 0,
        rated_total: 0,
        rated_count: 0,
    };
    let mut i: usize = 0;
    while i < entries.len()
        invariant
            i <= entries@.len(),
            r.watching == count_status(views(entries@).take(i as int), "watching"@),
            r.completed == count_status(views(entries@).take(i as int), "completed"@),
            r.on_hold == count_status(views(entries@).take(i as int), "on_hold"@),
            r.dropped == count_status(views(entries@).take(i as int), "dropped"@),
            r.plan_to_watch == count_status(views(entries@).take(i as int), "planned"@),
            r.total == r.watching + r.completed + r.on_hold + r.dropped + r.plan_to_watch,
            r.total <= i,
            r.rated_count <= i,
            r.total_episodes == progress_sum(views(entries@).take(i as int)),
            r.rated_total == rated_sum(views(entries@).take(i as int)),
            r.rated_count == rated_count(views(entries@).take(i as int)),
            -(i as int) * I64_MAGNITUDE <= r.total_episodes <= (i as int) * I64_MAGNITUDE,
            0 <= r.rated_total <= (i as int) * I64_MAGNITUDE,
        decreases entries@.len() - i,
    {
        let e = &entries[i];
        let ghost pre = views(entries@).take(i as int);
        let ghost es = views(entries@).take(i as int + 1);
        assert(es.drop_last() =~= pre);
        assert(es.last() == e@);
        let s = e.status.as_str();
        proof {
            reveal_strlit("watching");
            reveal_strlit("completed");
            reveal_strlit("on_hold");
            reveal_strlit("dropped");
            reveal_strlit("planned");
            assert("watching"@[0] != "completed"@[0]);
            assert("watching"@[0] != "on_hold"@[0]);
            assert("watching"@[0] != "dropped"@[0]);
            assert("watching"@[0] != "planned"@[0]);
            assert("completed"@[0] != "on_hold"@[0]);
            assert("completed"@[0] != "dropped"@[0]);
            assert("completed"@[0] != "planned"@[0]);
            assert("on_hold"@[0] != "dropped"@[0]);
            assert("on_hold"@[0] != "planned"@[0]);
            assert("dropped"@[0] != "planned"@[0]);
        }
        if same_text(s, "watching") {
            r.watching = r.watching + 1;
            r.total = r.total + 1;
        } else if same_text(s, "completed") {
            r.completed = r.completed + 1;
            r.total = r.total + 1;
        } else if same_text(s, "on_hold") {
            r.on_hold = r.on_hold + 1;
            r.total = r.total + 1;
        } else if same_text(s, "dropped") {
            r.dropped = r.dropped + 1;
            r.total = r.total + 1;
        } else if same_text(s, "planned") {
            r.plan_to_watch = r.plan_to_watch + 1;
            r.total = r.total + 1;
        }
        r.total_episodes = r.total_episodes + e.progress as i128;
        if e.score > 0 {
            r.rated_total = r.rated_total + e.score as i128;
            r.rated_count = r.rated_count + 1;
        }
        i = i + 1;
    }
    assert(views(entries@).take(entries@.len() as int) =~= views(entries@));
    r
}

} // verus!
