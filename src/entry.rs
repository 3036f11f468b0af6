//! One tracked item of the watch list, its mathematical view and its
//! domain rules.
use vstd::prelude::*;

use crate::text::same_text;

verus! {

/// One tracked item. `anime_id` is the stable identity assigned by the
/// catalog; `id` is the row number a store may have given it, and takes no
/// part in the item's identity or contents.
#[derive(Debug)]
pub struct UserAnime {
    pub id: Option<i64>,
    pub anime_id: i64,
    pub status: String,
    pub score: i64,
    pub progress: i64,
    pub notes: String,
    pub favorite: bool,
    pub start_date: Option<String>,
    pub end_date: Option<String>,
    pub image_url: String,
    pub title: String,
}

/// What an entry holds, as mathematical values, apart from its row number.
pub struct EntryView {
    pub anime_id: i64,
    pub status: Seq<char>,
    pub score: i64,
    pub progress: i64,
    pub notes: Seq<char>,
    pub favorite: bool,
    pub start_date: Option<Seq<char>>,
    pub end_date: Option<Seq<char>>,
    pub image_url: Seq<char>,
    pub title: Seq<char>,
}

pub open spec fn opt_text(o: Option<String>) -> Option<Seq<char>> {
    match o {
        Some(s) => Some(s@),
        None => None,
    }
}

/// The view of an entry that may be absent.
pub open spec fn opt_view(o: Option<UserAnime>) -> Option<EntryView> {
    match o {
        Some(e) => Some(e@),
        None => None,
    }
}

impl View for UserAnime {
    type V = EntryView;

    open spec fn view(&self) -> EntryView {
        EntryView {
            anime_id: self.anime_id,
            status: self.status@,
            score: self.score,
            progress: self.progress,
            notes: self.notes@,
            favorite: self.favorite,
            start_date: opt_text(self.start_date),
            end_date: opt_text(self.end_date),
            image_url: self.image_url@,
            title: self.title@,
        }
    }
}

/// The highest score; 0 means "not rated".
pub const MAX_SCORE: i64 = 10;

/// The statuses an entry may have.
pub open spec fn is_status_name(s: Seq<char>) -> bool {
    ||| s == "watching"@
    ||| s == "completed"@
    ||| s == "on_hold"@
    ||| s == "dropped"@
    ||| s == "planned"@
}

/// Why an entry breaks the domain rules.
#[derive(Debug, Clone, Copy, PartialEq, Eq, Structural)]
pub enum EntryProblem {
    UnknownStatus,
    ScoreOutOfRange,
    NegativeProgress,
}

/// The first domain rule that `e` breaks, if any: the status must be one of
/// the known names, the score within 0 to 10, the progress not negative.
pub open spec fn problem_of(e: EntryView) -> Option<EntryProblem> {
    if !is_status_name(e.status) {
        Some(EntryProblem::UnknownStatus)
    } else if e.score < 0 || e.score > MAX_SCORE {
        Some(EntryProblem::ScoreOutOfRange)
    } else if e.progress < 0 {
        Some(EntryProblem::NegativeProgress)
    } else {
        None
    }
}

pub open spec fn is_valid(e: EntryView) -> bool {
    problem_of(e) is None
}

/// Whether `s` is one of the status names.
pub fn is_known_status(s: &str) -> (r: bool)
    ensures
        r == is_status_name(s@),
{
    same_text(s, "watching") || same_text(s, "completed") || same_text(s, "on_hold")
        || same_text(s, "dropped") || same_text(s, "planned")
}

fn copy_text(o: &Option<String>) -> (r: Option<String>)
    ensures
        opt_text(r) == opt_text(*o),
{
    match o {
        Some(s) => Some(s.clone()),
        None => None,
    }
}

impl UserAnime {
    /// Checks the entry against the domain rules.
    pub fn problem(&self) -> (r: Option<EntryProblem>)
        ensures
            r == problem_of(self@),
    {
        if !is_known_status(self.status.as_str()) {
            Some(EntryProblem::UnknownStatus)
        } else if self.score < 0 || self.score > MAX_SCORE {
            Some(EntryProblem::ScoreOutOfRange)
        } else if self.progress < 0 {
            Some(EntryProblem::NegativeProgress)
        } else {
            None
        }
    }

    /// A field-by-field copy.
    pub fn duplicate(&self) -> (r: UserAnime)
        ensures
            r@ == self@,
            r.id == self.id,
    {
        UserAnime {
            id: self.id,
            anime_id: self.anime_id,
            status: self.status.clone(),
            score: self.score,
            progress: self.progress,
            notes: self.notes.clone(),
            favorite: self.favorite,
            start_date: copy_text(&self.start_date),
            end_date: copy_text(&self.end_date),
            image_url: self.image_url.clone(),
            title: self.title.clone(),
        }
    }
}

} // verus!
