//! Snapshots: what an export holds, how one is built from a store's
//! entries, and the checks an import makes before it touches a store.
use vstd::prelude::*;

use crate::entry::{is_status_name, is_known_status, UserAnime};
use crate::memory::{is_store_view, lists, MemoryStore};
use crate::outcome::{ImportError, ImportResult};
use crate::outcome::EntryOutcome;
use crate::policy::{resolution_named, strategy_named, MergeStrategy};
use crate::reconcile::{
    import_base, outcomes, scoped, settle, stored_after, views, ImportOptions, ImportSession,
    Stage,
};

verus! {

/// The format version that exports are written in.
pub const FORMAT_VERSION: &'static str = "1.1";

/// The scope name of an export of every entry.
pub const FULL_EXPORT: &'static str = "full";

/// Where a snapshot was made, by what, of which entries, and how many.
#[derive(Debug)]
pub struct ExportMetadata {
    pub app_version: String,
    pub os: String,
    pub device_name: String,
    /// `full`, or the status whose entries were exported.
    pub export_type: String,
    pub entry_count: usize,
}

/// A snapshot of the watch list.
#[derive(Debug)]
pub struct ExportData {
    /// The format version, `major.minor`.
    pub version: String,
    pub timestamp: String,
    pub metadata: ExportMetadata,
    pub anime_list: Vec<UserAnime>,
}

/// What an export reports to its caller.
#[derive(Debug)]
pub struct ExportResponse {
    pub path: String,
    pub entry_count: usize,
    pub export_type: String,
    pub timestamp: String,
}

/// A version is read when its major component, the text before the first
/// `.`, is `1`.
pub open spec fn is_supported_version(v: Seq<char>) -> bool {
    v.len() >= 1 && v[0] == '1' && (v.len() == 1 || v[1] == '.')
}

/// The format that exports are written in is one that imports read.
pub proof fn lemma_own_version_supported()
    ensures
        is_supported_version(FORMAT_VERSION@),
{
    reveal_strlit("1.1");
}

pub fn supports_version(v: &str) -> (r: bool)
    ensures
        r == is_supported_version(v@),
{
    let n = v.unicode_len();
    if n == 0 || v.get_char(0) != '1' {
        return false;
    }
    n == 1 || v.get_char(1) == '.'
}

/// Refuses a snapshot whose format version has another major component.
pub fn check_version(data: &ExportData) -> (r: Result<(), ImportError>)
    ensures
        is_supported_version(data.version@) <==> r is Ok,
        r matches Err(e) ==> e matches ImportError::UnsupportedVersion(v) && v@ == data.version@,
{
    if supports_version(data.version.as_str()) {
        Ok(())
    } else {
        Err(ImportError::UnsupportedVersion(data.version.clone()))
    }
}

/// Opens an import of a snapshot, once its version is one this library reads.
pub fn open_import(data: &ExportData, options: &ImportOptions) -> (r: Result<ImportSession, ImportError>)
    ensures
        is_supported_version(data.version@) <==> r is Ok,
        r matches Err(e) ==> e matches ImportError::UnsupportedVersion(v) && v@ == data.version@,
        r matches Ok(s) ==> {
            &&& s.wf()
            &&& s.entries() == scoped(views(data.anime_list@), options.import_type@)
            &&& s.strategy() == strategy_named(options.merge_strategy@)
            &&& s.resolution() == resolution_named(options.conflict_resolution@)
            &&& s.import_type() == options.import_type@
            &&& s.strategy_name() == options.merge_strategy@
            &&& s.strategy() == MergeStrategy::Replace ==> s.stage() == Stage::Clearing
                && s.done() == Seq::<EntryOutcome>::empty()
            &&& s.strategy() != MergeStrategy::Replace ==> s.done() == settle(
                s.entries(),
                Seq::empty(),
            ) && s.stage() == s.stage_after(s.done())
        },
{
    match check_version(data) {
        Ok(()) => Ok(ImportSession::start(&data.anime_list, options)),
        Err(e) => Err(e),
    }
}

/// The status whose entries an export of type `export_type` lists: the
/// type itself where it names a status, and none (every entry) otherwise.
pub open spec fn export_status(export_type: Option<Seq<char>>) -> Option<Seq<char>> {
    match export_type {
        Some(t) => if is_status_name(t) {
            Some(t)
        } else {
            None
        },
        None => None,
    }
}

pub fn export_filter(export_type: &Option<String>) -> (r: Option<&str>)
    ensures
        match r {
            Some(s) => export_status(crate::entry::opt_text(*export_type)) == Some(s@),
            None => export_status(crate::entry::opt_text(*export_type)) is None,
        },
{
    match export_type {
        Some(t) => if is_known_status(t.as_str()) {
            Some(t.as_str())
        } else {
            None
        },
        None => None,
    }
}

/// The scope name recorded in a snapshot: the requested type, or `full`.
pub open spec fn export_type_name(export_type: Option<Seq<char>>) -> Seq<char> {
    match export_type {
        Some(t) => t,
        None => FULL_EXPORT@,
    }
}

/// Builds the snapshot of `anime_list`, counting the entries itself.
pub fn build_export(
    anime_list: Vec<UserAnime>,
    export_type: Option<String>,
    timestamp: String,
    app_version: String,
    os: String,
    device_name: String,
) -> (r: ExportData)
    ensures
        r.version@ == FORMAT_VERSION@,
        r.timestamp == timestamp,
        r.metadata.app_version == app_version,
        r.metadata.os == os,
        r.metadata.device_name == device_name,
        r.metadata.export_type@ == export_type_name(crate::entry::opt_text(export_type)),
        r.metadata.entry_count == anime_list@.len(),
        r.anime_list == anime_list,
{
    let entry_count = anime_list.len();
    let export_type = match export_type {
        Some(t) => t,
        None => String::from_str(FULL_EXPORT),
    };
    ExportData {
        version: String::from_str(FORMAT_VERSION),
        timestamp,
        metadata: ExportMetadata { app_version, os, device_name, export_type, entry_count },
        anime_list,
    }
}

/// The name of the file an export of type `export_type` is written to when
/// no path is given: `anitrack_export_<type>_<stamp>.json`.
pub fn export_file_name(export_type: &Option<String>, stamp: &str) -> (r: String)
    ensures
        r@ == "anitrack_export_"@ + export_type_name(crate::entry::opt_text(*export_type)) + "_"@
            + stamp@ + ".json"@,
{
    let kind = match export_type {
        Some(t) => t.as_str(),
        None => FULL_EXPORT,
    };
    String::from_str("anitrack_export_").concat(kind).concat("_").concat(stamp).concat(".json")
}

/// What an export reports once its snapshot is written to `path`.
pub fn export_response(data: &ExportData, path: String) -> (r: ExportResponse)
    ensures
        r.path == path,
        r.entry_count == data.metadata.entry_count,
        r.export_type == data.metadata.export_type,
        r.timestamp == data.timestamp,
{
    ExportResponse {
        path,
        entry_count: data.metadata.entry_count,
        export_type: data.metadata.export_type.clone(),
        timestamp: data.timestamp.clone(),
    }
}

impl MemoryStore {
    /// Exports the entries of type `export_type` (every entry where it names
    /// no status) as a snapshot.
    pub fn export(
        &self,
        export_type: Option<String>,
        timestamp: String,
        app_version: String,
        os: String,
        device_name: String,
    ) -> (r: ExportData)
        requires
            self.wf(),
        ensures
            is_store_view(self@),
            lists(views(r.anime_list@), self@, export_status(crate::entry::opt_text(export_type))),
            r.version@ == FORMAT_VERSION@,
            r.metadata.entry_count == r.anime_list@.len(),
            r.metadata.export_type@ == export_type_name(crate::entry::opt_text(export_type)),
            r.timestamp == timestamp,
    {
        proof {
            self.lemma_store_view();
        }
        let entries = self.list(export_filter(&export_type));
        build_export(entries, export_type, timestamp, app_version, os, device_name)
    }

    /// Imports a snapshot under `options`, once its version is one this
    /// library reads.
    pub fn import_snapshot(&mut self, data: &ExportData, options: &ImportOptions) -> (r: Result<
        ImportResult,
        ImportError,
    >)
        requires
            old(self).wf(),
        ensures
            final(self).wf(),
            is_supported_version(data.version@) <==> r is Ok,
            r matches Err(e) ==> e matches ImportError::UnsupportedVersion(v) && v@
                == data.version@ && final(self)@ == old(self)@,
            r matches Ok(res) ==> ({
                let strategy = strategy_named(options.merge_strategy@);
                let resolution = resolution_named(options.conflict_resolution@);
                let es = scoped(views(data.anime_list@), options.import_type@);
                let base = import_base(old(self)@, strategy);
                &&& final(self)@ == stored_after(base, es, strategy, resolution)
                &&& res.accounts_for(es, outcomes(base, es, strategy, resolution))
                &&& res.is_balanced()
            }),
    {
        match check_version(data) {
            Ok(()) => Ok(self.import_entries(&data.anime_list, options)),
            Err(e) => Err(e),
        }
    }
}

} // verus!
