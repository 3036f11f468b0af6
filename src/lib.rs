//! A personal watch list and the engine that moves it between devices:
//! snapshots of the list are built for export, and a snapshot taken elsewhere
//! is reconciled into a keyed store under a scope, a merge strategy and a
//! conflict policy, with an exact account of what happened to every entry.

pub mod text;
pub mod entry;
pub mod date;
pub mod policy;
pub mod outcome;
pub mod reconcile;
pub mod memory;
pub mod snapshot;
pub mod laws;
pub mod stats;

pub use entry::{EntryProblem, UserAnime};
pub use memory::MemoryStore;
pub use outcome::{EntryError, EntryFault, ImportError, ImportResult};
pub use policy::{decide, ConflictResolution, EntryAction, MergeStrategy};
pub use reconcile::{scope_entries, ImportOptions, ImportSession, StoreRequest};
pub use snapshot::{
    build_export, check_version, export_file_name, export_filter, export_response, open_import,
    ExportData, ExportMetadata, ExportResponse, FORMAT_VERSION,
};
pub use stats::{summarize, ListSummary};
