//! Decision logic of the Warehouse game updater client: which game is
//! updated from where, when an update is due, where each file of an update
//! goes, how a download advances, and the order of the steps of a whole run.
//! The network, the file system and the dialogs are driven by the caller,
//! which hands the results back to the functions here.

pub mod client;
pub mod coalesced;
pub mod download;
pub mod flow;
pub mod games;
pub mod path;
pub mod search;
pub mod text;
pub mod version;

pub use client::{
    ApplyPlan, BackupPlan, EntryKind, FileTransfer, UnpackPlan, UnpackStep, WHUpdateClient, ZipEntry,
};
pub use coalesced::{
    coalesced_path, foc_coal_update, CoalescedKind, CoalescedPlan, CoalescedReplacement,
    DEFAULT_STEAM_COAL_HASH, WH_COAL_HASH,
};
pub use download::{DownloadError, DownloadProgress};
pub use flow::{flow_step, FlowAction, FlowEvent, FlowStage, FlowStep};
pub use games::{update_base_url, WHGames};
pub use path::FsPath;
pub use search::{search_step, SearchAction, SearchEvent, SearchStage};
pub use text::strip_newlines;
pub use version::{needs_update, VersionCmp};
