//! The cache store: one payload in one file, read and replaced as a whole.

use crate::error::ApiError;
use vstd::prelude::*;

verus! {

/// The directory that holds the cache file.
pub open spec fn cache_dir() -> Seq<char> {
    ".cache"@
}

/// The file that holds the cached payload, byte for byte.
pub open spec fn cache_file() -> Seq<char> {
    ".cache/bookmarks.json"@
}

/// What happened on the disk since the last step.
#[derive(Debug, PartialEq, Eq)]
pub enum DiskEvent {
    /// The store is asked to do its work.
    Call,
    /// The probe found something at the path, or nothing.
    Probed { exists: bool },
    /// The file was read and held these bytes.
    Read { bytes: Vec<u8> },
    /// The operation asked for succeeded.
    Completed,
    /// The operation asked for failed.
    Failed,
}

/// What a `DiskEvent` holds.
pub enum DiskEventView {
    Call,
    Probed { exists: bool },
    Read { bytes: Seq<u8> },
    Completed,
    Failed,
}

impl View for DiskEvent {
    type V = DiskEventView;

    open spec fn view(&self) -> DiskEventView {
        match self {
            DiskEvent::Call => DiskEventView::Call,
            DiskEvent::Probed { exists } => DiskEventView::Probed { exists: *exists },
            DiskEvent::Read { bytes } => DiskEventView::Read { bytes: bytes@ },
            DiskEvent::Completed => DiskEventView::Completed,
            DiskEvent::Failed => DiskEventView::Failed,
        }
    }
}

/// How far a reading of the cache has come.
#[derive(Clone, Copy, Debug, PartialEq, Eq)]
pub enum LoadState {
    /// Nothing has been asked yet.
    Idle,
    /// The cache file is being looked for.
    Probing,
    /// The cache file is being read.
    Reading,
    /// The reading has ended.
    Done,
}

/// What is to be done next to read the cache.
#[derive(Debug, PartialEq, Eq)]
pub enum LoadAction {
    /// Find out whether anything lies at `path` and report it.
    Probe { path: String },
    /// Read the file at `path` in full and report its bytes.
    Read { path: String },
    /// The reading has ended: the cache holds this payload, or nothing.
    Loaded { payload: Option<Vec<u8>> },
    /// The reading has ended with this failure.
    Fail { error: ApiError },
}

/// What a `LoadAction` holds.
pub enum LoadActionView {
    Probe { path: Seq<char> },
    Read { path: Seq<char> },
    Loaded { payload: Option<Seq<u8>> },
    Fail { error: ApiError },
}

impl View for LoadAction {
    type V = LoadActionView;

    open spec fn view(&self) -> LoadActionView {
        match self {
            LoadAction::Probe { path } => LoadActionView::Probe { path: path@ },
            LoadAction::Read { path } => LoadActionView::Read { path: path@ },
            LoadAction::Loaded { payload } => LoadActionView::Loaded {
                payload: match payload {
                    Some(bytes) => Some(bytes@),
                    None => None,
                },
            },
            LoadAction::Fail { error } => LoadActionView::Fail { error: *error },
        }
    }
}

/// One step of reading the cache: the state after `event` and what is to be
/// done next.
///
/// The file is looked for first. Where there is none the cache is empty,
/// which is no failure. Where there is one it is read, and its bytes are the
/// payload; a file that cannot be read is an I/O failure. An event that the
/// state does not await ends the reading with an internal failure.
pub open spec fn load_step(state: LoadState, event: DiskEventView) -> (LoadState, LoadActionView) {
    match (state, event) {
        (LoadState::Idle, DiskEventView::Call) => (
            LoadState::Probing,
            LoadActionView::Probe { path: cache_file() },
        ),
        (LoadState::Probing, DiskEventView::Probed { exists }) => if exists {
            (LoadState::Reading, LoadActionView::Read { path: cache_file() })
        } else {
            (LoadState::Done, LoadActionView::Loaded { payload: None })
        },
        (LoadState::Reading, DiskEventView::Read { bytes }) => (
            LoadState::Done,
            LoadActionView::Loaded { payload: Some(bytes) },
        ),
        (LoadState::Reading, DiskEventView::Failed) => (
            LoadState::Done,
            LoadActionView::Fail { error: ApiError::Io },
        ),
        _ => (LoadState::Done, LoadActionView::Fail { error: ApiError::Internal }),
    }
}

/// One step of reading the cache. The caller of this function does what the
/// action says and comes back with the event that resulted, until the action
/// is `Loaded` or `Fail`.
pub fn load_cache(state: LoadState, event: DiskEvent) -> (next: (LoadState, LoadAction))
    ensures
        (next.0, next.1@) == load_step(state, event@),
{
    match (state, event) {
        (LoadState::Idle, DiskEvent::Call) => (
            LoadState::Probing,
            LoadAction::Probe { path: ".cache/bookmarks.json".to_owned() },
        ),
        (LoadState::Probing, DiskEvent::Probed { exists }) => if exists {
            (LoadState::Reading, LoadAction::Read { path: ".cache/bookmarks.json".to_owned() })
        } else {
            (LoadState::Done, LoadAction::Loaded { payload: None })
        },
        (LoadState::Reading, DiskEvent::Read { bytes }) => (
            LoadState::Done,
            LoadAction::Loaded { payload: Some(bytes) },
        ),
        (LoadState::Reading, DiskEvent::Failed) => (
            LoadState::Done,
            LoadAction::Fail { error: ApiError::Io },
        ),
        _ => (LoadState::Done, LoadAction::Fail { error: ApiError::Internal }),
    }
}

/// How far a writing of the cache has come.
#[derive(Clone, Copy, Debug, PartialEq, Eq)]
pub enum SaveState {
    /// Nothing has been asked yet.
    Idle,
    /// The cache directory is being looked for.
    Probing,
    /// The cache directory is being created.
    CreatingDir,
    /// The cache file is being created, or emptied where there is one.
    CreatingFile,
    /// The payload is being written to the file.
    Writing,
    /// The writing has ended.
    Done,
}

/// What is to be done next to write the cache.
#[derive(Clone, Copy, Debug, PartialEq, Eq)]
pub enum SaveAction {
    /// Find out whether the cache directory is there and report it.
    ProbeDir,
    /// Create the cache directory and what is missing above it.
    CreateDir,
    /// Create the cache file, or empty it where there is one.
    CreateFile,
    /// Write the whole payload to the file just created.
    Write,
    /// The writing has ended: the cache holds the payload.
    Saved,
    /// The writing has ended with this failure.
    Fail { error: ApiError },
}

/// One step of writing the cache: the state after `event` and what is to be
/// done next.
///
/// The directory is looked for and created where it is missing. Then the
/// file is created or emptied, and the payload is written to it. The first
/// operation that fails ends the writing with an I/O failure. An event that
/// the state does not await ends it with an internal failure.
pub open spec fn save_step(state: SaveState, event: DiskEventView) -> (SaveState, SaveAction) {
    match (state, event) {
        (SaveState::Idle, DiskEventView::Call) => (SaveState::Probing, SaveAction::ProbeDir),
        (SaveState::Probing, DiskEventView::Probed { exists }) => if exists {
            (SaveState::CreatingFile, SaveAction::CreateFile)
        } else {
            (SaveState::CreatingDir, SaveAction::CreateDir)
        },
        (SaveState::CreatingDir, DiskEventView::Completed) => (
            SaveState::CreatingFile,
            SaveAction::CreateFile,
        ),
        (SaveState::CreatingFile, DiskEventView::Completed) => (
            SaveState::Writing,
            SaveAction::Write,
        ),
        (SaveState::Writing, DiskEventView::Completed) => (SaveState::Done, SaveAction::Saved),
        (SaveState::CreatingDir, DiskEventView::Failed) => (
            SaveState::Done,
            SaveAction::Fail { error: ApiError::Io },
        ),
        (SaveState::CreatingFile, DiskEventView::Failed) => (
            SaveState::Done,
            SaveAction::Fail { error: ApiError::Io },
        ),
        (SaveState::Writing, DiskEventView::Failed) => (
            SaveState::Done,
            SaveAction::Fail { error: ApiError::Io },
        ),
        _ => (SaveState::Done, SaveAction::Fail { error: ApiError::Internal }),
    }
}

/// One step of writing the cache. The caller of this function does what the
/// action says and comes back with the event that resulted, until the action
/// is `Saved` or `Fail`.
pub fn save_cache(state: SaveState, event: DiskEvent) -> (next: (SaveState, SaveAction))
    ensures
        next == save_step(state, event@),
{
    match (state, event) {
        (SaveState::Idle, DiskEvent::Call) => (SaveState::Probing, SaveAction::ProbeDir),
        (SaveState::Probing, DiskEvent::Probed { exists }) => if exists {
            (SaveState::CreatingFile, SaveAction::CreateFile)
        } else {
            (SaveState::CreatingDir, SaveAction::CreateDir)
        },
        (SaveState::CreatingDir, DiskEvent::Completed) => (
            SaveState::CreatingFile,
            SaveAction::CreateFile,
        ),
        (SaveState::CreatingFile, DiskEvent::Completed) => (SaveState::Writing, SaveAction::Write),
        (SaveState::Writing, DiskEvent::Completed) => (SaveState::Done, SaveAction::Saved),
        (SaveState::CreatingDir, DiskEvent::Failed) => (
            SaveState::Done,
            SaveAction::Fail { error: ApiError::Io },
        ),
        (SaveState::CreatingFile, DiskEvent::Failed) => (
            SaveState::Done,
            SaveAction::Fail { error: ApiError::Io },
        ),
        (SaveState::Writing, DiskEvent::Failed) => (
            SaveState::Done,
            SaveAction::Fail { error: ApiError::Io },
        ),
        _ => (SaveState::Done, SaveAction::Fail { error: ApiError::Internal }),
    }
}

/// The path of the cache directory.
pub fn cache_dir_path() -> (path: String)
    ensures
        path@ == cache_dir(),
{
    ".cache".to_owned()
}

/// The path of the cache file.
pub fn cache_file_path() -> (path: String)
    ensures
        path@ == cache_file(),
{
    ".cache/bookmarks.json".to_owned()
}

} // verus!
