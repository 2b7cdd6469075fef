//! Readings and writings of the cache on a modelled disk.

use crate::cache::{load_step, save_step, DiskEventView, LoadActionView, LoadState, SaveAction, SaveState};
use crate::error::ApiError;
use vstd::prelude::*;

verus! {

/// Which operations the disk refuses.
pub struct Faults {
    pub read: bool,
    pub create_dir: bool,
    pub create_file: bool,
    pub write: bool,
}

/// The part of the disk that the cache store touches.
pub struct Disk {
    /// Whether the cache directory is there.
    pub dir: bool,
    /// What the cache file holds, where there is one.
    pub file: Option<Seq<u8>>,
    pub faults: Faults,
    /// What a write that fails leaves in the file.
    pub torn: Seq<u8>,
}

impl Disk {
    /// Whether the disk refuses none of the operations that a writing
    /// needs: the directory is there or can be created, and the file can be
    /// created and written.
    pub open spec fn writable(self) -> bool {
        (self.dir || !self.faults.create_dir) && !self.faults.create_file && !self.faults.write
    }

    /// The disk after the operations of a writing of `payload`, up to the
    /// first that is refused.
    pub open spec fn after_save(self, payload: Seq<u8>) -> Disk {
        if !self.dir && self.faults.create_dir {
            self
        } else if self.faults.create_file {
            Disk { dir: true, ..self }
        } else if self.faults.write {
            Disk { dir: true, file: Some(self.torn), ..self }
        } else {
            Disk { dir: true, file: Some(payload), ..self }
        }
    }

    /// Whether a reading of the file succeeds on this disk.
    pub open spec fn readable(self) -> bool {
        !self.faults.read
    }
}

/// How the disk answers an action of a reading.
pub open spec fn answer_load(disk: Disk, action: LoadActionView) -> DiskEventView {
    match action {
        LoadActionView::Probe { path } => DiskEventView::Probed { exists: disk.file is Some },
        LoadActionView::Read { path } => match disk.file {
            Some(bytes) if !disk.faults.read => DiskEventView::Read { bytes },
            _ => DiskEventView::Failed,
        },
        _ => DiskEventView::Failed,
    }
}

/// The end of a reading that goes on from `state` with `event`, if it ends
/// within `fuel` further actions: the payload found, or the failure.
pub open spec fn play_load(state: LoadState, event: DiskEventView, disk: Disk, fuel: nat) -> Option<
    Result<Option<Seq<u8>>, ApiError>,
>
    decreases fuel,
{
    let (next, action) = load_step(state, event);
    match action {
        LoadActionView::Loaded { payload } => Some(Ok(payload)),
        LoadActionView::Fail { error } => Some(Err(error)),
        _ => if fuel == 0 {
            None
        } else {
            play_load(next, answer_load(disk, action), disk, (fuel - 1) as nat)
        },
    }
}

/// The end of a reading of the cache on `disk`.
pub open spec fn load(disk: Disk) -> Option<Result<Option<Seq<u8>>, ApiError>> {
    play_load(LoadState::Idle, DiskEventView::Call, disk, 2)
}

/// How the disk answers an action of a writing of `payload`, and the disk
/// after it.
pub open spec fn answer_save(disk: Disk, payload: Seq<u8>, action: SaveAction) -> (
    DiskEventView,
    Disk,
) {
    match action {
        SaveAction::ProbeDir => (DiskEventView::Probed { exists: disk.dir }, disk),
        SaveAction::CreateDir => if disk.faults.create_dir {
            (DiskEventView::Failed, disk)
        } else {
            (DiskEventView::Completed, Disk { dir: true, ..disk })
        },
        SaveAction::CreateFile => if disk.faults.create_file {
            (DiskEventView::Failed, disk)
        } else {
            (DiskEventView::Completed, Disk { file: Some(Seq::empty()), ..disk })
        },
        SaveAction::Write => if disk.faults.write {
            (DiskEventView::Failed, Disk { file: Some(disk.torn), ..disk })
        } else {
            (DiskEventView::Completed, Disk { file: Some(payload), ..disk })
        },
        _ => (DiskEventView::Failed, disk),
    }
}

/// The end of a writing of `payload` that goes on from `state` with `event`,
/// if it ends within `fuel` further actions, and the disk that it leaves.
pub open spec fn play_save(
    state: SaveState,
    event: DiskEventView,
    disk: Disk,
    payload: Seq<u8>,
    fuel: nat,
) -> (Option<Result<(), ApiError>>, Disk)
    decreases fuel,
{
    let (next, action) = save_step(state, event);
    match action {
        SaveAction::Saved => (Some(Ok(())), disk),
        SaveAction::Fail { error } => (Some(Err(error)), disk),
        _ => if fuel == 0 {
            (None, disk)
        } else {
            let (answer, after) = answer_save(disk, payload, action);
            play_save(next, answer, after, payload, (fuel - 1) as nat)
        },
    }
}

/// The end of a writing of `payload` to the cache on `disk`, and the disk
/// that it leaves.
pub open spec fn save(disk: Disk, payload: Seq<u8>) -> (Option<Result<(), ApiError>>, Disk) {
    play_save(SaveState::Idle, DiskEventView::Call, disk, payload, 4)
}

/// A reading of the cache ends, and this is how: with nothing where there
/// is no file, which is no failure; with the file's bytes where it can be
/// read; with an I/O failure where it cannot.
pub proof fn lemma_load(disk: Disk)
    ensures
        load(disk) == Some(
            match disk.file {
                None => Ok(None::<Seq<u8>>),
                Some(bytes) => if disk.readable() {
                    Ok(Some(bytes))
                } else {
                    Err(ApiError::Io)
                },
            },
        ),
{
    reveal_with_fuel(play_load, 3);
}

/// A writing of the cache ends, and this is how: where the disk refuses
/// nothing that is asked of it, the directory is there and the file holds
/// the payload and nothing else; where it refuses something, with an I/O
/// failure, and the disk is left as the operations before that one made it.
pub proof fn lemma_save(disk: Disk, payload: Seq<u8>)
    ensures
        save(disk, payload).0 == Some(
            if disk.writable() {
                Ok::<(), ApiError>(())
            } else {
                Err(ApiError::Io)
            },
        ),
        save(disk, payload).1 == disk.after_save(payload),
{
    reveal_with_fuel(play_save, 5);
}

/// What was written is what is read: after a writing that succeeded, a
/// reading that is not refused gives exactly the payload written.
pub proof fn lemma_save_then_load(disk: Disk, payload: Seq<u8>)
    requires
        save(disk, payload).0 == Some(Ok::<(), ApiError>(())),
        disk.readable(),
    ensures
        load(save(disk, payload).1) == Some(Ok::<Option<Seq<u8>>, ApiError>(Some(payload))),
{
    lemma_save(disk, payload);
    lemma_load(save(disk, payload).1);
}

/// A writing replaces the payload in full: what the file held before has no
/// part in what a writing that succeeded leaves.
pub proof fn lemma_save_replaces(disk: Disk, other: Disk, payload: Seq<u8>)
    requires
        save(disk, payload).0 == Some(Ok::<(), ApiError>(())),
        save(other, payload).0 == Some(Ok::<(), ApiError>(())),
    ensures
        save(disk, payload).1.file == save(other, payload).1.file,
{
    lemma_save(disk, payload);
    lemma_save(other, payload);
}

} // verus!
