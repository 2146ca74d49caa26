use vstd::prelude::*;
use crate::action::ActionView;

verus! {

/// The files that an update touches, as far as its guarantees speak of them.
///
/// The three kinds of file are kept apart: an installed file is known by its path,
/// a backup by the index of its slot, a staged file by its path in the staging
/// directory. The model thereby takes for granted that no installed file is also a
/// backup slot or a staged file. It knows nothing of directories.
pub struct Disk {
    /// The content of each file below the install root.
    pub installed: Map<Seq<char>, Seq<u8>>,
    /// The content of each occupied backup slot.
    pub backups: Map<nat, Seq<u8>>,
    /// The content of each staged file.
    pub staged: Map<Seq<char>, Seq<u8>>,
}

/// Whether a disk in the state `disk` can answer `action` with `ok`.
///
/// A question is answered truthfully, and an operation succeeds only where the file
/// that it reads is there. Any operation may fail.
pub open spec fn answers(disk: Disk, action: ActionView, ok: bool) -> bool {
    match action {
        ActionView::TargetExists { path } => ok == disk.installed.contains_key(path),
        ActionView::SourceIsFile { path } => ok == disk.staged.contains_key(path),
        ActionView::MoveToBackup { index, target, slot } => ok ==> disk.installed.contains_key(
            target,
        ),
        ActionView::RestoreFromBackup { index, slot, target } => ok ==> disk.backups.contains_key(
            index,
        ),
        ActionView::CopyFile { source, target } => ok ==> disk.staged.contains_key(source),
        ActionView::DeleteFile { path } => ok ==> disk.installed.contains_key(path),
        _ => true,
    }
}

/// The disk after `action` was answered with `ok`. An operation that failed is
/// taken to have changed nothing.
///
/// The model does not say what becomes of the running executable after `Commit`,
/// when its replacement may or may not happen: what it says of the installed files
/// holds up to that action.
pub open spec fn after(disk: Disk, action: ActionView, ok: bool) -> Disk {
    if !ok {
        disk
    } else {
        match action {
            ActionView::MoveToBackup { index, target, slot } => Disk {
                installed: disk.installed.remove(target),
                backups: disk.backups.insert(index, disk.installed[target]),
                ..disk
            },
            ActionView::RestoreFromBackup { index, slot, target } => Disk {
                installed: disk.installed.insert(target, disk.backups[index]),
                backups: disk.backups.remove(index),
                ..disk
            },
            ActionView::CopyFile { source, target } => Disk {
                installed: disk.installed.insert(target, disk.staged[source]),
                ..disk
            },
            ActionView::DeleteFile { path } => Disk {
                installed: disk.installed.remove(path),
                ..disk
            },
            ActionView::RemoveBackupDir { dir } => Disk { backups: Map::empty(), ..disk },
            ActionView::RemoveStaging { dir } => Disk {
                backups: Map::empty(),
                staged: Map::empty(),
                ..disk
            },
            _ => disk,
        }
    }
}

} // verus!
