use vstd::prelude::*;
use crate::manifest::{Manifest, ManifestEntryView};
use crate::paths::text_of;

verus! {

/// One thing that the update asks of the world outside it. Whoever drives the
/// update carries the action out and hands back a `Reply`.
#[derive(Clone, Debug, PartialEq, Eq)]
pub enum Action {
    /// Open the checkpoint file for writing, or create it.
    OpenCheckpoint,
    /// Overwrite the checkpoint file with the checkpoint as it stands.
    Persist,
    /// Read the manifest at `path`. Answered with `Reply::Manifest`.
    LoadManifest { path: String },
    /// Make sure that the application at `exe` is not running.
    EndTarget { exe: String },
    /// Does the backup directory `dir` exist?
    BackupDirExists { dir: String },
    /// Remove the backup directory `dir` and all it holds.
    RemoveBackupDir { dir: String },
    /// Create the backup directory `dir`.
    CreateBackupDir { dir: String },
    /// Create the directory `dir`, which is to hold a target, and those above it.
    CreateParentDir { dir: String },
    /// Is the staged file at `path` there?
    SourceIsFile { path: String },
    /// Is there anything at the target `path`?
    TargetExists { path: String },
    /// Move the file at `target` into the backup slot `index`, which is the file `slot`.
    MoveToBackup { index: usize, target: String, slot: String },
    /// Move the file in the backup slot `index`, which is the file `slot`, back to `target`.
    RestoreFromBackup { index: usize, slot: String, target: String },
    /// Tell the user that `done` of `total` files are in hand.
    Progress { done: usize, total: usize },
    /// Have the running executable at `target` replaced by the file at `staged` once
    /// the update commits, after it was moved to `retired`. Nothing changes on disk
    /// before the commit.
    ReplaceSelf { target: String, staged: String, retired: Option<String> },
    /// Copy the staged file at `source` over `target`.
    CopyFile { source: String, target: String },
    /// Delete the file at `path`.
    DeleteFile { path: String },
    /// The update has succeeded: let a pending replacement of the running executable go ahead.
    Commit,
    /// Wait for `millis` milliseconds.
    Pause { millis: u64 },
    /// Remove the staging directory `dir` and all it holds.
    RemoveStaging { dir: String },
    /// Start the application at `exe`, marked as updated, and do not wait for it.
    Relaunch { exe: String },
    /// There is nothing more to do: end the process.
    Quit,
    /// The update cannot go on and must not try to: end the process with a failure.
    Abort,
}

/// An `Action` as contracts see it.
pub enum ActionView {
    OpenCheckpoint,
    Persist,
    LoadManifest { path: Seq<char> },
    EndTarget { exe: Seq<char> },
    BackupDirExists { dir: Seq<char> },
    RemoveBackupDir { dir: Seq<char> },
    CreateBackupDir { dir: Seq<char> },
    CreateParentDir { dir: Seq<char> },
    SourceIsFile { path: Seq<char> },
    TargetExists { path: Seq<char> },
    MoveToBackup { index: nat, target: Seq<char>, slot: Seq<char> },
    RestoreFromBackup { index: nat, slot: Seq<char>, target: Seq<char> },
    Progress { done: nat, total: nat },
    ReplaceSelf { target: Seq<char>, staged: Seq<char>, retired: Option<Seq<char>> },
    CopyFile { source: Seq<char>, target: Seq<char> },
    DeleteFile { path: Seq<char> },
    Commit,
    Pause { millis: nat },
    RemoveStaging { dir: Seq<char> },
    Relaunch { exe: Seq<char> },
    Quit,
    Abort,
}

impl View for Action {
    type V = ActionView;

    open spec fn view(&self) -> ActionView {
        match *self {
            Action::OpenCheckpoint => ActionView::OpenCheckpoint,
            Action::Persist => ActionView::Persist,
            Action::LoadManifest { path } => ActionView::LoadManifest { path: path@ },
            Action::EndTarget { exe } => ActionView::EndTarget { exe: exe@ },
            Action::BackupDirExists { dir } => ActionView::BackupDirExists { dir: dir@ },
            Action::RemoveBackupDir { dir } => ActionView::RemoveBackupDir { dir: dir@ },
            Action::CreateBackupDir { dir } => ActionView::CreateBackupDir { dir: dir@ },
            Action::CreateParentDir { dir } => ActionView::CreateParentDir { dir: dir@ },
            Action::SourceIsFile { path } => ActionView::SourceIsFile { path: path@ },
            Action::TargetExists { path } => ActionView::TargetExists { path: path@ },
            Action::MoveToBackup { index, target, slot } => ActionView::MoveToBackup {
                index: index as nat,
                target: target@,
                slot: slot@,
            },
            Action::RestoreFromBackup { index, slot, target } => ActionView::RestoreFromBackup {
                index: index as nat,
                slot: slot@,
                target: target@,
            },
            Action::Progress { done, total } => ActionView::Progress {
                done: done as nat,
                total: total as nat,
            },
            Action::ReplaceSelf { target, staged, retired } => ActionView::ReplaceSelf {
                target: target@,
                staged: staged@,
                retired: text_of(retired),
            },
            Action::CopyFile { source, target } => ActionView::CopyFile {
                source: source@,
                target: target@,
            },
            Action::DeleteFile { path } => ActionView::DeleteFile { path: path@ },
            Action::Commit => ActionView::Commit,
            Action::Pause { millis } => ActionView::Pause { millis: millis as nat },
            Action::RemoveStaging { dir } => ActionView::RemoveStaging { dir: dir@ },
            Action::Relaunch { exe } => ActionView::Relaunch { exe: exe@ },
            Action::Quit => ActionView::Quit,
            Action::Abort => ActionView::Abort,
        }
    }
}

/// The view of an optional action.
pub open spec fn action_view(action: Option<Action>) -> Option<ActionView> {
    match action {
        Some(a) => Some(a@),
        None => None,
    }
}

/// What came of an action.
#[derive(Clone, Debug, PartialEq, Eq)]
pub enum Reply {
    /// The action succeeded or failed; for a question, the answer was yes or no.
    Done(bool),
    /// The manifest that was read, or `None` where it could not be read.
    Manifest(Option<Manifest>),
}

/// A `Reply` as contracts see it.
pub enum ReplyView {
    Done(bool),
    Manifest(Option<Seq<ManifestEntryView>>),
}

impl View for Reply {
    type V = ReplyView;

    open spec fn view(&self) -> ReplyView {
        match *self {
            Reply::Done(ok) => ReplyView::Done(ok),
            Reply::Manifest(Some(manifest)) => ReplyView::Manifest(Some(manifest@)),
            Reply::Manifest(None) => ReplyView::Manifest(None),
        }
    }
}

/// Whether `reply` reports a success, or answers yes. A manifest is neither.
pub open spec fn succeeded(reply: ReplyView) -> bool {
    reply == ReplyView::Done(true)
}

impl Reply {
    /// Whether the reply reports a success, or answers yes.
    pub fn is_success(&self) -> (ok: bool)
        ensures
            ok == succeeded(self@),
    {
        match self {
            Reply::Done(ok) => *ok,
            Reply::Manifest(_) => false,
        }
    }
}

} // verus!
