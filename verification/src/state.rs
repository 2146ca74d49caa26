use vstd::prelude::*;

verus! {

/// How far an update has come, as the checkpoint records it.
#[derive(Clone, Copy, Debug, PartialEq, Eq, Structural)]
pub enum RunningState {
    /// No update is pending.
    Nothing,
    /// Staging is complete and files are being copied.
    Updating,
    /// An update was requested and staging is not complete.
    UpdateButNotCheck,
    /// Every file was copied.
    Finish,
    /// A copy failed and the update has to be rolled back.
    Failed,
}

/// One file that staging moved aside: the position of its manifest entry, which
/// names the backup slot, and the path it was moved away from.
#[derive(Clone, Debug, PartialEq, Eq)]
pub struct BackupEntry {
    pub index: usize,
    pub path: String,
}

/// A `BackupEntry` as contracts see it.
pub struct BackupView {
    pub index: nat,
    pub path: Seq<char>,
}

impl View for BackupEntry {
    type V = BackupView;

    open spec fn view(&self) -> BackupView {
        BackupView { index: self.index as nat, path: self.path@ }
    }
}

/// The checkpoint: the record of an update's progress that outlives the process.
#[derive(Clone, Debug, PartialEq, Eq)]
pub struct RunningConfig {
    /// How far the update has come.
    pub status: RunningState,
    /// The backups: which target was moved into the backup slot of which index.
    /// This is a map from indices to paths, kept as a list in the order in which
    /// staging made the backups, which is the order of the indices.
    pub file_path: Vec<BackupEntry>,
    /// The staging directory.
    pub update_temp_path: String,
    /// The executable of the application that is updated.
    pub exe_path: String,
    /// The applied paths: the targets that were overwritten, in that order.
    pub moved_path: Vec<String>,
}

/// A `RunningConfig` as contracts see it.
pub struct RunningConfigView {
    pub status: RunningState,
    pub file_path: Seq<BackupView>,
    pub update_temp_path: Seq<char>,
    pub exe_path: Seq<char>,
    pub moved_path: Seq<Seq<char>>,
}

/// The views of the backups in `entries`, in the same order.
pub open spec fn backup_views(entries: Seq<BackupEntry>) -> Seq<BackupView> {
    Seq::new(entries.len(), |i: int| entries[i]@)
}

/// Whether `backups` is a map from indices to paths, written down in the order of
/// the indices: each index is above the one before it, so none occurs twice.
pub open spec fn in_index_order(backups: Seq<BackupView>) -> bool {
    forall|j: int, k: int|
        0 <= j < k < backups.len() ==> (#[trigger] backups[j]).index < (
        #[trigger] backups[k]).index
}

/// The views of the strings in `items`, in the same order.
pub open spec fn string_views(items: Seq<String>) -> Seq<Seq<char>> {
    Seq::new(items.len(), |i: int| items[i]@)
}

impl View for RunningConfig {
    type V = RunningConfigView;

    open spec fn view(&self) -> RunningConfigView {
        RunningConfigView {
            status: self.status,
            file_path: backup_views(self.file_path@),
            update_temp_path: self.update_temp_path@,
            exe_path: self.exe_path@,
            moved_path: string_views(self.moved_path@),
        }
    }
}

/// The checkpoint that a request for an update of `exe_path` starts from.
pub open spec fn fresh_config(exe_path: Seq<char>) -> RunningConfigView {
    RunningConfigView {
        status: RunningState::UpdateButNotCheck,
        file_path: Seq::empty(),
        update_temp_path: Seq::empty(),
        exe_path,
        moved_path: Seq::empty(),
    }
}

impl RunningConfig {
    /// The checkpoint of an update that was just requested for the executable at `exe_path`.
    pub fn fresh(exe_path: String) -> (config: RunningConfig)
        ensures
            config@ == fresh_config(exe_path@),
    {
        let config = RunningConfig {
            status: RunningState::UpdateButNotCheck,
            file_path: Vec::new(),
            update_temp_path: String::new(),
            exe_path,
            moved_path: Vec::new(),
        };
        assert(config@.file_path =~= Seq::empty());
        assert(config@.moved_path =~= Seq::empty());
        config
    }
}

} // verus!
