use vstd::prelude::*;
use crate::manifest::{Manifest, ManifestEntry, ManifestEntryView};
use crate::paths::{
    backup_root, backup_root_of, is_same_path, join, joined, parent, parent_of, same_path, text_of,
};

verus! {

/// A manifest entry with its paths worked out.
#[derive(Clone, Debug, PartialEq, Eq)]
pub struct PlannedFile {
    /// Where the file is installed.
    pub target: String,
    /// The directory that has to exist before the file can be installed, if the
    /// target has one.
    pub parent: Option<String>,
    /// Where the new content lies in the staging directory.
    pub source: String,
    /// Whether the target is the executable that is running the update.
    pub is_self: bool,
    /// For the running executable: where it is moved when it is replaced, if the
    /// staged file has a directory to hold it.
    pub retired: Option<String>,
}

/// A `PlannedFile` as contracts see it.
pub struct PlannedFileView {
    pub target: Seq<char>,
    pub parent: Option<Seq<char>>,
    pub source: Seq<char>,
    pub is_self: bool,
    pub retired: Option<Seq<char>>,
}

impl View for PlannedFile {
    type V = PlannedFileView;

    open spec fn view(&self) -> PlannedFileView {
        PlannedFileView {
            target: self.target@,
            parent: text_of(self.parent),
            source: self.source@,
            is_self: self.is_self,
            retired: text_of(self.retired),
        }
    }
}

/// The files of a manifest in index order, each with its paths, and the directory
/// for their backups.
#[derive(Clone, Debug, PartialEq, Eq)]
pub struct Plan {
    pub backup_root: String,
    /// Whether the path of the running executable could be found.
    pub self_known: bool,
    pub files: Vec<PlannedFile>,
}

/// A `Plan` as contracts see it.
pub struct PlanView {
    pub backup_root: Seq<char>,
    pub self_known: bool,
    pub files: Seq<PlannedFileView>,
}

/// The views of `files`, in the same order.
pub open spec fn file_views(files: Seq<PlannedFile>) -> Seq<PlannedFileView> {
    Seq::new(files.len(), |i: int| files[i]@)
}

impl View for Plan {
    type V = PlanView;

    open spec fn view(&self) -> PlanView {
        PlanView {
            backup_root: self.backup_root@,
            self_known: self.self_known,
            files: file_views(self.files@),
        }
    }
}

/// The name that the running executable is given when it is moved out of the way.
pub open spec fn retired_name() -> Seq<char> {
    "updater_old"@
}

/// Where the running executable is moved when the file staged at `source` takes its
/// place: beside that staged file.
pub open spec fn retired_path(source: Seq<char>) -> Option<Seq<char>> {
    match parent_of(source) {
        Some(dir) => Some(joined(dir, retired_name())),
        None => None,
    }
}

/// The paths of one manifest entry: the target below `install_root`, the source
/// below `staging_root`, and whether the target is the executable at `current_exe`.
pub open spec fn planned(
    entry: ManifestEntryView,
    install_root: Seq<char>,
    staging_root: Seq<char>,
    current_exe: Option<Seq<char>>,
) -> PlannedFileView {
    let target = joined(install_root, entry.file_path);
    let source = joined(staging_root, entry.hash);
    let is_self = current_exe is Some && same_path(current_exe->0, target);
    PlannedFileView {
        target,
        parent: parent_of(target),
        source,
        is_self,
        retired: if is_self {
            retired_path(source)
        } else {
            None
        },
    }
}

/// The plan for a manifest: one planned file for each entry, at the entry's index.
pub open spec fn resolved(
    manifest: Seq<ManifestEntryView>,
    install_root: Seq<char>,
    staging_root: Seq<char>,
    current_exe: Option<Seq<char>>,
) -> PlanView {
    PlanView {
        backup_root: backup_root_of(staging_root),
        self_known: current_exe is Some,
        files: Seq::new(
            manifest.len(),
            |i: int| planned(manifest[i], install_root, staging_root, current_exe),
        ),
    }
}

/// Whether `plan` tells the running executable by its target: two entries with the
/// same target are both for the running executable, or neither is.
pub open spec fn self_by_target(plan: PlanView) -> bool {
    forall|i: int, j: int|
        0 <= i < plan.files.len() && 0 <= j < plan.files.len() && (
        #[trigger] plan.files[i]).target == (#[trigger] plan.files[j]).target
            ==> plan.files[i].is_self == plan.files[j].is_self
}

/// The plan for a manifest tells the running executable by its target.
pub proof fn lemma_resolved_tells_self_by_target(
    manifest: Seq<ManifestEntryView>,
    install_root: Seq<char>,
    staging_root: Seq<char>,
    current_exe: Option<Seq<char>>,
)
    ensures
        self_by_target(resolved(manifest, install_root, staging_root, current_exe)),
{
}

fn plan_entry(
    entry: &ManifestEntry,
    install_root: &str,
    staging_root: &str,
    current_exe: &Option<String>,
) -> (file: PlannedFile)
    ensures
        file@ == planned(entry@, install_root@, staging_root@, text_of(*current_exe)),
{
    let target = join(install_root, entry.file_path.as_str());
    let source = join(staging_root, entry.hash.as_str());
    let is_self = match current_exe {
        Some(exe) => is_same_path(exe.as_str(), target.as_str()),
        None => false,
    };
    let retired = if is_self {
        match parent(source.as_str()) {
            Some(dir) => Some(join(dir.as_str(), "updater_old")),
            None => None,
        }
    } else {
        None
    };
    let dir = parent(target.as_str());
    PlannedFile { target, parent: dir, source, is_self, retired }
}

fn plan_entries(
    entries: &Vec<ManifestEntry>,
    install_root: &str,
    staging_root: &str,
    current_exe: &Option<String>,
    files: &mut Vec<PlannedFile>,
)
    ensures
        file_views(final(files)@) == file_views(old(files)@) + Seq::new(
            entries@.len(),
            |i: int|
                planned(entries@[i]@, install_root@, staging_root@, text_of(*current_exe)),
        ),
{
    let ghost before = file_views(files@);
    let mut i: usize = 0;
    while i < entries.len()
        invariant
            i <= entries@.len(),
            file_views(files@) == before + Seq::new(
                i as nat,
                |k: int|
                    planned(entries@[k]@, install_root@, staging_root@, text_of(*current_exe)),
            ),
        decreases entries@.len() - i,
    {
        let file = plan_entry(&entries[i], install_root, staging_root, current_exe);
        let ghost so_far = file_views(files@);
        files.push(file);
        i += 1;
        assert(file_views(files@) =~= so_far.push(file@));
        assert(file_views(files@) =~= before + Seq::new(
            i as nat,
            |k: int| planned(entries@[k]@, install_root@, staging_root@, text_of(*current_exe)),
        ));
    }
}

impl Plan {
    /// Works out the paths of every manifest entry: targets below `install_root`,
    /// sources and backups below `staging_root`. `current_exe` is the path of the
    /// running executable, where it is known.
    pub fn resolve(
        manifest: &Manifest,
        install_root: &str,
        staging_root: &str,
        current_exe: &Option<String>,
    ) -> (plan: Plan)
        ensures
            plan@ == resolved(manifest@, install_root@, staging_root@, text_of(*current_exe)),
    {
        let mut files: Vec<PlannedFile> = Vec::new();
        assert(file_views(files@) =~= Seq::empty());
        plan_entries(&manifest.added, install_root, staging_root, current_exe, &mut files);
        plan_entries(&manifest.changed, install_root, staging_root, current_exe, &mut files);
        let plan = Plan {
            backup_root: backup_root(staging_root),
            self_known: current_exe.is_some(),
            files,
        };
        assert(plan@.files =~= resolved(
            manifest@,
            install_root@,
            staging_root@,
            text_of(*current_exe),
        ).files);
        plan
    }
}

} // verus!
