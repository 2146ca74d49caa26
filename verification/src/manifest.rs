use vstd::prelude::*;

verus! {

/// One file of the new version: where it belongs, relative to the install root, and
/// the name under which its content lies in the staging directory.
#[derive(Clone, Debug, PartialEq, Eq)]
pub struct ManifestEntry {
    pub file_path: String,
    pub hash: String,
}

/// A `ManifestEntry` as contracts see it.
pub struct ManifestEntryView {
    pub file_path: Seq<char>,
    pub hash: Seq<char>,
}

impl View for ManifestEntry {
    type V = ManifestEntryView;

    open spec fn view(&self) -> ManifestEntryView {
        ManifestEntryView { file_path: self.file_path@, hash: self.hash@ }
    }
}

/// The files that an update adds and the files that it changes.
#[derive(Clone, Debug, PartialEq, Eq)]
pub struct Manifest {
    pub added: Vec<ManifestEntry>,
    pub changed: Vec<ManifestEntry>,
}

/// The views of `entries`, in the same order.
pub open spec fn entry_views(entries: Seq<ManifestEntry>) -> Seq<ManifestEntryView> {
    Seq::new(entries.len(), |i: int| entries[i]@)
}

impl View for Manifest {
    type V = Seq<ManifestEntryView>;

    /// The manifest read as one sequence: the added files, then the changed ones.
    /// The position of an entry in it is the index by which a checkpoint refers to
    /// the entry.
    open spec fn view(&self) -> Seq<ManifestEntryView> {
        entry_views(self.added@) + entry_views(self.changed@)
    }
}

} // verus!
