//! Raw file-system notifications and the filter that tells changes from
//! noise.

use crate::paths::{has_component, path_has_component};
use vstd::prelude::*;

verus! {

/// What a modify notification says has changed.
#[derive(Debug, Clone, Copy, PartialEq, Eq, Structural)]
pub enum FsModifyKind {
    /// Unknown or unspecified.
    Any,
    /// The content.
    Data,
    /// Metadata only: permissions, times, ownership.
    Metadata,
    /// The name: a rename.
    Name,
    /// Something else.
    Other,
}

/// The kind of a notification.
#[derive(Debug, Clone, Copy, PartialEq, Eq, Structural)]
pub enum FsEventKind {
    /// Unknown or unspecified.
    Any,
    /// A path was opened, read or closed.
    Access,
    /// A path was created.
    Create,
    /// A path was modified.
    Modify(FsModifyKind),
    /// A path was removed.
    Remove,
    /// Something else.
    Other,
}

/// One raw notification: its kind and the paths it is about.
#[derive(Debug, Clone, PartialEq, Eq)]
pub struct FsEvent {
    pub kind: FsEventKind,
    pub paths: Vec<String>,
}

/// Name of the directory in which the repository keeps its own data.
pub open spec fn metadata_dir() -> Seq<char> {
    ".git"@
}

impl FsEventKind {
    /// Whether the kind is a create, a modify or a remove. Renames,
    /// metadata-only changes and accesses are not.
    pub open spec fn is_change(self) -> bool {
        match self {
            FsEventKind::Create => true,
            FsEventKind::Remove => true,
            FsEventKind::Modify(what) => what != FsModifyKind::Name && what
                != FsModifyKind::Metadata,
            _ => false,
        }
    }
}

/// Whether some path of `paths` lies inside the repository's own data.
pub open spec fn any_in_metadata_dir(paths: Seq<String>) -> bool {
    exists|i: int| 0 <= i < paths.len() && has_component(#[trigger] paths[i]@, metadata_dir())
}

/// Whether every answer of `ignored` is yes. True of no answers.
pub open spec fn all_ignored(ignored: Seq<bool>) -> bool {
    forall|i: int| 0 <= i < ignored.len() ==> ignored[i]
}

/// Whether an event with this kind and these paths is a change to act on,
/// where `ignored[i]` says whether the repository ignores `paths[i]`.
pub open spec fn relevant(kind: FsEventKind, paths: Seq<String>, ignored: Seq<bool>) -> bool {
    &&& kind.is_change()
    &&& !any_in_metadata_dir(paths)
    &&& !all_ignored(ignored)
}

/// Whether the kind of `event` is a create, a modify or a remove.
pub fn was_modification(event: &FsEvent) -> (change: bool)
    ensures
        change == event.kind.is_change(),
{
    match event.kind {
        FsEventKind::Create => true,
        FsEventKind::Remove => true,
        FsEventKind::Modify(FsModifyKind::Name) => false,
        FsEventKind::Modify(FsModifyKind::Metadata) => false,
        FsEventKind::Modify(_) => true,
        _ => false,
    }
}

/// Whether some path of `paths` has `.git` among its components.
pub fn is_git_file(paths: &Vec<String>) -> (inside: bool)
    ensures
        inside == any_in_metadata_dir(paths@),
{
    let mut i: usize = 0;
    while i < paths.len()
        invariant
            i <= paths.len(),
            forall|j: int| 0 <= j < i ==> !has_component(#[trigger] paths@[j]@, metadata_dir()),
        decreases paths.len() - i,
    {
        if path_has_component(paths[i].as_str(), ".git") {
            return true;
        }
        i += 1;
    }
    false
}

/// Whether the repository ignores every path of an event, where `ignored`
/// holds its answer for each path. An event without paths counts as ignored.
pub fn is_git_ignored(ignored: &Vec<bool>) -> (all: bool)
    ensures
        all == all_ignored(ignored@),
{
    let mut i: usize = 0;
    while i < ignored.len()
        invariant
            i <= ignored.len(),
            forall|j: int| 0 <= j < i ==> ignored@[j],
        decreases ignored.len() - i,
    {
        if !ignored[i] {
            return false;
        }
        i += 1;
    }
    true
}

/// Whether the answers of the repository are needed to classify `event`:
/// they are not where its kind or one of its paths already rules it out.
pub fn needs_ignore_check(event: &FsEvent) -> (needed: bool)
    ensures
        needed == (event.kind.is_change() && !any_in_metadata_dir(event.paths@)),
{
    was_modification(event) && !is_git_file(&event.paths)
}

/// Classifies `event`, where `ignored[i]` says whether the repository
/// ignores `event.paths[i]`.
pub fn is_relevant(event: &FsEvent, ignored: &Vec<bool>) -> (acts: bool)
    ensures
        acts == relevant(event.kind, event.paths@, ignored@),
{
    was_modification(event) && !is_git_file(&event.paths) && !is_git_ignored(ignored)
}

/// An event with a path inside the repository's own data is never relevant,
/// whatever its kind and whatever the repository ignores.
pub proof fn metadata_paths_are_irrelevant(
    kind: FsEventKind,
    paths: Seq<String>,
    ignored: Seq<bool>,
    i: int,
)
    requires
        0 <= i < paths.len(),
        has_component(paths[i]@, metadata_dir()),
    ensures
        !relevant(kind, paths, ignored),
{
}

/// An event about one path outside the repository's own data, of a kind that
/// is a change, is relevant exactly if the repository does not ignore the
/// path.
pub proof fn ignored_path_is_irrelevant(kind: FsEventKind, path: String, ignored: bool)
    requires
        kind.is_change(),
        !has_component(path@, metadata_dir()),
    ensures
        relevant(kind, seq![path], seq![ignored]) == !ignored,
{
    assert(seq![ignored][0] == ignored);
}

/// An event without paths is never relevant.
pub proof fn empty_event_is_irrelevant(kind: FsEventKind)
    ensures
        !relevant(kind, Seq::empty(), Seq::empty()),
{
}

} // verus!
