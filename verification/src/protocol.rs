use vstd::prelude::*;

verus! {

/// What an observation of a source-side location found before Export.
#[derive(Debug, Clone, Copy, PartialEq, Eq)]
pub enum FoundState {
    /// A real directory, not a symbolic link: content still to be moved.
    RealDir,
    /// Nothing at all, not even a dangling symbolic link.
    Absent,
    /// Anything else — a symbolic link (the already-migrated state) or some
    /// other entry; Export leaves it untouched.
    AlreadyLinked,
}

/// What an observation of a source-side location found before Import: the
/// site where the symbolic link is to be created.
#[derive(Debug, Clone, Copy, PartialEq, Eq)]
pub enum SiteState {
    /// Nothing there.
    Absent,
    /// A stale entry that is safe to remove: a symbolic link or an empty
    /// real directory.
    Removable,
    /// Content that must not be silently removed: a non-empty real
    /// directory or a plain file.
    Occupied,
}

/// The transform Export applies to one location.
#[derive(Debug, Clone, Copy, PartialEq, Eq)]
pub enum ExportKind {
    /// Move the real directory from `from` into `to`'s parent, then replace
    /// `from` with a directory symbolic link pointing at `to`.
    MoveAndLink,
    /// Create `to` as an empty real directory, then create `from` as a
    /// directory symbolic link pointing at `to`.
    CreateAndLink,
    /// `from` is already a symbolic link (or some other non-directory
    /// entry): leave it as it is.
    SkipExisting,
}

/// One instruction from a machine to the shell that touches the real
/// filesystem. Paths are taken from the machine's `locations` table at the
/// given index.
#[derive(Debug, Clone, Copy, PartialEq, Eq)]
pub enum Action {
    /// Report whether each of the three marker files exists directly under
    /// the source tree root.
    ProbeMarkers,
    /// Report what stands at `locations[index].from` and whether
    /// `locations[index].to_parent` exists.
    ProbeSource { index: usize },
    /// Perform the Export transform of `kind` at `index`: create the
    /// target-side parent first when `make_parent` is set, and finish by
    /// writing the placeholder marker file inside `locations[index].to`.
    Apply { index: usize, make_parent: bool, kind: ExportKind },
    /// Report whether `locations[index].to` holds a non-directory entry
    /// other than the placeholder marker.
    ProbeTargetFiles { index: usize },
    /// Remove the placeholder marker file from `locations[index].to`.
    RemovePlaceholder { index: usize },
    /// Report whether `locations[index].to` exists as a directory and what
    /// stands at `locations[index].from`.
    ProbePair { index: usize },
    /// Create `locations[index].from` as a directory symbolic link pointing
    /// at `locations[index].to`; first remove the stale entry at `from`
    /// when `remove_site` is set.
    Link { index: usize, remove_site: bool },
    /// The operation is over; the machine's `Finished` phase carries the
    /// result.
    Halt,
}

/// One observation or completion report from the shell to a machine.
#[derive(Debug, PartialEq, Eq)]
pub enum Event {
    /// Answer to `ProbeMarkers`: existence of each marker file.
    Markers { assets: bool, gustav: bool, dice: bool },
    /// Answer to `ProbeSource`.
    Source { found: FoundState, parent_exists: bool },
    /// The requested mutation completed.
    Applied,
    /// The requested step failed; `path` names the offending path.
    Failed { path: String },
    /// Answer to `ProbeTargetFiles`: `foreign` is true when the directory
    /// holds a non-directory entry other than the placeholder marker.
    TargetFiles { foreign: bool },
    /// Answer to `ProbePair`: whether the target-side content directory is
    /// present, and the state of the source-side link site.
    Pair { content_present: bool, site: SiteState },
}

/// The classification `classify_source` makes of the raw facts about a
/// source-side location.
pub open spec fn spec_classify_source(is_dir: bool, is_symlink: bool, exists: bool) -> FoundState {
    if is_dir && !is_symlink {
        FoundState::RealDir
    } else if !exists && !is_symlink {
        FoundState::Absent
    } else {
        FoundState::AlreadyLinked
    }
}

/// Classifies a source-side location before Export from raw facts: whether
/// the path is a directory (following links), a symbolic link, and whether
/// anything at all stands there.
pub fn classify_source(is_dir: bool, is_symlink: bool, exists: bool) -> (r: FoundState)
    ensures
        r == spec_classify_source(is_dir, is_symlink, exists),
{
    if is_dir && !is_symlink {
        FoundState::RealDir
    } else if !exists && !is_symlink {
        FoundState::Absent
    } else {
        FoundState::AlreadyLinked
    }
}

/// The classification `classify_site` makes of the raw facts about a link
/// site.
pub open spec fn spec_classify_site(
    present: bool,
    is_symlink: bool,
    is_dir: bool,
    is_empty_dir: bool,
) -> SiteState {
    if !present {
        SiteState::Absent
    } else if is_symlink {
        SiteState::Removable
    } else if is_dir && is_empty_dir {
        SiteState::Removable
    } else {
        SiteState::Occupied
    }
}

/// Classifies the source-side link site before Import from raw facts:
/// whether anything stands there (a dangling symbolic link counts), whether
/// it is itself a symbolic link, a real directory, and an empty one. Only a
/// symbolic link or an empty real directory is safe to remove; anything
/// else is a conflict, never silently deleted.
pub fn classify_site(present: bool, is_symlink: bool, is_dir: bool, is_empty_dir: bool) -> (r:
    SiteState)
    ensures
        r == spec_classify_site(present, is_symlink, is_dir, is_empty_dir),
{
    if !present {
        SiteState::Absent
    } else if is_symlink {
        SiteState::Removable
    } else if is_dir && is_empty_dir {
        SiteState::Removable
    } else {
        SiteState::Occupied
    }
}

/// Whether `names` holds an entry other than the placeholder marker.
pub open spec fn spec_has_foreign(names: Seq<String>) -> bool {
    exists|i: int| 0 <= i < names.len() && (#[trigger] names[i])@ != ".gitkeep"@
}

/// The reserved placeholder filename written into every migrated
/// target-side directory to keep it visible to tree-snapshot tools.
pub fn placeholder_name() -> (r: &'static str)
    ensures
        r@ == ".gitkeep"@,
{
    ".gitkeep"
}

/// Decides, from the names of the non-directory entries of a migrated
/// target-side directory, whether that directory holds anything besides the
/// placeholder marker — in which case the placeholder is redundant and is
/// removed again.
pub fn has_foreign_entry(names: &Vec<String>) -> (r: bool)
    ensures
        r == spec_has_foreign(names@),
{
    let keep: String = placeholder_name().to_owned();
    let mut i: usize = 0;
    while i < names.len()
        invariant
            i <= names@.len(),
            keep@ == ".gitkeep"@,
            forall|j: int| 0 <= j < i ==> (#[trigger] names@[j])@ == ".gitkeep"@,
        decreases names@.len() - i,
    {
        let same = names[i] == keep;
        if !same {
            assert(names@[i as int]@ != ".gitkeep"@);
            return true;
        }
        i += 1;
    }
    false
}

/// The names of the three marker files whose joint presence directly under
/// the source tree root validates it, in the order they are reported in a
/// `Markers` event.
pub fn marker_names() -> (r: Vec<&'static str>)
    ensures
        r@.len() == 3,
        r@[0]@ == "Assets.pak"@,
        r@[1]@ == "Gustav.pak"@,
        r@[2]@ == "DiceSet01.pak"@,
{
    let mut v: Vec<&'static str> = Vec::new();
    v.push("Assets.pak");
    v.push("Gustav.pak");
    v.push("DiceSet01.pak");
    v
}

} // verus!
