use vstd::prelude::*;

use crate::protocol::{FoundState, SiteState};

verus! {

/// What stands at one resolved path in the model of the two trees.
///
/// A real directory is abstracted to the pieces the protocol reads and
/// preserves: `content` is an opaque token for its payload (moving the
/// directory carries the token along; `0` is the payload of a freshly
/// created empty directory), `foreign` records whether it holds a
/// non-directory entry other than the placeholder marker, and `keep`
/// records whether the placeholder marker file itself is present.
#[verifier::ext_equal]
pub enum Slot {
    Dir { content: nat, foreign: bool, keep: bool },
    Link { to: Seq<char> },
    Absent,
}

/// The model of one location: the slot at its source-tree-resolved path
/// and the slot at its target-tree-resolved path.
#[verifier::ext_equal]
pub struct LocModel {
    pub source: Slot,
    pub target: Slot,
}

/// The model of everything the two operations touch: the three marker
/// files under the source tree root and the five locations.
#[verifier::ext_equal]
pub struct TreeModel {
    pub assets: bool,
    pub gustav: bool,
    pub dice: bool,
    pub locations: Seq<LocModel>,
}

/// The steady-state invariant of one location: exactly one side holds real
/// content, and the source side is otherwise a link pointing at the
/// target-side path (`to_path`) or absent. Two independent real
/// directories at once is the corruption the protocol exists to prevent.
pub open spec fn loc_wf(l: LocModel, to_path: Seq<char>) -> bool {
    match l.source {
        Slot::Dir { .. } => l.target is Absent,
        Slot::Link { to } => to == to_path && l.target is Dir,
        Slot::Absent => l.target is Dir || l.target is Absent,
    }
}

/// What a faithful observation of the source-side slot reports to Export.
pub open spec fn found_of(s: Slot) -> FoundState {
    match s {
        Slot::Dir { .. } => FoundState::RealDir,
        Slot::Absent => FoundState::Absent,
        Slot::Link { .. } => FoundState::AlreadyLinked,
    }
}

/// What a faithful observation of the source-side slot reports to Import:
/// a link, or a real directory with no payload and no entries, is safe to
/// remove.
pub open spec fn site_of(s: Slot) -> SiteState {
    match s {
        Slot::Absent => SiteState::Absent,
        Slot::Link { .. } => SiteState::Removable,
        Slot::Dir { content, foreign, keep } => if content == 0 && !foreign && !keep {
            SiteState::Removable
        } else {
            SiteState::Occupied
        },
    }
}

/// Whether the target-side slot holds a non-directory entry other than the
/// placeholder marker — what a faithful `ProbeTargetFiles` reports.
pub open spec fn foreign_of(s: Slot) -> bool {
    match s {
        Slot::Dir { foreign, .. } => foreign,
        _ => false,
    }
}

/// The effect of Export's `Apply` action on one location: move-and-link,
/// create-and-link, or skip, according to what stands at the source side,
/// followed in every case by writing the placeholder marker into the
/// target-side directory.
pub open spec fn export_apply(l: LocModel, to_path: Seq<char>) -> LocModel {
    match l.source {
        Slot::Dir { content, foreign, keep } => LocModel {
            source: Slot::Link { to: to_path },
            target: Slot::Dir { content, foreign, keep: true },
        },
        Slot::Absent => LocModel {
            source: Slot::Link { to: to_path },
            target: match l.target {
                Slot::Dir { content, foreign, keep } => Slot::Dir { content, foreign, keep: true },
                _ => Slot::Dir { content: 0, foreign: false, keep: true },
            },
        },
        Slot::Link { .. } => LocModel {
            source: l.source,
            target: match l.target {
                Slot::Dir { content, foreign, keep } => Slot::Dir { content, foreign, keep: true },
                _ => l.target,
            },
        },
    }
}

/// The effect of removing the placeholder marker from the target-side
/// directory again.
pub open spec fn remove_keep(l: LocModel) -> LocModel {
    match l.target {
        Slot::Dir { content, foreign, keep } => LocModel {
            source: l.source,
            target: Slot::Dir { content, foreign, keep: false },
        },
        _ => l,
    }
}

/// The net effect of Export on one location: the transform, the
/// placeholder write, and the conditional placeholder removal. The
/// placeholder ends up present exactly in directories that hold nothing
/// else.
pub open spec fn export_location(l: LocModel, to_path: Seq<char>) -> LocModel {
    let applied = export_apply(l, to_path);
    if foreign_of(applied.target) {
        remove_keep(applied)
    } else {
        applied
    }
}

/// The effect of Import's `Link` action on one location: the source side
/// becomes a directory symbolic link pointing at the target-side path; the
/// target-side content is never touched.
pub open spec fn import_apply(l: LocModel, to_path: Seq<char>) -> LocModel {
    LocModel { source: Slot::Link { to: to_path }, target: l.target }
}

/// After Export a location is fully migrated: the source side is a link at
/// the target-side path, the target side a real directory, its payload
/// taken from whichever side held content (or empty if none did), and the
/// placeholder present exactly when the directory holds nothing else.
pub proof fn lemma_export_location_shape(l: LocModel, to_path: Seq<char>)
    requires
        loc_wf(l, to_path),
    ensures
        export_location(l, to_path).source == (Slot::Link { to: to_path }),
        export_location(l, to_path).target is Dir,
        loc_wf(export_location(l, to_path), to_path),
        l.source matches Slot::Dir { content, .. } ==> export_location(l, to_path).target
            == (Slot::Dir {
            content,
            foreign: foreign_of(l.source),
            keep: !foreign_of(l.source),
        }),
        (l.source is Absent && l.target is Dir) ==> export_location(l, to_path).target
            == (Slot::Dir {
            content: l.target->content,
            foreign: foreign_of(l.target),
            keep: !foreign_of(l.target),
        }),
        l.source is Absent && l.target is Absent ==> export_location(l, to_path).target
            == (Slot::Dir { content: 0, foreign: false, keep: true }),
{
}

/// Idempotence of the per-location Export transform: a second Export finds
/// the source side already linked, rewrites the placeholder, and removes
/// it again exactly when it did the first time — the location is left
/// unchanged.
pub proof fn lemma_export_location_idempotent(l: LocModel, to_path: Seq<char>)
    requires
        loc_wf(l, to_path),
    ensures
        export_location(export_location(l, to_path), to_path) == export_location(l, to_path),
{
}

/// Round trip of one location: after Export, Import finds the content
/// present and the link site removable, and relinking restores exactly the
/// exported state; a further Export changes nothing either.
pub proof fn lemma_location_round_trip(l: LocModel, to_path: Seq<char>)
    requires
        loc_wf(l, to_path),
    ensures
        export_location(l, to_path).target is Dir,
        site_of(export_location(l, to_path).source) == SiteState::Removable,
        import_apply(export_location(l, to_path), to_path) == export_location(l, to_path),
        export_location(import_apply(export_location(l, to_path), to_path), to_path)
            == export_location(l, to_path),
{
}

} // verus!
