use vstd::prelude::*;

verus! {

/// A typed failure of Export, Import or project discovery.
///
/// Every public operation either succeeds completely or reports exactly one
/// of these; partially migrated trees are a side effect the caller reconciles
/// by re-running after fixing the underlying condition.
#[derive(Debug, PartialEq, Eq)]
pub enum Error {
    /// The source tree lacks at least one of the three marker files that
    /// prove it is the expected kind of tree. Carries the tree path.
    InvalidSourceTree { tree: String },
    /// Discovery found no entry under the target tree's `Projects` location.
    NoProjectFound,
    /// Import: the target-side directory that should hold the content for a
    /// location does not exist. Carries the missing path.
    SourceMissing { path: String },
    /// Import: the source-side location is occupied by content that may not
    /// be removed (a non-empty real directory or a plain file).
    DestinationConflict { path: String },
    /// An underlying filesystem operation failed. Carries the offending path.
    Filesystem { path: String },
}

} // verus!
