//! Errors of the engine. Every error is local to one group: sibling groups
//! are processed independently and never aborted by another group's error.

use vstd::prelude::*;

verus! {

/// An error that aborts the assembly of one group.
#[derive(Debug)]
pub enum GroupError {
    /// A scanned file path does not lie below the group root.
    ScanError { path: Vec<u8> },
    /// An override names a relative path absent from the scan, an override
    /// asks for a position outside the group, or two scanned files share
    /// one relative path.
    ReferenceError { path: Vec<u8> },
}

/// An error that aborts the path-planning pass of one group.
#[derive(Debug)]
pub enum PlanError {
    /// A naming-required field (title, primary artist) is still unset after
    /// all merge layers; `song` is the song's index in final group order.
    UnresolvedMetadataError { song: usize },
    /// A generated path component holds a character that cannot appear in a
    /// path segment; `song` is the song's index in final group order.
    PathValidationError { song: usize, character: char },
}

} // verus!
