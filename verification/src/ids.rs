//! Stable identifiers for files, source roots and crates, and the
//! position/range pairs that queries take.
use vstd::prelude::*;
use crate::text::TextRange;

verus! {

/// Identifier of a logical file slot (text + path + owning root). Never
/// reused: a removed file keeps its id allocated, with empty text.
#[derive(Clone, Copy, Debug, PartialEq, Eq, Hash, Structural)]
pub struct FileId(pub u32);

/// Identifier of a source root: a filesystem subtree treated as one unit,
/// either a local workspace root or an immutable library root.
#[derive(Clone, Copy, Debug, PartialEq, Eq, Hash, Structural)]
pub struct SourceRootId(pub u32);

/// Identifier of a compilation unit in the crate graph.
#[derive(Clone, Copy, Debug, PartialEq, Eq, Hash, Structural)]
pub struct CrateId(pub u32);

/// A cursor position: a file and a character offset into its text.
#[derive(Clone, Copy, Debug, PartialEq, Eq, Structural)]
pub struct FilePosition {
    pub file_id: FileId,
    pub offset: u32,
}

/// A contiguous region of one file's text.
#[derive(Clone, Copy, Debug, PartialEq, Eq, Structural)]
pub struct FileRange {
    pub file_id: FileId,
    pub range: TextRange,
}

} // verus!
