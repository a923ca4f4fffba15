//! Text positions and ranges. Offsets count characters of the file's text.
use vstd::prelude::*;

verus! {

/// A half-open-free range of text: `start <= end`, both inclusive bounds for
/// the purpose of "does the cursor touch this node" tests, exclusive for
/// slicing.
#[derive(Clone, Copy, Debug, PartialEq, Eq, Structural)]
pub struct TextRange {
    pub start: u32,
    pub end: u32,
}

impl TextRange {
    /// A range is well formed when its start does not lie past its end.
    pub open spec fn wf(self) -> bool {
        self.start <= self.end
    }

    pub fn from_to(start: u32, end: u32) -> (r: TextRange)
        requires
            start <= end,
        ensures
            r == (TextRange { start, end }),
    {
        TextRange { start, end }
    }

    /// The empty range at offset zero, used for synthetic locations.
    pub fn zero() -> (r: TextRange)
        ensures
            r == (TextRange { start: 0, end: 0 }),
    {
        TextRange { start: 0, end: 0 }
    }

    /// Whether a cursor offset touches this range; both endpoints count,
    /// as a cursor sitting right after a token still refers to it.
    pub open spec fn spec_covers(self, offset: u32) -> bool {
        self.start <= offset <= self.end
    }

    pub fn covers(&self, offset: u32) -> (r: bool)
        ensures
            r == self.spec_covers(offset),
    {
        self.start <= offset && offset <= self.end
    }

    /// Whether `other` lies entirely inside this range.
    pub open spec fn spec_contains_range(self, other: TextRange) -> bool {
        self.start <= other.start && other.end <= self.end
    }

    pub fn contains_range(&self, other: &TextRange) -> (r: bool)
        ensures
            r == self.spec_contains_range(*other),
    {
        self.start <= other.start && other.end <= self.end
    }

    /// The number of characters the range spans.
    pub open spec fn spec_len(self) -> int {
        self.end - self.start
    }
}

} // verus!
