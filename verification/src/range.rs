//! Half-open block-number intervals.

use vstd::prelude::*;

verus! {

/// A half-open interval `[start, end)` of block numbers.
#[derive(Clone, Copy, Debug, PartialEq, Eq, Structural)]
pub struct BlockRange {
    pub start: u64,
    pub end: u64,
}

impl BlockRange {
    /// A range is well formed when it does not run backwards.
    pub open spec fn wf(self) -> bool {
        self.start <= self.end
    }

    /// The number of blocks the range covers.
    pub open spec fn spec_len(self) -> int {
        self.end - self.start
    }

    pub fn new(start: u64, end: u64) -> (r: BlockRange)
        requires
            start <= end,
        ensures
            r == (BlockRange { start, end }),
    {
        BlockRange { start, end }
    }

    pub fn len(&self) -> (r: u64)
        requires
            self.wf(),
        ensures
            r == self.spec_len(),
    {
        self.end - self.start
    }

    pub fn is_empty(&self) -> (r: bool)
        requires
            self.wf(),
        ensures
            r == (self.spec_len() == 0),
    {
        self.start == self.end
    }
}

} // verus!
