//! Ranges of guest memory.

use vstd::prelude::*;

verus! {

/// A range of guest memory.
#[derive(Clone, Copy, Debug, PartialEq, Eq, Structural)]
pub struct MemoryRange {
    /// The guest physical address at which the range starts.
    pub gpa: u64,
    /// The length of the range.
    pub length: u64,
}

/// A table of ranges of guest memory.
#[derive(Debug)]
pub struct MemoryRangeTable {
    pub ranges: Vec<MemoryRange>,
}

impl Default for MemoryRangeTable {
    /// A table without ranges.
    fn default() -> (r: Self)
        ensures
            r.ranges@ == Seq::<MemoryRange>::empty(),
    {
        MemoryRangeTable { ranges: Vec::new() }
    }
}

} // verus!
