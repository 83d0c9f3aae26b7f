//! Source locations attached to declared entities.
use vstd::prelude::*;

verus! {

/// A range of lines and columns in a source file.
#[derive(Debug, PartialEq, Eq, Clone, Copy, Hash, Structural)]
pub struct Location {
    pub line_start: u32,
    pub line_end: u32,
    pub column_start: u32,
    pub column_end: u32,
}

impl Location {
    /// The location used for entities that have no source of their own: line
    /// one, column one.
    pub open spec fn spec_default() -> Location {
        Location { line_start: 1, line_end: 1, column_start: 1, column_end: 1 }
    }

    pub fn new(line_start: u32, line_end: u32, column_start: u32, column_end: u32) -> (r: Location)
        ensures
            r == (Location { line_start, line_end, column_start, column_end }),
    {
        Location { line_start, line_end, column_start, column_end }
    }
}

impl Default for Location {
    fn default() -> (r: Location)
        ensures
            r == Location::spec_default(),
    {
        Location { line_start: 1, line_end: 1, column_start: 1, column_end: 1 }
    }
}

} // verus!
