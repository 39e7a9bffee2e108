//! The call site that produced an error value.

use vstd::prelude::*;

verus! {

/// File, line and column of the call site at which an error layer was
/// created. Captured by the caller (the platform's location facility) at the
/// moment of construction and immutable afterwards; every layer of an error
/// keeps the location of its own creation.
#[derive(Clone, Copy, Debug)]
pub struct Location {
    pub file: &'static str,
    pub line: u32,
    pub column: u32,
}

impl Location {
    /// Records a call site.
    pub fn new(file: &'static str, line: u32, column: u32) -> (r: Location)
        ensures
            r == (Location { file, line, column }),
    {
        Location { file, line, column }
    }
}

} // verus!
