//! A handler that serves one file from a fixed path. Only the value is
//! held here; opening and streaming the file is transport work that lives
//! with the surrounding server, outside this crate.

use vstd::prelude::*;

verus! {

/// A static-file handler: the path of the file it serves.
pub struct StaticFile(pub String);

impl StaticFile {
    /// A handler serving the file at `path`.
    pub fn new(path: String) -> (f: StaticFile)
        ensures
            f.0@ == path@,
    {
        StaticFile(path)
    }
}

} // verus!
