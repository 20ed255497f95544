//! Configuration values the core consumes.  The listen address and the
//! file handling around it belong to the shell; the store endpoint is
//! plain data and lives here.

use vstd::prelude::*;

verus! {

/// Where the listing store is reached.
pub struct Mongo {
    pub url: String,
}

impl Mongo {
    /// A store endpoint from its connection string.
    pub fn new(url: String) -> (c: Mongo)
        ensures
            c.url@ == url@,
    {
        Mongo { url }
    }
}

} // verus!
