//! The root of the query schema.

use vstd::prelude::*;

verus! {

/// The query root.
pub struct Query;

impl Query {
    /// The version of the query interface.
    #[allow(non_snake_case)]
    pub fn apiVersion() -> (version: &'static str)
        ensures
            version@ == "1.0"@,
    {
        "1.0"
    }
}

} // verus!
