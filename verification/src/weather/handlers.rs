//! What the weather endpoints take from a request.
use vstd::prelude::*;

verus! {

/// The query of an aggregate request: the cities named by its repeated
/// `city` parameter, in the order in which they were given.
#[derive(Debug)]
pub struct AggregateQuery {
    pub city: Vec<String>,
}

impl Default for AggregateQuery {
    /// The query of a request that names no city.
    fn default() -> (q: AggregateQuery)
        ensures
            q.city@.len() == 0,
    {
        AggregateQuery { city: Vec::new() }
    }
}

} // verus!
