//! The context handed to every resolver of the API.

use vstd::prelude::*;

verus! {

/// The context that is accessible to every resolver in the API: the database
/// transaction of the current request.
pub struct Context<D> {
    pub db: D,
}

impl<D> Context<D> {
    pub fn new(db: D) -> (r: Self)
        ensures
            r.db == db,
    {
        Context { db }
    }
}

} // verus!
