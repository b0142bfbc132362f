//! A listing with no entries, for paths that name nothing the plugin knows.
use vstd::prelude::*;
use crate::consts::FindData;
use crate::iterators::ResourceData;

verus! {

/// A listing that never has an entry.
pub struct DummyIterator {}

impl DummyIterator {
    /// The empty listing.
    pub fn new() -> (r: Self) {
        DummyIterator {}
    }

    /// There is never a next entry.
    pub fn next(&mut self) -> (r: Option<ResourceData>)
        ensures
            r is None,
    {
        None
    }

    /// There is never a creation time.
    pub fn creation_time(&self) -> (r: Option<i64>)
        ensures
            r is None,
    {
        None
    }

    /// The name is always empty.
    pub fn artifact_name(&self) -> (r: String)
        ensures
            r@ == Seq::<char>::empty(),
    {
        String::new()
    }

    /// There is never a current entry.
    pub fn has_next(&self) -> (r: bool)
        ensures
            !r,
    {
        false
    }

    /// Leaves `find_data` as it was.
    pub fn update_find_data(&self, find_data: &mut FindData)
        ensures
            *final(find_data) == *old(find_data),
    {
    }
}

} // verus!
