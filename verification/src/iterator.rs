//! A listing of the kinds of resource shown by their display names.
use vstd::prelude::*;
use vstd::utf8::encode_utf8;
use crate::consts::{FILETIME, FindData, FILE_ATTRIBUTE_DIRECTORY, FILE_ATTRIBUTE_UNIX_MODE, is_entry_record, MAX_PATH};
use crate::iterators::ListCursor;
use crate::resources::{K8SResources, all_resources, display_name};

verus! {

/// A cursor over every kind of resource, with an identifier.
pub struct ResourcesIterator {
    it: ListCursor<K8SResources>,
    id: u32,
}

impl ResourcesIterator {
    /// The kinds that the cursor will still visit.
    pub open spec fn remaining(self) -> Seq<K8SResources> {
        self.cursor().remaining()
    }

    /// The cursor over the kinds.
    pub closed spec fn cursor(self) -> ListCursor<K8SResources> {
        self.it
    }

    /// The identifier of this cursor.
    pub closed spec fn spec_id(self) -> u32 {
        self.id
    }

    /// A cursor before the first of every kind, with identifier 123.
    pub fn new() -> (r: Self)
        ensures
            r.remaining() == all_resources(),
            r.cursor().current() is None,
            r.spec_id() == 123,
    {
        ResourcesIterator { it: ListCursor::new(K8SResources::iterator()), id: 123 }
    }

    /// The cursor itself, to be moved by its caller.
    pub fn iterator(&mut self) -> (r: &mut ListCursor<K8SResources>)
        ensures
            *r == old(self).cursor(),
            final(self).cursor() == *final(r),
            final(self).spec_id() == old(self).spec_id(),
    {
        &mut self.it
    }

    /// Describes the kind `res` in `find_data` as a directory named by its
    /// display name, with time zero; a name that does not fit leaves
    /// `find_data` as it was.
    pub fn update_find_data(find_data: &mut FindData, res: &K8SResources)
        ensures
            encode_utf8(display_name(*res)).len() < MAX_PATH ==> is_entry_record(
                *final(find_data),
                FILE_ATTRIBUTE_UNIX_MODE | FILE_ATTRIBUTE_DIRECTORY,
                0,
                FILETIME { dw_low_date_time: 0, dw_high_date_time: 0 },
                encode_utf8(display_name(*res)),
            ),
            encode_utf8(display_name(*res)).len() >= MAX_PATH ==> *final(find_data) == *old(find_data),
    {
        let name = res.to_string();
        find_data.fill_entry(
            FILE_ATTRIBUTE_UNIX_MODE | FILE_ATTRIBUTE_DIRECTORY,
            0,
            FILETIME::default(),
            name.as_str().as_bytes(),
        );
    }
}

} // verus!
