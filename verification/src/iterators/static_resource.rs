//! The second level: one directory per kind of resource.
use vstd::prelude::*;
use vstd::utf8::encode_utf8;
use crate::consts::{FILETIME, FindData, FILE_ATTRIBUTE_DIRECTORY, FILE_ATTRIBUTE_UNIX_MODE, S_IFDIR};
use crate::iterators::{Entry, ListCursor, ResourceData, record_updated};
use crate::resources::{K8SResources, all_resources, res_name};

verus! {

/// The entries shown for a list of resource kinds: their directory names.
pub open spec fn kind_entries(kinds: Seq<K8SResources>) -> Seq<Entry> {
    kinds.map_values(|k: K8SResources| (res_name(k), None::<i64>))
}

/// The record fields that describe a kind of resource: a directory with time zero.
pub open spec fn kind_record_fields(entry: Entry) -> (u32, u32, FILETIME, Seq<u8>) {
    (
        FILE_ATTRIBUTE_UNIX_MODE | FILE_ATTRIBUTE_DIRECTORY,
        S_IFDIR,
        FILETIME { dw_low_date_time: 0, dw_high_date_time: 0 },
        encode_utf8(entry.0),
    )
}

/// A listing of every kind of resource, in the order of `K8SResources::iterator`.
pub struct StaticListResourcesIterator {
    cursor: ListCursor<K8SResources>,
}

impl StaticListResourcesIterator {
    /// The entries that the following steps will visit.
    pub closed spec fn remaining(self) -> Seq<Entry> {
        kind_entries(self.cursor.remaining())
    }

    /// The entry that the last step moved to, if any.
    pub closed spec fn current(self) -> Option<Entry> {
        match self.cursor.current() {
            Some(k) => Some((res_name(k), None::<i64>)),
            None => None,
        }
    }

    /// A listing of every kind, before the first.
    pub fn new() -> (r: Self)
        ensures
            r.remaining() == kind_entries(all_resources()),
            r.current() is None,
    {
        StaticListResourcesIterator { cursor: ListCursor::new(K8SResources::iterator()) }
    }

    /// Moves to the next kind.
    pub fn next(&mut self) -> (r: Option<ResourceData>)
        ensures
            r is Some == (old(self).remaining().len() > 0),
            r is Some ==> final(self).current() == Some(old(self).remaining()[0]),
            r is Some ==> final(self).remaining() == old(self).remaining().drop_first(),
            r is None ==> final(self).current() is None,
            r is None ==> final(self).remaining() == old(self).remaining(),
    {
        let found = self.cursor.advance();
        proof {
            let before = old(self).cursor.remaining();
            if found {
                assert(kind_entries(before.drop_first()) =~= kind_entries(before).drop_first());
            }
        }
        if found {
            Some(ResourceData)
        } else {
            None
        }
    }

    /// The directory name of the current kind, or the empty string.
    pub fn artifact_name(&self) -> (r: String)
        ensures
            r@ == (match self.current() {
                Some(e) => e.0,
                None => Seq::<char>::empty(),
            }),
    {
        match self.cursor.current_item() {
            Some(k) => k.as_res_str(),
            None => String::new(),
        }
    }

    /// The creation time of the current kind: never known.
    pub fn creation_time(&self) -> (r: Option<i64>)
        ensures
            r == (match self.current() {
                Some(e) => e.1,
                None => None,
            }),
            r is None,
    {
        None
    }

    /// Whether there is a current kind.
    pub fn has_next(&self) -> (r: bool)
        ensures
            r == self.current() is Some,
    {
        self.cursor.current_item().is_some()
    }

    /// Describes the current kind in `find_data` as a directory named by its
    /// directory name; without a current kind `find_data` is left as it was.
    pub fn update_find_data(&self, find_data: &mut FindData)
        ensures
            self.current() is None ==> *final(find_data) == *old(find_data),
            self.current() matches Some(e) ==> record_updated(
                *old(find_data),
                *final(find_data),
                kind_record_fields(e),
            ),
    {
        match self.cursor.current_item() {
            Some(k) => {
                let name = k.as_res_str();
                find_data.fill_entry(
                    FILE_ATTRIBUTE_UNIX_MODE | FILE_ATTRIBUTE_DIRECTORY,
                    S_IFDIR,
                    FILETIME::default(),
                    name.as_str().as_bytes(),
                );
            },
            None => {},
        }
    }
}

} // verus!
