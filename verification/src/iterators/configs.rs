//! The top level: one directory per context of the kubeconfig.
use vstd::prelude::*;
use vstd::utf8::encode_utf8;
use crate::consts::{
    FILETIME, FindData, FILE_ATTRIBUTE_DIRECTORY, FILE_ATTRIBUTE_UNIX_MODE, S_IFDIR, S_IRUSR,
    S_IWUSR, S_IXUSR,
};
use crate::iterators::{Entry, ListCursor, ResourceData, record_updated};

verus! {

/// The entries shown for a list of context names.
pub open spec fn context_entries(names: Seq<String>) -> Seq<Entry> {
    names.map_values(|n: String| (n@, None::<i64>))
}

/// The record fields that describe a context: a directory, readable,
/// writable and searchable by its owner, with time zero.
pub open spec fn context_record_fields(entry: Entry) -> (u32, u32, FILETIME, Seq<u8>) {
    (
        FILE_ATTRIBUTE_UNIX_MODE | FILE_ATTRIBUTE_DIRECTORY,
        S_IFDIR | S_IRUSR | S_IWUSR | S_IXUSR,
        FILETIME { dw_low_date_time: 0, dw_high_date_time: 0 },
        encode_utf8(entry.0),
    )
}

/// A listing of the contexts of the kubeconfig, by name.
pub struct ConfigsIterator {
    cursor: ListCursor<String>,
}

impl ConfigsIterator {
    /// The entries that the following steps will visit.
    pub closed spec fn remaining(self) -> Seq<Entry> {
        context_entries(self.cursor.remaining())
    }

    /// The entry that the last step moved to, if any.
    pub closed spec fn current(self) -> Option<Entry> {
        match self.cursor.current() {
            Some(n) => Some((n@, None::<i64>)),
            None => None,
        }
    }

    /// A listing of the contexts named `context_names`, before the first.
    pub fn new(context_names: Vec<String>) -> (r: Self)
        ensures
            r.remaining() == context_entries(context_names@),
            r.current() is None,
    {
        ConfigsIterator { cursor: ListCursor::new(context_names) }
    }

    /// Moves to the next context.
    pub fn next(&mut self) -> (r: Option<ResourceData>)
        ensures
            r is Some == (old(self).remaining().len() > 0),
            r is Some ==> final(self).current() == Some(old(self).remaining()[0]),
            r is Some ==> final(self).remaining() == old(self).remaining().drop_first(),
            r is None ==> final(self).current() is None,
            r is None ==> final(self).remaining() == old(self).remaining(),
    {
        let found = self.cursor.advance();
        proof {
            let before = old(self).cursor.remaining();
            if found {
                assert(context_entries(before.drop_first()) =~= context_entries(before).drop_first());
            }
        }
        if found {
            Some(ResourceData)
        } else {
            None
        }
    }

    /// The name of the current context, or the empty string.
    pub fn artifact_name(&self) -> (r: String)
        ensures
            r@ == (match self.current() {
                Some(e) => e.0,
                None => Seq::<char>::empty(),
            }),
    {
        match self.cursor.current_item() {
            Some(n) => n.clone(),
            None => String::new(),
        }
    }

    /// The creation time of the current context: never known.
    pub fn creation_time(&self) -> (r: Option<i64>)
        ensures
            r == (match self.current() {
                Some(e) => e.1,
                None => None,
            }),
            r is None,
    {
        None
    }

    /// Whether there is a current context.
    pub fn has_next(&self) -> (r: bool)
        ensures
            r == self.current() is Some,
    {
        self.cursor.current_item().is_some()
    }

    /// Describes the current context in `find_data` as a directory; without a
    /// current context `find_data` is left as it was.
    pub fn update_find_data(&self, find_data: &mut FindData)
        ensures
            self.current() is None ==> *final(find_data) == *old(find_data),
            self.current() matches Some(e) ==> record_updated(
                *old(find_data),
                *final(find_data),
                context_record_fields(e),
            ),
    {
        match self.cursor.current_item() {
            Some(n) => {
                find_data.fill_entry(
                    FILE_ATTRIBUTE_UNIX_MODE | FILE_ATTRIBUTE_DIRECTORY,
                    S_IFDIR | S_IRUSR | S_IWUSR | S_IXUSR,
                    FILETIME::default(),
                    n.as_str().as_bytes(),
                );
            },
            None => {},
        }
    }
}

} // verus!
