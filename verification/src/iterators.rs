//! Listings of directory entries, one kind per directory level, and the
//! choice of listing for a path.

pub mod configs;
pub mod deployments;
pub mod dummy;
pub mod jobs;
pub mod namespaces;
pub mod nodes;
pub mod pods;
pub mod static_resource;

use vstd::prelude::*;
use vstd::utf8::encode_utf8;
use crate::consts::{
    FILETIME, FindData, FILE_ATTRIBUTE_DIRECTORY, FILE_ATTRIBUTE_UNIX_MODE, MAX_PATH,
    is_entry_record,
};
use crate::helper::{
    file_time_in_range, is_normal_component, join_path, lemma_components_of_joined_path,
    normal_components, path_components, spec_file_time, str_eq, string_views, to_split_file_time,
};
use crate::iterators::configs::{ConfigsIterator, context_entries, context_record_fields};
use crate::iterators::deployments::DeploymentsIterator;
use crate::iterators::dummy::DummyIterator;
use crate::iterators::jobs::JobsIterator;
use crate::iterators::namespaces::NamespacesIterator;
use crate::iterators::nodes::NodesIterator;
use crate::iterators::pods::{PodsIterator, pod_get_context, spec_pod_get_context};
use crate::iterators::static_resource::{
    StaticListResourcesIterator, kind_entries, kind_record_fields,
};
use crate::resources::{
    K8SResources, all_resources, lemma_from_str_exactly_the_keys, lemma_from_str_inverts_as_res_str,
    lookup_key, lemma_res_name_is_component,
    res_name, spec_from_str,
};
use crate::shareddata::SharedData;

verus! {

/// The item that a listing yields for each entry; what the entry is, is
/// read from the listing itself.
#[derive(Debug, Clone, Copy, PartialEq, Eq, Structural)]
pub struct ResourceData;

/// A cursor over a list: each step moves to the next item, which becomes the
/// current one; past the last item there is no current item.
pub struct ListCursor<T> {
    items: Vec<T>,
    consumed: usize,
    has_current: bool,
}

impl<T> ListCursor<T> {
    #[verifier::type_invariant]
    spec fn cursor_invariant(self) -> bool {
        &&& self.consumed <= self.items@.len()
        &&& self.has_current ==> self.consumed >= 1
    }

    /// The items that the following steps will visit, in order.
    pub closed spec fn remaining(self) -> Seq<T> {
        self.items@.skip(self.consumed as int)
    }

    /// The item that the last step moved to, if it found one.
    pub closed spec fn current(self) -> Option<T> {
        if self.has_current {
            Some(self.items@[self.consumed - 1])
        } else {
            None
        }
    }

    /// A cursor before the first of `items`.
    pub fn new(items: Vec<T>) -> (r: Self)
        ensures
            r.remaining() == items@,
            r.current() is None,
    {
        let r = ListCursor { items, consumed: 0, has_current: false };
        assert(r.items@.skip(0) =~= r.items@);
        r
    }

    /// Moves to the next item; tells whether there was one.
    pub fn advance(&mut self) -> (found: bool)
        ensures
            found == (old(self).remaining().len() > 0),
            found ==> final(self).current() == Some(old(self).remaining()[0]),
            found ==> final(self).remaining() == old(self).remaining().drop_first(),
            !found ==> final(self).current() is None,
            !found ==> final(self).remaining() == old(self).remaining(),
    {
        proof {
            use_type_invariant(&*self);
        }
        if self.consumed < self.items.len() {
            self.consumed = self.consumed + 1;
            self.has_current = true;
            assert(final(self).remaining() =~= old(self).remaining().drop_first());
            true
        } else {
            self.has_current = false;
            false
        }
    }

    /// The current item, if any.
    pub fn current_item(&self) -> (r: Option<&T>)
        ensures
            r is None <==> self.current() is None,
            r matches Some(x) ==> self.current() == Some(*x),
    {
        proof {
            use_type_invariant(self);
        }
        if self.has_current {
            Some(&self.items[self.consumed - 1])
        } else {
            None
        }
    }
}


/// What the plugin reads of a listed Kubernetes object: its name and, when
/// known, its creation time in milliseconds since 1970-01-01 UTC.
#[derive(Debug, Clone)]
pub struct ObjectSummary {
    pub name: String,
    pub creation_millis: Option<i64>,
}

/// A directory entry as the plugin shows it: a name and, when known, a
/// creation time in milliseconds since 1970-01-01 UTC.
pub type Entry = (Seq<char>, Option<i64>);

impl ObjectSummary {
    /// The entry that this object is shown as.
    pub open spec fn entry(self) -> Entry {
        (self.name@, self.creation_millis)
    }
}

/// The entries shown for a list of objects.
pub open spec fn object_entries(objects: Seq<ObjectSummary>) -> Seq<Entry> {
    objects.map_values(|o: ObjectSummary| o.entry())
}

/// Whether the creation time of `entry`, if any, converts to a file time
/// without overflow.
pub open spec fn entry_time_in_range(entry: Entry) -> bool {
    entry.1 matches Some(m) ==> file_time_in_range(m as int)
}

/// The file time shown for an optional creation time: zero when unknown,
/// else the file time of the instant split into its two halves.
pub open spec fn creation_file_time(creation: Option<i64>) -> FILETIME {
    match creation {
        None => FILETIME { dw_low_date_time: 0, dw_high_date_time: 0 },
        Some(m) => FILETIME {
            dw_low_date_time: ((spec_file_time(m as int) as i64) as i32) as u32,
            dw_high_date_time: ((spec_file_time(m as int) / 0x1_0000_0000) as i32) as u32,
        },
    }
}

/// The file time shown for an optional creation time.
pub fn creation_to_file_time(creation: Option<i64>) -> (r: FILETIME)
    requires
        creation matches Some(m) ==> file_time_in_range(m as int),
    ensures
        r == creation_file_time(creation),
{
    match creation {
        Some(m) => {
            let (low, high) = to_split_file_time(m);
            FILETIME::new(low as u32, high as u32)
        },
        None => FILETIME::default(),
    }
}

/// A listing of Kubernetes objects of one kind; each step moves to the next object.
pub struct K8sObjectsIterator {
    cursor: ListCursor<ObjectSummary>,
}

/// The record that `update_find_data` writes for a current entry, given as
/// the attributes, Unix mode word, time and name bytes of the record.
pub open spec fn object_record_fields(entry: Entry) -> (u32, u32, FILETIME, Seq<u8>) {
    (FILE_ATTRIBUTE_UNIX_MODE, 0u32, creation_file_time(entry.1), encode_utf8(entry.0))
}

/// The record after describing `entry` with the given fields: the record of
/// the entry, or the former record when the name does not fit.
pub open spec fn record_updated(
    before: FindData,
    after: FindData,
    fields: (u32, u32, FILETIME, Seq<u8>),
) -> bool {
    &&& fields.3.len() < MAX_PATH ==> is_entry_record(after, fields.0, fields.1, fields.2, fields.3)
    &&& fields.3.len() >= MAX_PATH ==> after == before
}

impl K8sObjectsIterator {
    /// The entries that the following steps will visit.
    pub closed spec fn remaining(self) -> Seq<Entry> {
        object_entries(self.cursor.remaining())
    }

    /// The entry that the last step moved to, if any.
    pub closed spec fn current(self) -> Option<Entry> {
        match self.cursor.current() {
            Some(o) => Some(o.entry()),
            None => None,
        }
    }

    /// A listing of `objects`, before the first of them.
    pub fn new(objects: Vec<ObjectSummary>) -> (r: Self)
        ensures
            r.remaining() == object_entries(objects@),
            r.current() is None,
    {
        K8sObjectsIterator { cursor: ListCursor::new(objects) }
    }

    /// Moves to the next object.
    pub fn next(&mut self) -> (r: Option<ResourceData>)
        ensures
            r is Some == (old(self).remaining().len() > 0),
            r is Some ==> final(self).current() == Some(old(self).remaining()[0]),
            r is Some ==> final(self).remaining() == old(self).remaining().drop_first(),
            r is None ==> final(self).current() is None,
            r is None ==> final(self).remaining() == old(self).remaining(),
    {
        let found = self.cursor.advance();
        proof {
            let before = old(self).cursor.remaining();
            if found {
                assert(object_entries(before.drop_first()) =~= object_entries(before).drop_first());
            }
        }
        if found {
            Some(ResourceData)
        } else {
            None
        }
    }

    /// The creation time of the current object, if any and known.
    pub fn creation_time(&self) -> (r: Option<i64>)
        ensures
            r == (match self.current() {
                Some(e) => e.1,
                None => None,
            }),
    {
        match self.cursor.current_item() {
            Some(o) => o.creation_millis,
            None => None,
        }
    }

    /// The name of the current object, or the empty string when there is none.
    pub fn artifact_name(&self) -> (r: String)
        ensures
            r@ == (match self.current() {
                Some(e) => e.0,
                None => Seq::<char>::empty(),
            }),
    {
        match self.cursor.current_item() {
            Some(o) => o.name.clone(),
            None => String::new(),
        }
    }

    /// Whether there is a current object.
    pub fn has_next(&self) -> (r: bool)
        ensures
            r == self.current() is Some,
    {
        self.cursor.current_item().is_some()
    }

    /// Describes the current object in `find_data`: a file with the Unix-mode
    /// attribute, its creation time as creation, access and write time, and
    /// its name. Without a current object `find_data` is left as it was.
    pub fn update_find_data(&self, find_data: &mut FindData)
        requires
            self.current() matches Some(e) ==> entry_time_in_range(e),
        ensures
            self.current() is None ==> *final(find_data) == *old(find_data),
            self.current() matches Some(e) ==> record_updated(
                *old(find_data),
                *final(find_data),
                object_record_fields(e),
            ),
    {
        match self.cursor.current_item() {
            Some(o) => {
                let time = creation_to_file_time(o.creation_millis);
                find_data.fill_entry(FILE_ATTRIBUTE_UNIX_MODE, 0, time, o.name.as_str().as_bytes());
            },
            None => {},
        }
    }
}


/// The kind of listing that a directory shows.
#[derive(Debug, Clone, Copy, PartialEq, Eq, Structural)]
pub enum ListingKind {
    Configs,
    Resources,
    Pods,
    Namespaces,
    Nodes,
    Jobs,
    Deployments,
    Dummy,
}

/// The kind of listing shown for a path: the contexts at the top (no
/// component), the kinds of resource below a context (one component), and
/// below that the objects of the kind named by the second component when the
/// plugin lists that kind, else nothing.
pub open spec fn spec_listing_kind(path: Seq<char>) -> ListingKind {
    let c = normal_components(path);
    if c.len() == 0 {
        ListingKind::Configs
    } else if c.len() == 1 {
        ListingKind::Resources
    } else {
        match spec_from_str(c[1]) {
            Some(K8SResources::Pod) => ListingKind::Pods,
            Some(K8SResources::Namespace) => ListingKind::Namespaces,
            Some(K8SResources::Node) => ListingKind::Nodes,
            Some(K8SResources::Job) => ListingKind::Jobs,
            Some(K8SResources::Deployment) => ListingKind::Deployments,
            _ => ListingKind::Dummy,
        }
    }
}

/// Whether a listing of this kind lists objects of a context.
pub open spec fn lists_objects(kind: ListingKind) -> bool {
    kind == ListingKind::Pods || kind == ListingKind::Namespaces || kind == ListingKind::Nodes
        || kind == ListingKind::Jobs || kind == ListingKind::Deployments
}

/// Whether a listing of this kind lists objects of a namespace.
pub open spec fn lists_namespaced_objects(kind: ListingKind) -> bool {
    kind == ListingKind::Pods || kind == ListingKind::Jobs || kind == ListingKind::Deployments
}

/// Which listing a directory shows, and what its objects are read from: the
/// context named by the first path component and, for objects of a
/// namespace, the selected namespace. Unused names are empty.
#[derive(Debug, Clone)]
pub struct Route {
    pub kind: ListingKind,
    pub config_name: String,
    pub namespace: String,
}

/// `route` is the route of `path` when `selected_namespace` is selected.
pub open spec fn is_route_of(route: Route, path: Seq<char>, selected_namespace: Seq<char>) -> bool {
    &&& route.kind == spec_listing_kind(path)
    &&& route.config_name@ == (if lists_objects(route.kind) {
        normal_components(path)[0]
    } else {
        Seq::<char>::empty()
    })
    &&& route.namespace@ == (if lists_namespaced_objects(route.kind) {
        selected_namespace
    } else {
        Seq::<char>::empty()
    })
}

/// Chooses the listing for a path.
pub struct ResourcesIteratorFactory;

impl ResourcesIteratorFactory {
    /// The listing that the directory `path` shows, with `shared_data`'s
    /// selected namespace for objects of a namespace.
    pub fn new(path: &str, shared_data: &SharedData) -> (r: Route)
        ensures
            is_route_of(r, path@, shared_data.selected_namespace@),
    {
        let components = path_components(path);
        let count = components.len();
        if count == 0 {
            Route { kind: ListingKind::Configs, config_name: String::new(), namespace: String::new() }
        } else if count == 1 {
            Self::handle_resources_component(&components)
        } else {
            Self::handle_detailed_component(&components, shared_data)
        }
    }

    /// The listing below a context: the kinds of resource.
    fn handle_resources_component(components: &Vec<String>) -> (r: Route)
        requires
            components@.len() == 1,
        ensures
            r.kind == ListingKind::Resources,
            r.config_name@ == Seq::<char>::empty(),
            r.namespace@ == Seq::<char>::empty(),
    {
        Route { kind: ListingKind::Resources, config_name: String::new(), namespace: String::new() }
    }

    /// The listing below a kind of resource of a context.
    fn handle_detailed_component(components: &Vec<String>, shared_data: &SharedData) -> (r: Route)
        requires
            components@.len() >= 2,
        ensures
            ({
                let c = string_views(components@);
                &&& r.kind == (match spec_from_str(c[1]) {
                    Some(K8SResources::Pod) => ListingKind::Pods,
                    Some(K8SResources::Namespace) => ListingKind::Namespaces,
                    Some(K8SResources::Node) => ListingKind::Nodes,
                    Some(K8SResources::Job) => ListingKind::Jobs,
                    Some(K8SResources::Deployment) => ListingKind::Deployments,
                    _ => ListingKind::Dummy,
                })
                &&& r.config_name@ == (if lists_objects(r.kind) {
                    c[0]
                } else {
                    Seq::<char>::empty()
                })
                &&& r.namespace@ == (if lists_namespaced_objects(r.kind) {
                    shared_data.selected_namespace@
                } else {
                    Seq::<char>::empty()
                })
            }),
    {
        let config_name = &components[0];
        let resource_name = &components[1];
        proof {
            assert(string_views(components@)[0] == config_name@);
            assert(string_views(components@)[1] == resource_name@);
        }
        let kind = match K8SResources::from_str(resource_name.as_str()) {
            Some(K8SResources::Pod) => ListingKind::Pods,
            Some(K8SResources::Namespace) => ListingKind::Namespaces,
            Some(K8SResources::Node) => ListingKind::Nodes,
            Some(K8SResources::Job) => ListingKind::Jobs,
            Some(K8SResources::Deployment) => ListingKind::Deployments,
            _ => ListingKind::Dummy,
        };
        let config = match kind {
            ListingKind::Dummy => String::new(),
            _ => config_name.clone(),
        };
        let namespace = match kind {
            ListingKind::Pods | ListingKind::Jobs | ListingKind::Deployments => shared_data.selected_namespace.clone(),
            _ => String::new(),
        };
        Route { kind, config_name: config, namespace }
    }
}


/// Why a request on an entry failed.
#[derive(Debug, Clone, Copy, PartialEq, Eq, Structural)]
pub enum FsError {
    /// The cluster did not answer, or answered with an error.
    RequestFailed,
}

/// What remains to be done for a get request once the listing has decided:
/// nothing, or listing the pods of a context's namespace.
#[derive(Debug, Clone)]
pub enum GetAction {
    Done,
    ListPods { config_name: String, namespace: String },
}

/// A listing of directory entries, of one of the kinds the plugin shows.
pub enum FsDataHandler {
    Configs(ConfigsIterator),
    Resources(StaticListResourcesIterator),
    Pods(PodsIterator),
    Namespaces(NamespacesIterator),
    Nodes(NodesIterator),
    Jobs(JobsIterator),
    Deployments(DeploymentsIterator),
    Dummy(DummyIterator),
}

impl FsDataHandler {
    /// The kind of this listing.
    pub open spec fn kind(self) -> ListingKind {
        match self {
            FsDataHandler::Configs(_) => ListingKind::Configs,
            FsDataHandler::Resources(_) => ListingKind::Resources,
            FsDataHandler::Pods(_) => ListingKind::Pods,
            FsDataHandler::Namespaces(_) => ListingKind::Namespaces,
            FsDataHandler::Nodes(_) => ListingKind::Nodes,
            FsDataHandler::Jobs(_) => ListingKind::Jobs,
            FsDataHandler::Deployments(_) => ListingKind::Deployments,
            FsDataHandler::Dummy(_) => ListingKind::Dummy,
        }
    }

    /// The entries that the following steps will visit.
    pub open spec fn remaining(self) -> Seq<Entry> {
        match self {
            FsDataHandler::Configs(it) => it.remaining(),
            FsDataHandler::Resources(it) => it.remaining(),
            FsDataHandler::Pods(it) => it.remaining(),
            FsDataHandler::Namespaces(it) => it.remaining(),
            FsDataHandler::Nodes(it) => it.remaining(),
            FsDataHandler::Jobs(it) => it.remaining(),
            FsDataHandler::Deployments(it) => it.remaining(),
            FsDataHandler::Dummy(_) => Seq::empty(),
        }
    }

    /// The entry that the last step moved to, if any.
    pub open spec fn current(self) -> Option<Entry> {
        match self {
            FsDataHandler::Configs(it) => it.current(),
            FsDataHandler::Resources(it) => it.current(),
            FsDataHandler::Pods(it) => it.current(),
            FsDataHandler::Namespaces(it) => it.current(),
            FsDataHandler::Nodes(it) => it.current(),
            FsDataHandler::Jobs(it) => it.current(),
            FsDataHandler::Deployments(it) => it.current(),
            FsDataHandler::Dummy(_) => None,
        }
    }

    /// The record fields that describe `entry` in this listing: contexts and
    /// kinds of resource are directories, objects are files.
    pub open spec fn record_fields(self, entry: Entry) -> (u32, u32, FILETIME, Seq<u8>) {
        match self.kind() {
            ListingKind::Configs => context_record_fields(entry),
            ListingKind::Resources => kind_record_fields(entry),
            _ => object_record_fields(entry),
        }
    }

    /// The listing of kind `route.kind`: of the contexts `context_names`, of
    /// every kind of resource, of `objects`, or of nothing.
    pub fn from_route(route: &Route, context_names: Vec<String>, objects: Vec<ObjectSummary>) -> (r: Self)
        ensures
            r.kind() == route.kind,
            r.current() is None,
            r.remaining() == (match route.kind {
                ListingKind::Configs => context_entries(context_names@),
                ListingKind::Resources => kind_entries(all_resources()),
                ListingKind::Dummy => Seq::<Entry>::empty(),
                _ => object_entries(objects@),
            }),
    {
        match route.kind {
            ListingKind::Configs => FsDataHandler::Configs(ConfigsIterator::new(context_names)),
            ListingKind::Resources => FsDataHandler::Resources(StaticListResourcesIterator::new()),
            ListingKind::Pods => FsDataHandler::Pods(PodsIterator::new(objects)),
            ListingKind::Namespaces => FsDataHandler::Namespaces(NamespacesIterator::new(objects)),
            ListingKind::Nodes => FsDataHandler::Nodes(NodesIterator::new(objects)),
            ListingKind::Jobs => FsDataHandler::Jobs(JobsIterator::new(objects)),
            ListingKind::Deployments => FsDataHandler::Deployments(DeploymentsIterator::new(objects)),
            ListingKind::Dummy => FsDataHandler::Dummy(DummyIterator::new()),
        }
    }

    /// Moves to the next entry; `Some` when there was one.
    pub fn next(&mut self) -> (r: Option<ResourceData>)
        ensures
            final(self).kind() == old(self).kind(),
            r is Some == (old(self).remaining().len() > 0),
            r is Some ==> final(self).current() == Some(old(self).remaining()[0]),
            r is Some ==> final(self).remaining() == old(self).remaining().drop_first(),
            r is None ==> final(self).current() is None,
            r is None ==> final(self).remaining() == old(self).remaining(),
    {
        match self {
            FsDataHandler::Configs(it) => it.next(),
            FsDataHandler::Resources(it) => it.next(),
            FsDataHandler::Pods(it) => it.next(),
            FsDataHandler::Namespaces(it) => it.next(),
            FsDataHandler::Nodes(it) => it.next(),
            FsDataHandler::Jobs(it) => it.next(),
            FsDataHandler::Deployments(it) => it.next(),
            FsDataHandler::Dummy(it) => it.next(),
        }
    }

    /// The creation time of the current entry, if any and known.
    pub fn creation_time(&self) -> (r: Option<i64>)
        ensures
            r == (match self.current() {
                Some(e) => e.1,
                None => None,
            }),
    {
        match self {
            FsDataHandler::Configs(it) => it.creation_time(),
            FsDataHandler::Resources(it) => it.creation_time(),
            FsDataHandler::Pods(it) => it.creation_time(),
            FsDataHandler::Namespaces(it) => it.creation_time(),
            FsDataHandler::Nodes(it) => it.creation_time(),
            FsDataHandler::Jobs(it) => it.creation_time(),
            FsDataHandler::Deployments(it) => it.creation_time(),
            FsDataHandler::Dummy(it) => it.creation_time(),
        }
    }

    /// The name of the current entry, or the empty string.
    pub fn artifact_name(&self) -> (r: String)
        ensures
            r@ == (match self.current() {
                Some(e) => e.0,
                None => Seq::<char>::empty(),
            }),
    {
        match self {
            FsDataHandler::Configs(it) => it.artifact_name(),
            FsDataHandler::Resources(it) => it.artifact_name(),
            FsDataHandler::Pods(it) => it.artifact_name(),
            FsDataHandler::Namespaces(it) => it.artifact_name(),
            FsDataHandler::Nodes(it) => it.artifact_name(),
            FsDataHandler::Jobs(it) => it.artifact_name(),
            FsDataHandler::Deployments(it) => it.artifact_name(),
            FsDataHandler::Dummy(it) => it.artifact_name(),
        }
    }

    /// Whether there is a current entry.
    pub fn has_next(&self) -> (r: bool)
        ensures
            r == self.current() is Some,
    {
        match self {
            FsDataHandler::Configs(it) => it.has_next(),
            FsDataHandler::Resources(it) => it.has_next(),
            FsDataHandler::Pods(it) => it.has_next(),
            FsDataHandler::Namespaces(it) => it.has_next(),
            FsDataHandler::Nodes(it) => it.has_next(),
            FsDataHandler::Jobs(it) => it.has_next(),
            FsDataHandler::Deployments(it) => it.has_next(),
            FsDataHandler::Dummy(it) => it.has_next(),
        }
    }

    /// Whether the creation time of the current entry, if any, converts to
    /// a file time without overflow.
    pub open spec fn time_representable(self) -> bool {
        self.current() matches Some(e) ==> entry_time_in_range(e)
    }

    /// Whether `update_find_data` can describe the current entry: its
    /// creation time, if any, converts to a file time without overflow.
    pub fn can_update_find_data(&self) -> (r: bool)
        ensures
            r == self.time_representable(),
    {
        match self.creation_time() {
            Some(m) => m >= -922337203685477 && m <= 910692730085477,
            None => true,
        }
    }

    /// Describes the current entry in `find_data`; without a current entry,
    /// or when the entry's name does not fit, `find_data` is left as it was.
    pub fn update_find_data(&self, find_data: &mut FindData)
        requires
            self.time_representable(),
        ensures
            self.current() is None ==> *final(find_data) == *old(find_data),
            self.current() matches Some(e) ==> record_updated(
                *old(find_data),
                *final(find_data),
                self.record_fields(e),
            ),
    {
        match self {
            FsDataHandler::Configs(it) => it.update_find_data(find_data),
            FsDataHandler::Resources(it) => it.update_find_data(find_data),
            FsDataHandler::Pods(it) => it.update_find_data(find_data),
            FsDataHandler::Namespaces(it) => it.update_find_data(find_data),
            FsDataHandler::Nodes(it) => it.update_find_data(find_data),
            FsDataHandler::Jobs(it) => it.update_find_data(find_data),
            FsDataHandler::Deployments(it) => it.update_find_data(find_data),
            FsDataHandler::Dummy(it) => it.update_find_data(find_data),
        }
    }

    /// Executing an entry has nothing to do; it succeeds.
    pub fn fs_execute(&self, path: &str, verb: &str) -> (r: Result<(), FsError>)
        ensures
            r is Ok,
    {
        Ok(())
    }

    /// What a get request of `remote_path` into `local_path` leaves to do:
    /// in a listing of pods, listing the pods of the selected namespace of
    /// the context named by the path's first component when the path has
    /// more than two components; else nothing.
    pub fn fs_get(&self, remote_path: &str, local_path: &str, flags: i32, shared_data: &SharedData) -> (r: GetAction)
        ensures
            (self.kind() == ListingKind::Pods && spec_pod_get_context(remote_path@) is Some) <==> r is ListPods,
            r matches GetAction::ListPods { config_name, namespace } ==> spec_pod_get_context(remote_path@)
                == Some(config_name@) && namespace@ == shared_data.selected_namespace@,
    {
        match self {
            FsDataHandler::Pods(_) => match pod_get_context(remote_path) {
                Some(config_name) => GetAction::ListPods {
                    config_name,
                    namespace: shared_data.selected_namespace.clone(),
                },
                None => GetAction::Done,
            },
            _ => GetAction::Done,
        }
    }

    /// Putting a file has nothing to do; it succeeds.
    pub fn fs_put(&self, remote_path: &str, local_path: &str, flags: i32) -> (r: Result<(), FsError>)
        ensures
            r is Ok,
    {
        Ok(())
    }

    /// Deleting an entry has nothing to do; it succeeds.
    pub fn fs_delete(&self, remote_path: &str) -> (r: Result<(), FsError>)
        ensures
            r is Ok,
    {
        Ok(())
    }
}


/// The objects of a listing request: those listed when the request
/// succeeded, none when it failed.
pub fn get_resources<T, E>(listing: Result<Vec<T>, E>) -> (r: Vec<T>)
    ensures
        listing matches Ok(v) ==> r@ == v@,
        listing is Err ==> r@.len() == 0,
{
    match listing {
        Ok(v) => v,
        Err(_) => Vec::new(),
    }
}

/// Whether the kubeconfig has a context named `config_name`, among the
/// names of its contexts.
pub fn has_named_context(context_names: &Vec<String>, config_name: &str) -> (r: bool)
    ensures
        r == exists|i: int| 0 <= i < context_names@.len() && #[trigger] context_names@[i]@ == config_name@,
{
    let mut i: usize = 0;
    while i < context_names.len()
        invariant
            i <= context_names@.len(),
            forall|j: int| 0 <= j < i ==> #[trigger] context_names@[j]@ != config_name@,
        decreases context_names@.len() - i,
    {
        if str_eq(context_names[i].as_str(), config_name) {
            return true;
        }
        i = i + 1;
    }
    false
}

/// The namespace that a client for a context works in: the requested one,
/// else the context's default namespace.
pub fn client_namespace(namespace: Option<&str>, default_namespace: &str) -> (r: String)
    ensures
        r@ == (match namespace {
            Some(ns) => ns@,
            None => default_namespace@,
        }),
{
    match namespace {
        Some(ns) => ns.to_owned(),
        None => default_namespace.to_owned(),
    }
}


/// The listing that a kind of resource's directory shows: its objects for
/// pods, namespaces, nodes, jobs and deployments; nothing for other kinds.
pub open spec fn listing_of_kind(r: K8SResources) -> ListingKind {
    match r {
        K8SResources::Pod => ListingKind::Pods,
        K8SResources::Namespace => ListingKind::Namespaces,
        K8SResources::Node => ListingKind::Nodes,
        K8SResources::Job => ListingKind::Jobs,
        K8SResources::Deployment => ListingKind::Deployments,
        _ => ListingKind::Dummy,
    }
}

/// A context name that can stand as a path component.
pub open spec fn is_context_component(c: Seq<char>) -> bool {
    is_normal_component(c) && !c.contains('/')
}

/// The root lists the contexts, a context's directory lists the kinds of
/// resource, and the directory of a kind, named as the kinds' listing names
/// it, lists the objects of that kind (nothing for kinds the plugin does not
/// list), read from that context.
pub proof fn lemma_directories_lead_to_their_listing(c: Seq<char>, r: K8SResources)
    requires
        is_context_component(c),
    ensures
        spec_listing_kind(join_path(Seq::empty())) == ListingKind::Configs,
        spec_listing_kind(join_path(seq![c])) == ListingKind::Resources,
        spec_listing_kind(join_path(seq![c, res_name(r)])) == listing_of_kind(r),
        lists_objects(listing_of_kind(r)) ==> normal_components(join_path(seq![c, res_name(r)]))[0] == c,
{
    lemma_components_of_joined_path(Seq::empty());
    lemma_components_of_joined_path(seq![c]);
    lemma_res_name_is_component(r);
    let segs = seq![c, res_name(r)];
    assert forall|k: int| 0 <= k < segs.len() implies is_normal_component(#[trigger] segs[k])
        && !segs[k].contains('/') by {
        if k == 0 {
        } else {
        }
    }
    lemma_components_of_joined_path(segs);
    lemma_from_str_inverts_as_res_str(r);
}

/// A get request on an entry of a context's pod listing lists the pods of
/// that context.
pub proof fn lemma_pod_get_reads_its_context(c: Seq<char>, pod: Seq<char>)
    requires
        is_context_component(c),
        is_context_component(pod),
    ensures
        spec_pod_get_context(join_path(seq![c, res_name(K8SResources::Pod), pod])) == Some(c),
{
    lemma_res_name_is_component(K8SResources::Pod);
    let segs = seq![c, res_name(K8SResources::Pod), pod];
    assert forall|k: int| 0 <= k < segs.len() implies is_normal_component(#[trigger] segs[k])
        && !segs[k].contains('/') by {
        if k == 0 {
        } else if k == 1 {
        } else {
        }
    }
    lemma_components_of_joined_path(segs);
}

/// A directory below a kind that is listed per namespace (pods, jobs,
/// deployments) is routed to the objects of that kind in the selected
/// namespace of the context named by the first component.
pub proof fn lemma_namespaced_kinds_use_selected_namespace(
    route: Route,
    path: Seq<char>,
    selected_namespace: Seq<char>,
    r: K8SResources,
)
    requires
        is_route_of(route, path, selected_namespace),
        normal_components(path).len() >= 2,
        normal_components(path)[1] == lookup_key(r),
        r == K8SResources::Pod || r == K8SResources::Job || r == K8SResources::Deployment,
    ensures
        route.namespace@ == selected_namespace,
        route.config_name@ == normal_components(path)[0],
        r == K8SResources::Pod ==> route.kind == ListingKind::Pods,
        r == K8SResources::Job ==> route.kind == ListingKind::Jobs,
        r == K8SResources::Deployment ==> route.kind == ListingKind::Deployments,
{
    lemma_from_str_exactly_the_keys(lookup_key(r), r);
}

/// The time shown for a creation instant `m` (milliseconds since 1970), read
/// as a signed high half and an unsigned low half, recombines into the
/// number of 100-nanosecond intervals since 1601: `m * 10000 +
/// 116444736000000000`. An unknown creation time is shown as zero.
pub proof fn lemma_creation_file_time_recombines(m: i64)
    requires
        i64::MIN <= m * 10000 <= i64::MAX,
        i64::MIN <= m * 10000 + 116444736000000000 <= i64::MAX,
    ensures
        ({
            let t = creation_file_time(Some(m));
            (t.dw_high_date_time as i32) as int * 0x1_0000_0000 + t.dw_low_date_time as int == m
                * 10000 + 116444736000000000
        }),
        creation_file_time(None) == (FILETIME { dw_low_date_time: 0, dw_high_date_time: 0 }),
{
    let ft: int = m * 10000 + 116444736000000000;
    let x: i64 = ft as i64;
    assert(x as int == ft);
    assert(((x as i64) as i32) as u32 as int == x as int % 0x1_0000_0000) by (bit_vector);
    assert((((x as int / 0x1_0000_0000) as i32) as u32) as i32 as int == x as int / 0x1_0000_0000)
        by (bit_vector);
    vstd::arithmetic::div_mod::lemma_fundamental_div_mod(ft, 0x1_0000_0000);
}

/// Objects are shown as files: the record of an object in a listing of
/// pods, namespaces, nodes, jobs or deployments has only the Unix-mode
/// attribute, Unix mode word 0, the object's creation time as every time, and
/// its name. Contexts and kinds of resource, and only they, are directories.
pub proof fn lemma_objects_are_files(h: FsDataHandler, e: Entry)
    ensures
        (h.record_fields(e).0 & FILE_ATTRIBUTE_DIRECTORY != 0) <==> (h.kind() == ListingKind::Configs
            || h.kind() == ListingKind::Resources),
        h.record_fields(e).0 & FILE_ATTRIBUTE_UNIX_MODE != 0,
        h.record_fields(e).3 == encode_utf8(e.0),
        lists_objects(h.kind()) ==> h.record_fields(e).0 == FILE_ATTRIBUTE_UNIX_MODE,
        lists_objects(h.kind()) ==> h.record_fields(e).1 == 0,
        lists_objects(h.kind()) ==> h.record_fields(e).2 == creation_file_time(e.1),
        lists_objects(h.kind()) && e.1 is None ==> h.record_fields(e).2 == (FILETIME {
            dw_low_date_time: 0,
            dw_high_date_time: 0,
        }),
{
    let d: u32 = 0x10;
    let u: u32 = 0x8000_0000;
    assert((u | d) & d != 0 && (u | d) & u != 0 && u & d == 0 && u & u != 0) by (bit_vector)
        requires
            d == 0x10u32,
            u == 0x8000_0000u32,
    ;
}

} // verus!
