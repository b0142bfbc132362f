use k8s_wfx::consts::{
    FindData, FILETIME, FILE_ATTRIBUTE_DIRECTORY, FILE_ATTRIBUTE_UNIX_MODE, MAX_PATH, S_IFDIR,
    S_IRUSR, S_IWUSR, S_IXUSR,
};
use k8s_wfx::iterators::{
    client_namespace, get_resources, has_named_context, FsDataHandler, FsError, GetAction,
    ListingKind, ObjectSummary, ResourceData, ResourcesIteratorFactory, Route,
};
use k8s_wfx::iterators::pods::{pod_get_context, resolve_api_resource, ApiGroupSummary, ApiResourceSummary};
use k8s_wfx::iterators::dummy::DummyIterator;
use k8s_wfx::iterator::ResourcesIterator;
use k8s_wfx::resources::K8SResources;
use k8s_wfx::shareddata::SharedData;

fn shared(ns: &str) -> SharedData {
    let mut s = SharedData::new();
    s.selected_namespace = ns.to_string();
    s
}

fn route(path: &str) -> Route {
    ResourcesIteratorFactory::new(path, &shared("kube-system"))
}

fn name_of(fd: &FindData) -> String {
    let end = fd.c_file_name.iter().position(|b| *b == 0).unwrap();
    String::from_utf8(fd.c_file_name[..end].to_vec()).unwrap()
}

fn obj(name: &str, millis: Option<i64>) -> ObjectSummary {
    ObjectSummary { name: name.to_string(), creation_millis: millis }
}

#[test]
fn shared_data_defaults() {
    let s = SharedData::new();
    assert_eq!(s.plugin_nr, 1);
    assert_eq!(s.selected_namespace, "default");
}

#[test]
fn root_lists_contexts() {
    let r = route("/");
    assert_eq!(r.kind, ListingKind::Configs);
    assert_eq!(r.config_name, "");
}

#[test]
fn context_lists_kinds() {
    assert_eq!(route("/docker-desktop").kind, ListingKind::Resources);
}

#[test]
fn kind_directories_route_to_their_listing() {
    let r = route("/docker-desktop/pod");
    assert_eq!(r.kind, ListingKind::Pods);
    assert_eq!(r.config_name, "docker-desktop");
    assert_eq!(r.namespace, "kube-system");
    let r = route("/ctx/namespace");
    assert_eq!(r.kind, ListingKind::Namespaces);
    assert_eq!(r.config_name, "ctx");
    assert_eq!(r.namespace, "");
    assert_eq!(route("/ctx/node").kind, ListingKind::Nodes);
    assert_eq!(route("/ctx/job").kind, ListingKind::Jobs);
    assert_eq!(route("/ctx/job").namespace, "kube-system");
    assert_eq!(route("/ctx/deployment").kind, ListingKind::Deployments);
    assert_eq!(route("/ctx/secret").kind, ListingKind::Dummy);
    assert_eq!(route("/ctx/secret").config_name, "");
    assert_eq!(route("/ctx/nonsense").kind, ListingKind::Dummy);
    assert_eq!(route("/ctx/pod/some-pod").kind, ListingKind::Pods);
    assert_eq!(route("ctx//pod/").kind, ListingKind::Pods);
}

#[test]
fn every_kind_directory_routes_to_its_listing() {
    for r in K8SResources::iterator() {
        let path = format!("/ctx/{}", r.as_res_str());
        let expected = match r {
            K8SResources::Pod => ListingKind::Pods,
            K8SResources::Namespace => ListingKind::Namespaces,
            K8SResources::Node => ListingKind::Nodes,
            K8SResources::Job => ListingKind::Jobs,
            K8SResources::Deployment => ListingKind::Deployments,
            _ => ListingKind::Dummy,
        };
        assert_eq!(route(&path).kind, expected, "{}", path);
    }
}

#[test]
fn object_listing_visits_each_object_then_stops() {
    let r = route("/ctx/pod");
    let mut h = FsDataHandler::from_route(&r, Vec::new(), vec![obj("a", Some(0)), obj("b", None)]);
    assert!(!h.has_next());
    assert_eq!(h.artifact_name(), "");
    assert_eq!(h.next(), Some(ResourceData));
    assert!(h.has_next());
    assert_eq!(h.artifact_name(), "a");
    assert_eq!(h.creation_time(), Some(0));
    assert_eq!(h.next(), Some(ResourceData));
    assert_eq!(h.artifact_name(), "b");
    assert_eq!(h.creation_time(), None);
    assert_eq!(h.next(), None);
    assert!(!h.has_next());
    assert_eq!(h.artifact_name(), "");
    assert_eq!(h.next(), None);
}

#[test]
fn object_record_is_a_file_with_its_creation_time() {
    let r = route("/ctx/pod");
    let mut h = FsDataHandler::from_route(&r, Vec::new(), vec![obj("web-1", Some(0))]);
    let mut fd = FindData::new();
    h.next();
    assert!(h.can_update_find_data());
    h.update_find_data(&mut fd);
    assert_eq!(fd.dw_file_attributes, FILE_ATTRIBUTE_UNIX_MODE);
    assert_eq!(fd.dw_reserved_0, 0);
    assert_eq!(fd.ft_creation_time, FILETIME::new(0xD53E8000, 0x019DB1DE));
    assert_eq!(fd.ft_last_access_time, fd.ft_creation_time);
    assert_eq!(fd.ft_last_write_time, fd.ft_creation_time);
    assert_eq!(fd.c_file_name.len(), MAX_PATH);
    assert_eq!(name_of(&fd), "web-1");
    assert!(fd.c_file_name[5..].iter().all(|b| *b == 0));
    assert_eq!(fd.c_alternate_file_name, vec![0u8; 14]);
}

#[test]
fn record_unchanged_without_current_entry() {
    let r = route("/ctx/pod");
    let h = FsDataHandler::from_route(&r, Vec::new(), vec![obj("x", None)]);
    let mut fd = FindData::new();
    fd.dw_reserved_1 = 7;
    h.update_find_data(&mut fd);
    assert_eq!(fd.dw_reserved_1, 7);
    assert_eq!(fd.dw_file_attributes, 0);
}

#[test]
fn too_long_name_leaves_record_unchanged() {
    let long = "x".repeat(MAX_PATH);
    let r = route("/ctx/pod");
    let mut h = FsDataHandler::from_route(&r, Vec::new(), vec![obj(&long, None)]);
    h.next();
    let mut fd = FindData::new();
    h.update_find_data(&mut fd);
    assert_eq!(fd.dw_file_attributes, 0);
    assert_eq!(name_of(&fd), "");
    let fits = "y".repeat(MAX_PATH - 1);
    let mut h = FsDataHandler::from_route(&r, Vec::new(), vec![obj(&fits, None)]);
    h.next();
    h.update_find_data(&mut fd);
    assert_eq!(name_of(&fd), fits);
    assert_eq!(fd.c_file_name[MAX_PATH - 1], 0);
}

#[test]
fn creation_time_out_of_range_is_reported() {
    let r = route("/ctx/pod");
    let mut h = FsDataHandler::from_route(&r, Vec::new(), vec![obj("x", Some(i64::MAX)), obj("y", Some(910692730085477)), obj("z", Some(910692730085478)), obj("w", Some(-922337203685477)), obj("v", Some(-922337203685478))]);
    h.next();
    assert!(!h.can_update_find_data());
    h.next();
    assert!(h.can_update_find_data());
    h.next();
    assert!(!h.can_update_find_data());
    h.next();
    assert!(h.can_update_find_data());
    h.next();
    assert!(!h.can_update_find_data());
}

#[test]
fn contexts_are_owner_directories() {
    let r = route("/");
    let mut h = FsDataHandler::from_route(&r, vec!["docker-desktop".to_string(), "prod".to_string()], Vec::new());
    let mut fd = FindData::new();
    assert_eq!(h.next(), Some(ResourceData));
    h.update_find_data(&mut fd);
    assert_eq!(name_of(&fd), "docker-desktop");
    assert_eq!(fd.dw_file_attributes, FILE_ATTRIBUTE_UNIX_MODE | FILE_ATTRIBUTE_DIRECTORY);
    assert_eq!(fd.dw_reserved_0, S_IFDIR | S_IRUSR | S_IWUSR | S_IXUSR);
    assert_eq!(fd.dw_reserved_0, 0o40700);
    assert_eq!(fd.ft_creation_time, FILETIME::default());
    assert_eq!(h.creation_time(), None);
    assert_eq!(h.next(), Some(ResourceData));
    assert_eq!(h.artifact_name(), "prod");
    assert_eq!(h.next(), None);
}

#[test]
fn kinds_are_directories_in_listing_order() {
    let r = route("/ctx");
    let mut h = FsDataHandler::from_route(&r, Vec::new(), Vec::new());
    let mut names = Vec::new();
    let mut fd = FindData::new();
    while h.next().is_some() {
        h.update_find_data(&mut fd);
        assert_eq!(fd.dw_file_attributes, FILE_ATTRIBUTE_UNIX_MODE | FILE_ATTRIBUTE_DIRECTORY);
        assert_eq!(fd.dw_reserved_0, S_IFDIR);
        names.push(name_of(&fd));
    }
    let expected: Vec<String> = K8SResources::iterator().iter().map(|r| r.as_res_str()).collect();
    assert_eq!(names, expected);
    assert_eq!(names[16], "Statefulset");
}

#[test]
fn dummy_listing_is_empty() {
    let r = route("/ctx/secret");
    let mut h = FsDataHandler::from_route(&r, vec!["a".to_string()], vec![obj("b", None)]);
    assert_eq!(h.next(), None);
    assert!(!h.has_next());
    let mut d = DummyIterator::new();
    assert_eq!(d.next(), None);
    assert_eq!(d.creation_time(), None);
    assert_eq!(d.artifact_name(), "");
}

#[test]
fn requests_succeed_and_get_on_pods_lists_pods() {
    let s = shared("ns1");
    let pods = FsDataHandler::from_route(&route("/ctx/pod"), Vec::new(), Vec::new());
    match pods.fs_get("/ctx/pod/p1", "/tmp/p1", 0, &s) {
        GetAction::ListPods { config_name, namespace } => {
            assert_eq!(config_name, "ctx");
            assert_eq!(namespace, "ns1");
        }
        GetAction::Done => panic!("expected a pod listing"),
    }
    assert!(matches!(pods.fs_get("/ctx/pod", "/tmp/p1", 0, &s), GetAction::Done));
    let jobs = FsDataHandler::from_route(&route("/ctx/job"), Vec::new(), Vec::new());
    assert!(matches!(jobs.fs_get("/ctx/job/j1", "/tmp/j1", 0, &s), GetAction::Done));
    assert_eq!(pods.fs_execute("/ctx/pod/p1", "open"), Ok(()));
    assert_eq!(pods.fs_put("/ctx/pod/p1", "/tmp/p1", 0), Ok(()));
    assert_eq!(pods.fs_delete("/ctx/pod/p1"), Ok(()));
    let _unused: FsError = FsError::RequestFailed;
}

#[test]
fn pod_get_context_needs_three_components() {
    assert_eq!(pod_get_context("/c/pod/x"), Some("c".to_string()));
    assert_eq!(pod_get_context("/c/pod"), None);
    assert_eq!(pod_get_context("/c/pod/x/y"), Some("c".to_string()));
}

#[test]
fn listing_outcomes() {
    let ok: Result<Vec<u32>, String> = Ok(vec![1, 2]);
    assert_eq!(get_resources(ok), vec![1, 2]);
    let err: Result<Vec<u32>, String> = Err("boom".to_string());
    assert!(get_resources(err).is_empty());
}

#[test]
fn named_context_lookup() {
    let names = vec!["a".to_string(), "docker-desktop".to_string()];
    assert!(has_named_context(&names, "docker-desktop"));
    assert!(!has_named_context(&names, "docker"));
    assert!(!has_named_context(&Vec::new(), "a"));
}

#[test]
fn client_namespace_choice() {
    assert_eq!(client_namespace(Some("ns"), "default"), "ns");
    assert_eq!(client_namespace(None, "default"), "default");
}

fn res(kind: &str, plural: &str) -> ApiResourceSummary {
    ApiResourceSummary { kind: kind.to_string(), plural: plural.to_string() }
}

fn group(name: &str, resources: Vec<ApiResourceSummary>) -> ApiGroupSummary {
    ApiGroupSummary { name: name.to_string(), resources }
}

#[test]
fn api_resource_resolution_prefers_least_group_name() {
    let groups = vec![
        group("metrics.k8s.io", vec![res("PodMetrics", "pods")]),
        group("", vec![res("Pod", "pods"), res("Node", "nodes")]),
        group("apps", vec![res("Deployment", "deployments")]),
    ];
    assert_eq!(resolve_api_resource(&groups, "pods"), Some((1, 0)));
    assert_eq!(resolve_api_resource(&groups, "POD"), Some((1, 0)));
    assert_eq!(resolve_api_resource(&groups, "podmetrics"), Some((0, 0)));
    assert_eq!(resolve_api_resource(&groups, "deployment"), Some((2, 0)));
    assert_eq!(resolve_api_resource(&groups, "Nodes"), Some((1, 1)));
    assert_eq!(resolve_api_resource(&groups, "secrets"), None);
    assert_eq!(resolve_api_resource(&Vec::new(), "pods"), None);
}

#[test]
fn api_resource_resolution_keeps_the_first_of_equal_groups() {
    let groups = vec![
        group("b", vec![res("X", "xs")]),
        group("a", vec![res("Y", "ys"), res("X", "xs2")]),
        group("a", vec![res("X", "xs3")]),
    ];
    assert_eq!(resolve_api_resource(&groups, "x"), Some((1, 1)));
}

#[test]
fn resources_iterator_walks_every_kind() {
    let mut it = ResourcesIterator::new();
    let cursor = it.iterator();
    let mut count = 0;
    while cursor.advance() {
        count += 1;
        assert!(cursor.current_item().is_some());
    }
    assert_eq!(count, 24);
    assert!(cursor.current_item().is_none());
}

#[test]
fn resources_iterator_describes_kinds_by_display_name() {
    let mut fd = FindData::new();
    ResourcesIterator::update_find_data(&mut fd, &K8SResources::PersistentVolumeClaim);
    assert_eq!(name_of(&fd), "PersistentVolumeClaim");
    assert_eq!(fd.dw_file_attributes, FILE_ATTRIBUTE_UNIX_MODE | FILE_ATTRIBUTE_DIRECTORY);
    assert_eq!(fd.dw_reserved_0, 0);
}
