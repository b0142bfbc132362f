//! The kinds of Kubernetes resources that the plugin shows.
use vstd::prelude::*;
use crate::helper::{is_normal_component, str_eq};

verus! {

/// A kind of Kubernetes resource.
#[derive(Debug, Clone, Copy, PartialEq, Eq, Structural)]
pub enum K8SResources {
    ConfigMap,
    Endpoint,
    Event,
    Namespace,
    Node,
    PersistentVolumeClaim,
    PersistentVolume,
    Pod,
    ReplicationController,
    Secret,
    ServiceAccount,
    Service,
    CustomResourceDefinition,
    ApiService,
    Deployment,
    ReplicaSet,
    StatefulSet,
    CronJob,
    Job,
    Ingresse,
    ClusterRoleBinding,
    ClusterRole,
    RoleBinding,
    Role,
}

/// Every resource kind, in the order in which the plugin lists them.
pub open spec fn all_resources() -> Seq<K8SResources> {
    seq![
        K8SResources::ConfigMap,
        K8SResources::Endpoint,
        K8SResources::Event,
        K8SResources::Namespace,
        K8SResources::Node,
        K8SResources::PersistentVolumeClaim,
        K8SResources::PersistentVolume,
        K8SResources::Pod,
        K8SResources::ReplicationController,
        K8SResources::Secret,
        K8SResources::ServiceAccount,
        K8SResources::Service,
        K8SResources::CustomResourceDefinition,
        K8SResources::ApiService,
        K8SResources::Deployment,
        K8SResources::ReplicaSet,
        K8SResources::StatefulSet,
        K8SResources::CronJob,
        K8SResources::Job,
        K8SResources::Ingresse,
        K8SResources::ClusterRoleBinding,
        K8SResources::ClusterRole,
        K8SResources::RoleBinding,
        K8SResources::Role,
    ]
}

/// The human-readable name of a resource kind.
pub open spec fn display_name(r: K8SResources) -> Seq<char> {
    match r {
        K8SResources::ConfigMap => "ConfigMap"@,
        K8SResources::Endpoint => "Endpoint"@,
        K8SResources::Event => "Event"@,
        K8SResources::Namespace => "Namespace"@,
        K8SResources::Node => "Node"@,
        K8SResources::PersistentVolumeClaim => "PersistentVolumeClaim"@,
        K8SResources::PersistentVolume => "PersistentVolume"@,
        K8SResources::Pod => "Pod"@,
        K8SResources::ReplicationController => "ReplicationController"@,
        K8SResources::Secret => "Secret"@,
        K8SResources::ServiceAccount => "ServiceAccount"@,
        K8SResources::Service => "Service"@,
        K8SResources::CustomResourceDefinition => "CustomResourceDefinition"@,
        K8SResources::ApiService => "ApiService"@,
        K8SResources::Deployment => "Deployment"@,
        K8SResources::ReplicaSet => "ReplicaSet"@,
        K8SResources::StatefulSet => "StatefulSet"@,
        K8SResources::CronJob => "CronJob"@,
        K8SResources::Job => "Job"@,
        K8SResources::Ingresse => "Ingresse"@,
        K8SResources::ClusterRoleBinding => "ClusterRoleBinding"@,
        K8SResources::ClusterRole => "ClusterRole"@,
        K8SResources::RoleBinding => "RoleBinding"@,
        K8SResources::Role => "Role"@,
    }
}

/// The directory name under which a resource kind is listed.
pub open spec fn res_name(r: K8SResources) -> Seq<char> {
    match r {
        K8SResources::ConfigMap => "configmap"@,
        K8SResources::Endpoint => "endpoint"@,
        K8SResources::Event => "event"@,
        K8SResources::Namespace => "namespace"@,
        K8SResources::Node => "node"@,
        K8SResources::PersistentVolumeClaim => "pvc"@,
        K8SResources::PersistentVolume => "pv"@,
        K8SResources::Pod => "pod"@,
        K8SResources::ReplicationController => "replicationcontroller"@,
        K8SResources::Secret => "secret"@,
        K8SResources::ServiceAccount => "serviceaccount"@,
        K8SResources::Service => "service"@,
        K8SResources::CustomResourceDefinition => "crd"@,
        K8SResources::ApiService => "apiservice"@,
        K8SResources::Deployment => "deployment"@,
        K8SResources::ReplicaSet => "replicaset"@,
        K8SResources::StatefulSet => "Statefulset"@,
        K8SResources::CronJob => "cronjob"@,
        K8SResources::Job => "job"@,
        K8SResources::Ingresse => "ingresse"@,
        K8SResources::ClusterRoleBinding => "clusterrolebinding"@,
        K8SResources::ClusterRole => "clusterrole"@,
        K8SResources::RoleBinding => "rolebinding"@,
        K8SResources::Role => "role"@,
    }
}

/// The name that looks a resource kind up.
pub open spec fn lookup_key(r: K8SResources) -> Seq<char> {
    match r {
        K8SResources::StatefulSet => "statefulset"@,
        _ => res_name(r),
    }
}

/// The resource kind looked up by `name`, if `name` is one of the lookup keys.
pub open spec fn spec_from_str(name: Seq<char>) -> Option<K8SResources> {
    if name == "configmap"@ {
        Some(K8SResources::ConfigMap)
    } else if name == "endpoint"@ {
        Some(K8SResources::Endpoint)
    } else if name == "event"@ {
        Some(K8SResources::Event)
    } else if name == "namespace"@ {
        Some(K8SResources::Namespace)
    } else if name == "node"@ {
        Some(K8SResources::Node)
    } else if name == "pvc"@ {
        Some(K8SResources::PersistentVolumeClaim)
    } else if name == "pv"@ {
        Some(K8SResources::PersistentVolume)
    } else if name == "pod"@ {
        Some(K8SResources::Pod)
    } else if name == "replicationcontroller"@ {
        Some(K8SResources::ReplicationController)
    } else if name == "secret"@ {
        Some(K8SResources::Secret)
    } else if name == "serviceaccount"@ {
        Some(K8SResources::ServiceAccount)
    } else if name == "service"@ {
        Some(K8SResources::Service)
    } else if name == "crd"@ {
        Some(K8SResources::CustomResourceDefinition)
    } else if name == "apiservice"@ {
        Some(K8SResources::ApiService)
    } else if name == "deployment"@ {
        Some(K8SResources::Deployment)
    } else if name == "replicaset"@ {
        Some(K8SResources::ReplicaSet)
    } else if name == "statefulset"@ {
        Some(K8SResources::StatefulSet)
    } else if name == "cronjob"@ {
        Some(K8SResources::CronJob)
    } else if name == "job"@ {
        Some(K8SResources::Job)
    } else if name == "ingresse"@ {
        Some(K8SResources::Ingresse)
    } else if name == "clusterrolebinding"@ {
        Some(K8SResources::ClusterRoleBinding)
    } else if name == "clusterrole"@ {
        Some(K8SResources::ClusterRole)
    } else if name == "rolebinding"@ {
        Some(K8SResources::RoleBinding)
    } else if name == "role"@ {
        Some(K8SResources::Role)
    } else {
        None
    }
}

impl K8SResources {
    /// Every resource kind, in listing order.
    pub fn iterator() -> (r: Vec<K8SResources>)
        ensures
            r@ == all_resources(),
    {
        let r = vec![
            K8SResources::ConfigMap,
            K8SResources::Endpoint,
            K8SResources::Event,
            K8SResources::Namespace,
            K8SResources::Node,
            K8SResources::PersistentVolumeClaim,
            K8SResources::PersistentVolume,
            K8SResources::Pod,
            K8SResources::ReplicationController,
            K8SResources::Secret,
            K8SResources::ServiceAccount,
            K8SResources::Service,
            K8SResources::CustomResourceDefinition,
            K8SResources::ApiService,
            K8SResources::Deployment,
            K8SResources::ReplicaSet,
            K8SResources::StatefulSet,
            K8SResources::CronJob,
            K8SResources::Job,
            K8SResources::Ingresse,
            K8SResources::ClusterRoleBinding,
            K8SResources::ClusterRole,
            K8SResources::RoleBinding,
            K8SResources::Role,
        ];
        assert(r@ =~= all_resources());
        r
    }

    /// The human-readable name of this resource kind.
    pub fn to_string(&self) -> (r: String)
        ensures
            r@ == display_name(*self),
    {
        let s = match self {
            K8SResources::ConfigMap => "ConfigMap",
            K8SResources::Endpoint => "Endpoint",
            K8SResources::Event => "Event",
            K8SResources::Namespace => "Namespace",
            K8SResources::Node => "Node",
            K8SResources::PersistentVolumeClaim => "PersistentVolumeClaim",
            K8SResources::PersistentVolume => "PersistentVolume",
            K8SResources::Pod => "Pod",
            K8SResources::ReplicationController => "ReplicationController",
            K8SResources::Secret => "Secret",
            K8SResources::ServiceAccount => "ServiceAccount",
            K8SResources::Service => "Service",
            K8SResources::CustomResourceDefinition => "CustomResourceDefinition",
            K8SResources::ApiService => "ApiService",
            K8SResources::Deployment => "Deployment",
            K8SResources::ReplicaSet => "ReplicaSet",
            K8SResources::StatefulSet => "StatefulSet",
            K8SResources::CronJob => "CronJob",
            K8SResources::Job => "Job",
            K8SResources::Ingresse => "Ingresse",
            K8SResources::ClusterRoleBinding => "ClusterRoleBinding",
            K8SResources::ClusterRole => "ClusterRole",
            K8SResources::RoleBinding => "RoleBinding",
            K8SResources::Role => "Role",
        };
        s.to_owned()
    }

    /// The directory name under which this resource kind is listed.
    pub fn as_res_str(&self) -> (r: String)
        ensures
            r@ == res_name(*self),
    {
        let s = match self {
            K8SResources::ConfigMap => "configmap",
            K8SResources::Endpoint => "endpoint",
            K8SResources::Event => "event",
            K8SResources::Namespace => "namespace",
            K8SResources::Node => "node",
            K8SResources::PersistentVolumeClaim => "pvc",
            K8SResources::PersistentVolume => "pv",
            K8SResources::Pod => "pod",
            K8SResources::ReplicationController => "replicationcontroller",
            K8SResources::Secret => "secret",
            K8SResources::ServiceAccount => "serviceaccount",
            K8SResources::Service => "service",
            K8SResources::CustomResourceDefinition => "crd",
            K8SResources::ApiService => "apiservice",
            K8SResources::Deployment => "deployment",
            K8SResources::ReplicaSet => "replicaset",
            K8SResources::StatefulSet => "Statefulset",
            K8SResources::CronJob => "cronjob",
            K8SResources::Job => "job",
            K8SResources::Ingresse => "ingresse",
            K8SResources::ClusterRoleBinding => "clusterrolebinding",
            K8SResources::ClusterRole => "clusterrole",
            K8SResources::RoleBinding => "rolebinding",
            K8SResources::Role => "role",
        };
        s.to_owned()
    }

    /// The resource kind whose lookup key is `name`, if any.
    pub fn from_str(name: &str) -> (r: Option<K8SResources>)
        ensures
            r == spec_from_str(name@),
    {
        if str_eq(name, "configmap") {
            Some(K8SResources::ConfigMap)
        } else if str_eq(name, "endpoint") {
            Some(K8SResources::Endpoint)
        } else if str_eq(name, "event") {
            Some(K8SResources::Event)
        } else if str_eq(name, "namespace") {
            Some(K8SResources::Namespace)
        } else if str_eq(name, "node") {
            Some(K8SResources::Node)
        } else if str_eq(name, "pvc") {
            Some(K8SResources::PersistentVolumeClaim)
        } else if str_eq(name, "pv") {
            Some(K8SResources::PersistentVolume)
        } else if str_eq(name, "pod") {
            Some(K8SResources::Pod)
        } else if str_eq(name, "replicationcontroller") {
            Some(K8SResources::ReplicationController)
        } else if str_eq(name, "secret") {
            Some(K8SResources::Secret)
        } else if str_eq(name, "serviceaccount") {
            Some(K8SResources::ServiceAccount)
        } else if str_eq(name, "service") {
            Some(K8SResources::Service)
        } else if str_eq(name, "crd") {
            Some(K8SResources::CustomResourceDefinition)
        } else if str_eq(name, "apiservice") {
            Some(K8SResources::ApiService)
        } else if str_eq(name, "deployment") {
            Some(K8SResources::Deployment)
        } else if str_eq(name, "replicaset") {
            Some(K8SResources::ReplicaSet)
        } else if str_eq(name, "statefulset") {
            Some(K8SResources::StatefulSet)
        } else if str_eq(name, "cronjob") {
            Some(K8SResources::CronJob)
        } else if str_eq(name, "job") {
            Some(K8SResources::Job)
        } else if str_eq(name, "ingresse") {
            Some(K8SResources::Ingresse)
        } else if str_eq(name, "clusterrolebinding") {
            Some(K8SResources::ClusterRoleBinding)
        } else if str_eq(name, "clusterrole") {
            Some(K8SResources::ClusterRole)
        } else if str_eq(name, "rolebinding") {
            Some(K8SResources::RoleBinding)
        } else if str_eq(name, "role") {
            Some(K8SResources::Role)
        } else {
            None
        }
    }
}


/// Looking up the lookup key of `r` gives `r`.
proof fn lemma_lookup_key_found(r: K8SResources)
    ensures
        spec_from_str(lookup_key(r)) == Some(r),
{
    reveal_strlit("configmap");
    reveal_strlit("endpoint");
    reveal_strlit("event");
    reveal_strlit("namespace");
    reveal_strlit("node");
    reveal_strlit("pvc");
    reveal_strlit("pv");
    reveal_strlit("pod");
    reveal_strlit("replicationcontroller");
    reveal_strlit("secret");
    reveal_strlit("serviceaccount");
    reveal_strlit("service");
    reveal_strlit("crd");
    reveal_strlit("apiservice");
    reveal_strlit("deployment");
    reveal_strlit("replicaset");
    reveal_strlit("statefulset");
    reveal_strlit("cronjob");
    reveal_strlit("job");
    reveal_strlit("ingresse");
    reveal_strlit("clusterrolebinding");
    reveal_strlit("clusterrole");
    reveal_strlit("rolebinding");
    reveal_strlit("role");
    reveal_strlit("Statefulset");
    match r {
        K8SResources::ConfigMap => {
            let k = "configmap"@;
            assert(k.len() == 9);
            assert(seq![k[0], k[1], k[2], k[3], k[4], k[5], k[6], k[7], k[8]].len() > 0);
            assert(spec_from_str(k) == Some(K8SResources::ConfigMap));
        },
        K8SResources::Endpoint => {
            let k = "endpoint"@;
            assert(k.len() == 8);
            assert(seq![k[0], k[1], k[2], k[3], k[4], k[5], k[6], k[7]].len() > 0);
            assert(spec_from_str(k) == Some(K8SResources::Endpoint));
        },
        K8SResources::Event => {
            let k = "event"@;
            assert(k.len() == 5);
            assert(seq![k[0], k[1], k[2], k[3], k[4]].len() > 0);
            assert(spec_from_str(k) == Some(K8SResources::Event));
        },
        K8SResources::Namespace => {
            let k = "namespace"@;
            assert(k.len() == 9);
            assert(seq![k[0], k[1], k[2], k[3], k[4], k[5], k[6], k[7], k[8]].len() > 0);
            assert(spec_from_str(k) == Some(K8SResources::Namespace));
        },
        K8SResources::Node => {
            let k = "node"@;
            assert(k.len() == 4);
            assert(seq![k[0], k[1], k[2], k[3]].len() > 0);
            assert(spec_from_str(k) == Some(K8SResources::Node));
        },
        K8SResources::PersistentVolumeClaim => {
            let k = "pvc"@;
            assert(k.len() == 3);
            assert(seq![k[0], k[1], k[2]].len() > 0);
            assert(spec_from_str(k) == Some(K8SResources::PersistentVolumeClaim));
        },
        K8SResources::PersistentVolume => {
            let k = "pv"@;
            assert(k.len() == 2);
            assert(seq![k[0], k[1]].len() > 0);
            assert(spec_from_str(k) == Some(K8SResources::PersistentVolume));
        },
        K8SResources::Pod => {
            let k = "pod"@;
            assert(k.len() == 3);
            assert(seq![k[0], k[1], k[2]].len() > 0);
            assert(spec_from_str(k) == Some(K8SResources::Pod));
        },
        K8SResources::ReplicationController => {
            let k = "replicationcontroller"@;
            assert(k.len() == 21);
            assert(seq![k[0], k[1], k[2], k[3], k[4], k[5], k[6], k[7], k[8], k[9], k[10], k[11], k[12], k[13], k[14], k[15], k[16], k[17], k[18], k[19], k[20]].len() > 0);
            assert(spec_from_str(k) == Some(K8SResources::ReplicationController));
        },
        K8SResources::Secret => {
            let k = "secret"@;
            assert(k.len() == 6);
            assert(seq![k[0], k[1], k[2], k[3], k[4], k[5]].len() > 0);
            assert(spec_from_str(k) == Some(K8SResources::Secret));
        },
        K8SResources::ServiceAccount => {
            let k = "serviceaccount"@;
            assert(k.len() == 14);
            assert(seq![k[0], k[1], k[2], k[3], k[4], k[5], k[6], k[7], k[8], k[9], k[10], k[11], k[12], k[13]].len() > 0);
            assert(spec_from_str(k) == Some(K8SResources::ServiceAccount));
        },
        K8SResources::Service => {
            let k = "service"@;
            assert(k.len() == 7);
            assert(seq![k[0], k[1], k[2], k[3], k[4], k[5], k[6]].len() > 0);
            assert(spec_from_str(k) == Some(K8SResources::Service));
        },
        K8SResources::CustomResourceDefinition => {
            let k = "crd"@;
            assert(k.len() == 3);
            assert(seq![k[0], k[1], k[2]].len() > 0);
            assert(spec_from_str(k) == Some(K8SResources::CustomResourceDefinition));
        },
        K8SResources::ApiService => {
            let k = "apiservice"@;
            assert(k.len() == 10);
            assert(seq![k[0], k[1], k[2], k[3], k[4], k[5], k[6], k[7], k[8], k[9]].len() > 0);
            assert(spec_from_str(k) == Some(K8SResources::ApiService));
        },
        K8SResources::Deployment => {
            let k = "deployment"@;
            assert(k.len() == 10);
            assert(seq![k[0], k[1], k[2], k[3], k[4], k[5], k[6], k[7], k[8], k[9]].len() > 0);
            assert(spec_from_str(k) == Some(K8SResources::Deployment));
        },
        K8SResources::ReplicaSet => {
            let k = "replicaset"@;
            assert(k.len() == 10);
            assert(seq![k[0], k[1], k[2], k[3], k[4], k[5], k[6], k[7], k[8], k[9]].len() > 0);
            assert(spec_from_str(k) == Some(K8SResources::ReplicaSet));
        },
        K8SResources::StatefulSet => {
            let k = "statefulset"@;
            assert(k.len() == 11);
            assert(seq![k[0], k[1], k[2], k[3], k[4], k[5], k[6], k[7], k[8], k[9], k[10]].len() > 0);
            assert(spec_from_str(k) == Some(K8SResources::StatefulSet));
        },
        K8SResources::CronJob => {
            let k = "cronjob"@;
            assert(k.len() == 7);
            assert(seq![k[0], k[1], k[2], k[3], k[4], k[5], k[6]].len() > 0);
            assert(spec_from_str(k) == Some(K8SResources::CronJob));
        },
        K8SResources::Job => {
            let k = "job"@;
            assert(k.len() == 3);
            assert(seq![k[0], k[1], k[2]].len() > 0);
            assert(spec_from_str(k) == Some(K8SResources::Job));
        },
        K8SResources::Ingresse => {
            let k = "ingresse"@;
            assert(k.len() == 8);
            assert(seq![k[0], k[1], k[2], k[3], k[4], k[5], k[6], k[7]].len() > 0);
            assert(spec_from_str(k) == Some(K8SResources::Ingresse));
        },
        K8SResources::ClusterRoleBinding => {
            let k = "clusterrolebinding"@;
            assert(k.len() == 18);
            assert(seq![k[0], k[1], k[2], k[3], k[4], k[5], k[6], k[7], k[8], k[9], k[10], k[11], k[12], k[13], k[14], k[15], k[16], k[17]].len() > 0);
            assert(spec_from_str(k) == Some(K8SResources::ClusterRoleBinding));
        },
        K8SResources::ClusterRole => {
            let k = "clusterrole"@;
            assert(k.len() == 11);
            assert(seq![k[0], k[1], k[2], k[3], k[4], k[5], k[6], k[7], k[8], k[9], k[10]].len() > 0);
            assert(spec_from_str(k) == Some(K8SResources::ClusterRole));
        },
        K8SResources::RoleBinding => {
            let k = "rolebinding"@;
            assert(k.len() == 11);
            assert(seq![k[0], k[1], k[2], k[3], k[4], k[5], k[6], k[7], k[8], k[9], k[10]].len() > 0);
            assert(spec_from_str(k) == Some(K8SResources::RoleBinding));
        },
        K8SResources::Role => {
            let k = "role"@;
            assert(k.len() == 4);
            assert(seq![k[0], k[1], k[2], k[3]].len() > 0);
            assert(spec_from_str(k) == Some(K8SResources::Role));
        },
    }
}

/// Looking a name up gives the kind `r` exactly when the name is `r`'s lookup key.
pub proof fn lemma_from_str_exactly_the_keys(name: Seq<char>, r: K8SResources)
    ensures
        spec_from_str(name) == Some(r) <==> name == lookup_key(r),
{
    lemma_lookup_key_found(r);
}

/// Every kind but `StatefulSet` is found again by looking up its directory
/// name; the directory name of `StatefulSet` (`Statefulset`) finds nothing,
/// since its lookup key is `statefulset`.
pub proof fn lemma_from_str_inverts_as_res_str(r: K8SResources)
    ensures
        r != K8SResources::StatefulSet ==> spec_from_str(res_name(r)) == Some(r),
        spec_from_str(res_name(K8SResources::StatefulSet)) == None::<K8SResources>,
{
    lemma_lookup_key_found(r);
    reveal_strlit("configmap");
    reveal_strlit("endpoint");
    reveal_strlit("event");
    reveal_strlit("namespace");
    reveal_strlit("node");
    reveal_strlit("pvc");
    reveal_strlit("pv");
    reveal_strlit("pod");
    reveal_strlit("replicationcontroller");
    reveal_strlit("secret");
    reveal_strlit("serviceaccount");
    reveal_strlit("service");
    reveal_strlit("crd");
    reveal_strlit("apiservice");
    reveal_strlit("deployment");
    reveal_strlit("replicaset");
    reveal_strlit("statefulset");
    reveal_strlit("cronjob");
    reveal_strlit("job");
    reveal_strlit("ingresse");
    reveal_strlit("clusterrolebinding");
    reveal_strlit("clusterrole");
    reveal_strlit("rolebinding");
    reveal_strlit("role");
    reveal_strlit("Statefulset");
    let k = "Statefulset"@;
    assert(k.len() == 11);
    assert(seq![k[0], k[1]].len() > 0);
}

/// The listing holds every kind exactly once.
pub proof fn lemma_iterator_lists_every_kind_once(r: K8SResources)
    ensures
        all_resources().len() == 24,
        all_resources().no_duplicates(),
        all_resources().contains(r),
{
    assert(all_resources().no_duplicates());
    match r {
        K8SResources::ConfigMap => assert(all_resources()[0] == r),
        K8SResources::Endpoint => assert(all_resources()[1] == r),
        K8SResources::Event => assert(all_resources()[2] == r),
        K8SResources::Namespace => assert(all_resources()[3] == r),
        K8SResources::Node => assert(all_resources()[4] == r),
        K8SResources::PersistentVolumeClaim => assert(all_resources()[5] == r),
        K8SResources::PersistentVolume => assert(all_resources()[6] == r),
        K8SResources::Pod => assert(all_resources()[7] == r),
        K8SResources::ReplicationController => assert(all_resources()[8] == r),
        K8SResources::Secret => assert(all_resources()[9] == r),
        K8SResources::ServiceAccount => assert(all_resources()[10] == r),
        K8SResources::Service => assert(all_resources()[11] == r),
        K8SResources::CustomResourceDefinition => assert(all_resources()[12] == r),
        K8SResources::ApiService => assert(all_resources()[13] == r),
        K8SResources::Deployment => assert(all_resources()[14] == r),
        K8SResources::ReplicaSet => assert(all_resources()[15] == r),
        K8SResources::StatefulSet => assert(all_resources()[16] == r),
        K8SResources::CronJob => assert(all_resources()[17] == r),
        K8SResources::Job => assert(all_resources()[18] == r),
        K8SResources::Ingresse => assert(all_resources()[19] == r),
        K8SResources::ClusterRoleBinding => assert(all_resources()[20] == r),
        K8SResources::ClusterRole => assert(all_resources()[21] == r),
        K8SResources::RoleBinding => assert(all_resources()[22] == r),
        K8SResources::Role => assert(all_resources()[23] == r),
    }
}

/// Every directory name is a normal path component without `'/'`.
pub proof fn lemma_res_name_is_component(r: K8SResources)
    ensures
        is_normal_component(res_name(r)),
        !res_name(r).contains('/'),
{
    match r {
        K8SResources::ConfigMap => {
            reveal_strlit("configmap");
            assert("configmap"@ =~= seq!['c', 'o', 'n', 'f', 'i', 'g', 'm', 'a', 'p']);
        },
        K8SResources::Endpoint => {
            reveal_strlit("endpoint");
            assert("endpoint"@ =~= seq!['e', 'n', 'd', 'p', 'o', 'i', 'n', 't']);
        },
        K8SResources::Event => {
            reveal_strlit("event");
            assert("event"@ =~= seq!['e', 'v', 'e', 'n', 't']);
        },
        K8SResources::Namespace => {
            reveal_strlit("namespace");
            assert("namespace"@ =~= seq!['n', 'a', 'm', 'e', 's', 'p', 'a', 'c', 'e']);
        },
        K8SResources::Node => {
            reveal_strlit("node");
            assert("node"@ =~= seq!['n', 'o', 'd', 'e']);
        },
        K8SResources::PersistentVolumeClaim => {
            reveal_strlit("pvc");
            assert("pvc"@ =~= seq!['p', 'v', 'c']);
        },
        K8SResources::PersistentVolume => {
            reveal_strlit("pv");
            assert("pv"@ =~= seq!['p', 'v']);
        },
        K8SResources::Pod => {
            reveal_strlit("pod");
            assert("pod"@ =~= seq!['p', 'o', 'd']);
        },
        K8SResources::ReplicationController => {
            reveal_strlit("replicationcontroller");
            assert("replicationcontroller"@ =~= seq!['r', 'e', 'p', 'l', 'i', 'c', 'a', 't', 'i', 'o', 'n', 'c', 'o', 'n', 't', 'r', 'o', 'l', 'l', 'e', 'r']);
        },
        K8SResources::Secret => {
            reveal_strlit("secret");
            assert("secret"@ =~= seq!['s', 'e', 'c', 'r', 'e', 't']);
        },
        K8SResources::ServiceAccount => {
            reveal_strlit("serviceaccount");
            assert("serviceaccount"@ =~= seq!['s', 'e', 'r', 'v', 'i', 'c', 'e', 'a', 'c', 'c', 'o', 'u', 'n', 't']);
        },
        K8SResources::Service => {
            reveal_strlit("service");
            assert("service"@ =~= seq!['s', 'e', 'r', 'v', 'i', 'c', 'e']);
        },
        K8SResources::CustomResourceDefinition => {
            reveal_strlit("crd");
            assert("crd"@ =~= seq!['c', 'r', 'd']);
        },
        K8SResources::ApiService => {
            reveal_strlit("apiservice");
            assert("apiservice"@ =~= seq!['a', 'p', 'i', 's', 'e', 'r', 'v', 'i', 'c', 'e']);
        },
        K8SResources::Deployment => {
            reveal_strlit("deployment");
            assert("deployment"@ =~= seq!['d', 'e', 'p', 'l', 'o', 'y', 'm', 'e', 'n', 't']);
        },
        K8SResources::ReplicaSet => {
            reveal_strlit("replicaset");
            assert("replicaset"@ =~= seq!['r', 'e', 'p', 'l', 'i', 'c', 'a', 's', 'e', 't']);
        },
        K8SResources::StatefulSet => {
            reveal_strlit("Statefulset");
            assert("Statefulset"@ =~= seq!['S', 't', 'a', 't', 'e', 'f', 'u', 'l', 's', 'e', 't']);
        },
        K8SResources::CronJob => {
            reveal_strlit("cronjob");
            assert("cronjob"@ =~= seq!['c', 'r', 'o', 'n', 'j', 'o', 'b']);
        },
        K8SResources::Job => {
            reveal_strlit("job");
            assert("job"@ =~= seq!['j', 'o', 'b']);
        },
        K8SResources::Ingresse => {
            reveal_strlit("ingresse");
            assert("ingresse"@ =~= seq!['i', 'n', 'g', 'r', 'e', 's', 's', 'e']);
        },
        K8SResources::ClusterRoleBinding => {
            reveal_strlit("clusterrolebinding");
            assert("clusterrolebinding"@ =~= seq!['c', 'l', 'u', 's', 't', 'e', 'r', 'r', 'o', 'l', 'e', 'b', 'i', 'n', 'd', 'i', 'n', 'g']);
        },
        K8SResources::ClusterRole => {
            reveal_strlit("clusterrole");
            assert("clusterrole"@ =~= seq!['c', 'l', 'u', 's', 't', 'e', 'r', 'r', 'o', 'l', 'e']);
        },
        K8SResources::RoleBinding => {
            reveal_strlit("rolebinding");
            assert("rolebinding"@ =~= seq!['r', 'o', 'l', 'e', 'b', 'i', 'n', 'd', 'i', 'n', 'g']);
        },
        K8SResources::Role => {
            reveal_strlit("role");
            assert("role"@ =~= seq!['r', 'o', 'l', 'e']);
        },
    }
}

} // verus!
