use k8s_wfx::resources::K8SResources;

#[test]
fn listing_holds_every_kind_once_in_order() {
    let all = K8SResources::iterator();
    assert_eq!(all.len(), 24);
    assert_eq!(all[0], K8SResources::ConfigMap);
    assert_eq!(all[7], K8SResources::Pod);
    assert_eq!(all[23], K8SResources::Role);
    for i in 0..all.len() {
        for j in 0..all.len() {
            if i != j {
                assert_ne!(all[i], all[j]);
            }
        }
    }
}

#[test]
fn directory_names() {
    assert_eq!(K8SResources::ConfigMap.as_res_str(), "configmap");
    assert_eq!(K8SResources::PersistentVolumeClaim.as_res_str(), "pvc");
    assert_eq!(K8SResources::PersistentVolume.as_res_str(), "pv");
    assert_eq!(K8SResources::CustomResourceDefinition.as_res_str(), "crd");
    assert_eq!(K8SResources::StatefulSet.as_res_str(), "Statefulset");
    assert_eq!(K8SResources::Role.as_res_str(), "role");
}

#[test]
fn display_names() {
    assert_eq!(K8SResources::ConfigMap.to_string(), "ConfigMap");
    assert_eq!(K8SResources::PersistentVolumeClaim.to_string(), "PersistentVolumeClaim");
    assert_eq!(K8SResources::StatefulSet.to_string(), "StatefulSet");
    assert_eq!(K8SResources::Ingresse.to_string(), "Ingresse");
}

#[test]
fn lookup_by_key() {
    assert_eq!(K8SResources::from_str("pod"), Some(K8SResources::Pod));
    assert_eq!(K8SResources::from_str("pvc"), Some(K8SResources::PersistentVolumeClaim));
    assert_eq!(K8SResources::from_str("statefulset"), Some(K8SResources::StatefulSet));
    assert_eq!(K8SResources::from_str("role"), Some(K8SResources::Role));
    assert_eq!(K8SResources::from_str("Pod"), None);
    assert_eq!(K8SResources::from_str("pods"), None);
    assert_eq!(K8SResources::from_str(""), None);
}

#[test]
fn lookup_inverts_directory_name_except_statefulset() {
    for r in K8SResources::iterator() {
        let found = K8SResources::from_str(&r.as_res_str());
        if r == K8SResources::StatefulSet {
            assert_eq!(found, None);
        } else {
            assert_eq!(found, Some(r));
        }
    }
}

#[test]
fn directory_names_are_path_components() {
    for r in K8SResources::iterator() {
        let name = r.as_res_str();
        assert_eq!(k8s_wfx::helper::path_components(&name), vec![name.clone()]);
    }
}

#[test]
fn resource_names_of_pods_only() {
    let listed: Result<Vec<String>, ()> = Ok(vec!["a".to_string(), "b".to_string()]);
    assert_eq!(K8SResources::Pod.get_resource(listed.clone()), vec!["a", "b"]);
    assert!(K8SResources::Job.get_resource(listed).is_empty());
    let failed: Result<Vec<String>, ()> = Err(());
    assert!(K8SResources::Pod.get_resource(failed).is_empty());
}
