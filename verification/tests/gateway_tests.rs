use kubeintel::envelope::{ObjectRef, ResourceEnvelope, ResourceObject};
use kubeintel::errors::OpError;
use kubeintel::gateway::{ClusterModel, NamespaceSelector};
use kubeintel::registry::ResourceType;

fn obj(kind: ResourceType, ns: &str, name: &str, replicas: u32) -> ResourceObject {
    ResourceObject {
        kind,
        namespace: String::from(ns),
        name: String::from(name),
        replicas,
        restarted_at: None,
        involved: None,
        message: String::new(),
    }
}

fn event(ns: &str, name: &str, about_kind: ResourceType, about: &str, msg: &str) -> ResourceObject {
    ResourceObject {
        kind: ResourceType::Event,
        namespace: String::from(ns),
        name: String::from(name),
        replicas: 0,
        restarted_at: None,
        involved: Some(ObjectRef { kind: about_kind, name: String::from(about) }),
        message: String::from(msg),
    }
}

#[test]
fn delete_event_is_unsupported_for_any_namespace_and_name() {
    let mut cluster = ClusterModel::new();
    cluster.add_object(event("ns1", "ev1", ResourceType::Pod, "p1", "boom"));
    for (ns, name) in [("ns1", "ev1"), ("other", "x"), ("", "")] {
        match cluster.delete(ResourceType::Event, ns, name) {
            Err(OpError::Unsupported) => {}
            other => panic!("expected Unsupported, got {:?}", other),
        }
    }
    assert_eq!(cluster.objects.len(), 1);
    assert_eq!(cluster.api_calls, 0);
}

#[test]
fn scale_pod_is_unsupported_without_any_call() {
    let mut cluster = ClusterModel::new();
    cluster.add_object(obj(ResourceType::Pod, "ns1", "p1", 1));
    match cluster.scale(ResourceType::Pod, "ns1", "p1", 1, 2) {
        Err(OpError::Unsupported) => {}
        other => panic!("expected Unsupported, got {:?}", other),
    }
    assert_eq!(cluster.api_calls, 0, "a capability violation must not reach the network");
    assert_eq!(cluster.objects[0].replicas, 1);
}

#[test]
fn scale_with_stale_current_count_conflicts_and_leaves_fixture_unchanged() {
    let mut cluster = ClusterModel::new();
    cluster.add_object(obj(ResourceType::Deployment, "ns1", "web", 4));
    match cluster.scale(ResourceType::Deployment, "ns1", "web", 3, 5) {
        Err(OpError::Conflict) => {}
        other => panic!("expected Conflict, got {:?}", other),
    }
    assert_eq!(cluster.objects[0].replicas, 4, "a conflicting scale must not touch the object");
    assert_eq!(cluster.api_calls, 1, "the conditional write was attempted");
}

#[test]
fn scale_with_matching_current_count_applies() {
    let mut cluster = ClusterModel::new();
    cluster.add_object(obj(ResourceType::Deployment, "ns1", "web", 3));
    cluster.scale(ResourceType::Deployment, "ns1", "web", 3, 5).unwrap();
    assert_eq!(cluster.objects[0].replicas, 5);
}

#[test]
fn scale_missing_object_is_not_found() {
    let mut cluster = ClusterModel::new();
    match cluster.scale(ResourceType::StatefulSet, "ns1", "db", 1, 2) {
        Err(OpError::NotFound) => {}
        other => panic!("expected NotFound, got {:?}", other),
    }
}

#[test]
fn get_wraps_the_addressed_object() {
    let mut cluster = ClusterModel::new();
    cluster.add_object(obj(ResourceType::ConfigMap, "ns1", "cm", 0));
    cluster.add_object(obj(ResourceType::ConfigMap, "ns2", "cm", 0));
    let env = cluster.get(ResourceType::ConfigMap, "ns2", "cm").unwrap();
    assert_eq!(env.tag(), ResourceType::ConfigMap);
    let o = env.open_envelope();
    assert_eq!(o.namespace, "ns2");
    assert_eq!(o.name, "cm");
}

#[test]
fn get_missing_object_is_not_found() {
    let mut cluster = ClusterModel::new();
    match cluster.get(ResourceType::Secret, "ns1", "nope") {
        Err(OpError::NotFound) => {}
        Err(e) => panic!("expected NotFound, got {:?}", e),
        Ok(_) => panic!("expected NotFound, got an envelope"),
    }
    assert_eq!(cluster.api_calls, 1);
}

#[test]
fn delete_removes_exactly_the_addressed_object() {
    let mut cluster = ClusterModel::new();
    cluster.add_object(obj(ResourceType::Job, "ns1", "a", 0));
    cluster.add_object(obj(ResourceType::Job, "ns1", "b", 0));
    cluster.delete(ResourceType::Job, "ns1", "a").unwrap();
    assert_eq!(cluster.objects.len(), 1);
    assert_eq!(cluster.objects[0].name, "b");
    match cluster.delete(ResourceType::Job, "ns1", "a") {
        Err(OpError::NotFound) => {}
        other => panic!("expected NotFound, got {:?}", other),
    }
}

#[test]
fn restart_stamps_and_repeats_without_error() {
    let mut cluster = ClusterModel::new();
    cluster.add_object(obj(ResourceType::DaemonSet, "ns1", "agent", 0));
    cluster.restart(ResourceType::DaemonSet, "ns1", "agent", String::from("t1")).unwrap();
    assert_eq!(cluster.objects[0].restarted_at.as_deref(), Some("t1"));
    cluster.restart(ResourceType::DaemonSet, "ns1", "agent", String::from("t2")).unwrap();
    assert_eq!(cluster.objects[0].restarted_at.as_deref(), Some("t2"));
}

#[test]
fn restart_unsupported_kind_fails_fast() {
    let mut cluster = ClusterModel::new();
    cluster.add_object(obj(ResourceType::Pod, "ns1", "p", 0));
    match cluster.restart(ResourceType::Pod, "ns1", "p", String::from("t")) {
        Err(OpError::Unsupported) => {}
        other => panic!("expected Unsupported, got {:?}", other),
    }
    assert_eq!(cluster.api_calls, 0);
}

#[test]
fn list_node_ignores_the_namespace_selector() {
    let mut cluster = ClusterModel::new();
    cluster.add_object(obj(ResourceType::Node, "", "n1", 0));
    cluster.add_object(obj(ResourceType::Pod, "ns1", "p1", 0));
    cluster.add_object(obj(ResourceType::Node, "", "n2", 0));
    let named = cluster.list(ResourceType::Node, &NamespaceSelector::Named(String::from("ns1")));
    let all = cluster.list(ResourceType::Node, &NamespaceSelector::All);
    assert_eq!(named.len(), 2);
    assert_eq!(all.len(), 2);
    for (a, b) in named.iter().zip(all.iter()) {
        assert_eq!(a.tag(), ResourceType::Node);
        assert_eq!(a.payload().name, b.payload().name);
    }
    assert_eq!(named[0].payload().name, "n1");
    assert_eq!(named[1].payload().name, "n2");
}

#[test]
fn list_namespaced_kind_filters_by_namespace() {
    let mut cluster = ClusterModel::new();
    cluster.add_object(obj(ResourceType::Pod, "ns1", "a", 0));
    cluster.add_object(obj(ResourceType::Pod, "ns2", "b", 0));
    cluster.add_object(obj(ResourceType::Service, "ns1", "s", 0));
    let one = cluster.list(ResourceType::Pod, &NamespaceSelector::Named(String::from("ns1")));
    assert_eq!(one.len(), 1);
    assert_eq!(one[0].payload().name, "a");
    let both = cluster.list(ResourceType::Pod, &NamespaceSelector::All);
    assert_eq!(both.len(), 2);
}

#[test]
fn list_events_filters_by_involved_object() {
    let mut cluster = ClusterModel::new();
    cluster.add_object(obj(ResourceType::Pod, "ns1", "p1", 0));
    cluster.add_object(event("ns1", "ev1", ResourceType::Pod, "p1", "pulled"));
    cluster.add_object(event("ns1", "ev2", ResourceType::Pod, "other", "failed"));
    cluster.add_object(event("ns2", "ev3", ResourceType::Pod, "p1", "elsewhere"));
    let events = cluster
        .list_events(
            ResourceType::Pod,
            &NamespaceSelector::Named(String::from("ns1")),
            "p1",
        )
        .unwrap();
    assert_eq!(events.len(), 1);
    assert_eq!(events[0].message, "pulled");
}

#[test]
fn list_events_all_namespaces_is_invalid_for_namespaced_kinds() {
    let mut cluster = ClusterModel::new();
    match cluster.list_events(ResourceType::Pod, &NamespaceSelector::All, "p1") {
        Err(OpError::InvalidArgument) => {}
        other => panic!("expected InvalidArgument, got {:?}", other),
    }
    assert_eq!(cluster.api_calls, 0);
}

#[test]
fn list_events_for_cluster_kind_uses_the_empty_namespace() {
    let mut cluster = ClusterModel::new();
    cluster.add_object(event("", "ev1", ResourceType::Node, "n1", "cordoned"));
    cluster.add_object(event("ns1", "ev2", ResourceType::Node, "n1", "wrong-ns"));
    let events = cluster
        .list_events(ResourceType::Node, &NamespaceSelector::All, "n1")
        .unwrap();
    assert_eq!(events.len(), 1);
    assert_eq!(events[0].message, "cordoned");
}

#[test]
fn envelope_round_trip_preserves_object_and_tag() {
    let original = obj(ResourceType::Deployment, "ns1", "web", 3);
    let envelope = ResourceEnvelope::wrap(original);
    assert_eq!(envelope.tag(), ResourceType::Deployment);
    let back = envelope.open_envelope();
    assert_eq!(back.kind, ResourceType::Deployment);
    assert_eq!(back.namespace, "ns1");
    assert_eq!(back.name, "web");
    assert_eq!(back.replicas, 3);
    assert!(back.restarted_at.is_none());
    assert!(back.involved.is_none());
    assert_eq!(back.message, "");
}

#[test]
fn get_cluster_scoped_object_ignores_the_namespace() {
    let mut cluster = ClusterModel::new();
    cluster.add_object(obj(ResourceType::Node, "", "n1", 0));
    let env = cluster.get(ResourceType::Node, "whatever", "n1").unwrap();
    assert_eq!(env.tag(), ResourceType::Node);
    assert_eq!(env.payload().name, "n1");
}

#[test]
fn selector_parse_reads_the_boundary_convention() {
    assert!(matches!(NamespaceSelector::parse("all"), NamespaceSelector::All));
    match NamespaceSelector::parse("ns1") {
        NamespaceSelector::Named(ns) => assert_eq!(ns, "ns1"),
        NamespaceSelector::All => panic!("expected Named"),
    }
}
