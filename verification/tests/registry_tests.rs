use kubeintel::errors::OpError;
use kubeintel::registry::{lookup, ResourceType, Scope};

fn all_kinds() -> Vec<ResourceType> {
    vec![
        ResourceType::Pod,
        ResourceType::Deployment,
        ResourceType::DaemonSet,
        ResourceType::StatefulSet,
        ResourceType::Job,
        ResourceType::CronJob,
        ResourceType::Service,
        ResourceType::Node,
        ResourceType::ConfigMap,
        ResourceType::Secret,
        ResourceType::ServiceAccount,
        ResourceType::Role,
        ResourceType::RoleBinding,
        ResourceType::ClusterRole,
        ResourceType::ClusterRoleBinding,
        ResourceType::PersistentVolume,
        ResourceType::PersistentVolumeClaim,
        ResourceType::Event,
    ]
}

#[test]
fn lookup_is_total_and_scale_is_workload_only() {
    for kind in all_kinds() {
        let meta = lookup(kind);
        assert!(!meta.kind_name.is_empty());
        if meta.supports_scale {
            assert!(meta.kind_name == "Deployment" || meta.kind_name == "StatefulSet");
        }
    }
}

#[test]
fn scale_implies_namespaced() {
    for kind in all_kinds() {
        let meta = lookup(kind);
        if meta.supports_scale {
            assert_eq!(meta.scope, Scope::Namespaced);
        }
    }
}

#[test]
fn restart_is_template_workloads_exactly() {
    for kind in all_kinds() {
        let meta = lookup(kind);
        let expected = matches!(
            kind,
            ResourceType::Deployment | ResourceType::StatefulSet | ResourceType::DaemonSet
        );
        assert_eq!(meta.supports_restart, expected);
    }
}

#[test]
fn delete_is_everything_but_event() {
    for kind in all_kinds() {
        let meta = lookup(kind);
        assert_eq!(meta.supports_delete, !matches!(kind, ResourceType::Event));
    }
}

#[test]
fn logs_are_pod_and_workload_kinds() {
    for kind in all_kinds() {
        let meta = lookup(kind);
        let expected = matches!(
            kind,
            ResourceType::Pod
                | ResourceType::Deployment
                | ResourceType::StatefulSet
                | ResourceType::DaemonSet
                | ResourceType::Job
                | ResourceType::CronJob
        );
        assert_eq!(meta.supports_logs, expected);
    }
}

#[test]
fn cluster_scoped_kinds_are_exactly_four() {
    for kind in all_kinds() {
        let meta = lookup(kind);
        let expected = matches!(
            kind,
            ResourceType::Node
                | ResourceType::ClusterRole
                | ResourceType::ClusterRoleBinding
                | ResourceType::PersistentVolume
        );
        assert_eq!(meta.scope == Scope::Cluster, expected);
    }
}

#[test]
fn kind_names_and_cli_tokens() {
    assert_eq!(lookup(ResourceType::Pod).kind_name, "Pod");
    assert_eq!(lookup(ResourceType::PersistentVolumeClaim).kind_name, "PersistentVolumeClaim");
    assert_eq!(ResourceType::Deployment.as_str(), "deployment");
    assert_eq!(ResourceType::ClusterRoleBinding.as_str(), "clusterrolebinding");
    assert_eq!(ResourceType::Event.kind(), "Event");
}

#[test]
fn parse_reads_every_kind_name_back() {
    for kind in all_kinds() {
        let name = lookup(kind).kind_name;
        let parsed = ResourceType::parse(name.as_str()).unwrap();
        assert_eq!(lookup(parsed).kind_name, name);
    }
}

#[test]
fn parse_rejects_unknown_tokens() {
    for bad in ["", "pod", "Pods", "deployment", "Unknown", "POD"] {
        match ResourceType::parse(bad) {
            Err(OpError::InvalidArgument) => {}
            other => panic!("expected InvalidArgument, got {:?}", other),
        }
    }
}

#[test]
fn api_failures_sort_into_the_taxonomy() {
    assert!(matches!(
        OpError::classify_api_failure(Some(404), String::from("gone")),
        OpError::NotFound
    ));
    assert!(matches!(
        OpError::classify_api_failure(Some(409), String::from("raced")),
        OpError::Conflict
    ));
    match OpError::classify_api_failure(Some(500), String::from("boom")) {
        OpError::ApiError(m) => assert_eq!(m, "boom"),
        other => panic!("expected ApiError, got {:?}", other),
    }
    match OpError::classify_api_failure(None, String::from("connection refused")) {
        OpError::ApiError(m) => assert_eq!(m, "connection refused"),
        other => panic!("expected ApiError, got {:?}", other),
    }
}

#[test]
fn error_codes_are_stable() {
    assert_eq!(OpError::NotFound.code(), "not-found");
    assert_eq!(OpError::Conflict.code(), "conflict");
    assert_eq!(OpError::Unsupported.code(), "unsupported");
    assert_eq!(OpError::InvalidArgument.code(), "invalid-argument");
    assert_eq!(OpError::NoTerminalFound.code(), "no-terminal-found");
    assert_eq!(OpError::ConfigError(String::from("x")).code(), "config-error");
    assert_eq!(OpError::ApiError(String::from("x")).code(), "api-error");
    assert_eq!(OpError::ProcessSpawnError(String::from("x")).code(), "process-spawn-error");
}
