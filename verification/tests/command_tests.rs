use kubeintel::command::{build_command, quote_arg};
use kubeintel::context::ClusterContext;
use kubeintel::errors::OpError;
use kubeintel::ops::{
    cluster_info_command, cordon_command, debug_node_command, debug_pod_command, drain_command,
    events_command, log_options, logs_command, node_pods_selector, pod_shell_command,
    restart_patch, scale_command, uncordon_command,
};
use kubeintel::registry::ResourceType;
use kubeintel::text::{str_eq, u32_to_string};

fn ctx() -> ClusterContext {
    ClusterContext::new(String::from("/a/b"), String::from("ctx"))
}

#[test]
fn builder_orders_tokens_deterministically() {
    let cmd = build_command(
        &ctx(),
        "scale",
        &vec![String::from("deployment/x")],
        &Some(String::from("ns")),
        &vec![String::from("--current-replicas=1"), String::from("--replicas=2")],
    );
    assert_eq!(
        cmd.as_line(),
        "--kubeconfig /a/b --context ctx scale deployment/x -n ns --current-replicas=1 --replicas=2"
    );
}

#[test]
fn builder_quotes_unsafe_arguments() {
    let cmd = build_command(
        &ClusterContext::new(String::from("/my configs/kube"), String::from("ctx")),
        "get",
        &vec![String::from("pod"), String::from("a b")],
        &None,
        &vec![],
    );
    assert_eq!(
        cmd.as_line(),
        "--kubeconfig '/my configs/kube' --context ctx get pod 'a b'"
    );
}

#[test]
fn quoting_passes_safe_tokens_and_neutralizes_the_rest() {
    assert_eq!(quote_arg("plain-token_1.2/x=y:z"), "plain-token_1.2/x=y:z");
    assert_eq!(quote_arg("a b"), "'a b'");
    assert_eq!(quote_arg(""), "''");
    assert_eq!(quote_arg("a'b"), "'a'\\''b'");
    assert_eq!(quote_arg("$(rm -rf)"), "'$(rm -rf)'");
    assert_eq!(quote_arg("a;b|c"), "'a;b|c'");
}

#[test]
fn decimal_formatting_is_exact() {
    assert_eq!(u32_to_string(0), "0");
    assert_eq!(u32_to_string(7), "7");
    assert_eq!(u32_to_string(42), "42");
    assert_eq!(u32_to_string(4294967295), "4294967295");
}

#[test]
fn str_eq_compares_by_characters() {
    assert!(str_eq("abc", "abc"));
    assert!(!str_eq("abc", "abd"));
    assert!(!str_eq("abc", "abcd"));
    assert!(str_eq("", ""));
}

#[test]
fn scale_command_line_matches_the_wire_shape() {
    let cmd = scale_command(&ctx(), ResourceType::Deployment, "ns", "x", 1, 2).unwrap();
    assert_eq!(
        cmd.as_line(),
        "--kubeconfig /a/b --context ctx scale deployment/x -n ns --current-replicas=1 --replicas=2"
    );
}

#[test]
fn scale_command_rejects_unscalable_kinds() {
    match scale_command(&ctx(), ResourceType::Pod, "ns", "x", 1, 2) {
        Err(OpError::Unsupported) => {}
        Err(e) => panic!("expected Unsupported, got {:?}", e),
        Ok(_) => panic!("expected Unsupported, got a command"),
    }
}

#[test]
fn restart_patch_stamps_the_template_annotation() {
    let body = restart_patch(ResourceType::Deployment, "2024-01-01T00:00:00Z").unwrap();
    assert_eq!(
        body,
        "{\"spec\":{\"template\":{\"metadata\":{\"annotations\":{\"kube.kubernetes.io/restartedAt\":\"2024-01-01T00:00:00Z\"}}}}}"
    );
}

#[test]
fn restart_patch_escapes_json_metacharacters() {
    let body = restart_patch(ResourceType::StatefulSet, "a\"b\\c").unwrap();
    assert_eq!(
        body,
        "{\"spec\":{\"template\":{\"metadata\":{\"annotations\":{\"kube.kubernetes.io/restartedAt\":\"a\\\"b\\\\c\"}}}}}"
    );
}

#[test]
fn restart_patch_rejects_unrestartable_kinds() {
    match restart_patch(ResourceType::Secret, "t") {
        Err(OpError::Unsupported) => {}
        Err(e) => panic!("expected Unsupported, got {:?}", e),
        Ok(_) => panic!("expected Unsupported, got a patch"),
    }
}

#[test]
fn events_command_names_one_namespace() {
    let cmd = events_command(&ctx(), ResourceType::Pod, "ns1", "p1");
    assert_eq!(
        cmd.as_line(),
        "--kubeconfig /a/b --context ctx get events -n ns1 --field-selector involvedObject.name=p1,involvedObject.kind=Pod"
    );
}

#[test]
fn events_command_with_empty_namespace_spans_all() {
    let cmd = events_command(&ctx(), ResourceType::Deployment, "", "web");
    assert_eq!(
        cmd.as_line(),
        "--kubeconfig /a/b --context ctx get events --all-namespaces --field-selector involvedObject.name=web,involvedObject.kind=Deployment"
    );
}

#[test]
fn logs_command_for_workloads_follows_all_pods() {
    let cmd = logs_command(&ctx(), ResourceType::Deployment, "ns", "web", &None).unwrap();
    assert_eq!(
        cmd.as_line(),
        "--kubeconfig /a/b --context ctx logs deployment/web -n ns -f --all-pods --all-containers"
    );
}

#[test]
fn logs_command_for_a_pod_takes_the_bare_name_and_container() {
    let cmd = logs_command(&ctx(), ResourceType::Pod, "ns", "p1", &Some(String::from("app")))
        .unwrap();
    assert_eq!(cmd.as_line(), "--kubeconfig /a/b --context ctx logs p1 -n ns -c app");
}

#[test]
fn logs_command_empty_container_means_all_containers() {
    let cmd = logs_command(&ctx(), ResourceType::Job, "ns", "j", &Some(String::new())).unwrap();
    assert_eq!(cmd.as_line(), "--kubeconfig /a/b --context ctx logs job/j -n ns --all-containers");
}

#[test]
fn logs_command_rejects_kinds_without_logs() {
    match logs_command(&ctx(), ResourceType::Service, "ns", "s", &None) {
        Err(OpError::Unsupported) => {}
        Err(e) => panic!("expected Unsupported, got {:?}", e),
        Ok(_) => panic!("expected Unsupported, got a command"),
    }
}

#[test]
fn node_commands_match_the_wire_shape() {
    assert_eq!(
        debug_node_command(&ctx(), "n1", "busybox").as_line(),
        "--kubeconfig /a/b --context ctx debug node/n1 -it --image busybox"
    );
    assert_eq!(
        cordon_command(&ctx(), "n1").as_line(),
        "--kubeconfig /a/b --context ctx cordon n1"
    );
    assert_eq!(
        uncordon_command(&ctx(), "n1").as_line(),
        "--kubeconfig /a/b --context ctx uncordon n1"
    );
    assert_eq!(
        drain_command(&ctx(), "n1").as_line(),
        "--kubeconfig /a/b --context ctx drain n1 --ignore-daemonsets"
    );
}

#[test]
fn pod_commands_match_the_wire_shape() {
    assert_eq!(
        debug_pod_command(&ctx(), "ns", "p1", "busybox", &None).as_line(),
        "--kubeconfig /a/b --context ctx debug p1 -n ns -it --image busybox"
    );
    assert_eq!(
        debug_pod_command(&ctx(), "ns", "p1", "busybox", &Some(String::from("app"))).as_line(),
        "--kubeconfig /a/b --context ctx debug p1 -n ns -it --image busybox --target app"
    );
    assert_eq!(
        debug_pod_command(&ctx(), "ns", "p1", "busybox", &Some(String::new())).as_line(),
        "--kubeconfig /a/b --context ctx debug p1 -n ns -it --image busybox"
    );
    assert_eq!(
        pod_shell_command(&ctx(), "ns", "p1", "app", "/bin/sh").as_line(),
        "--kubeconfig /a/b --context ctx exec p1 -n ns -it --container app -- /bin/sh"
    );
}

#[test]
fn cluster_info_command_matches_the_wire_shape() {
    assert_eq!(
        cluster_info_command(&ctx()).as_line(),
        "--kubeconfig /a/b --context ctx cluster-info"
    );
}

#[test]
fn scale_command_quotes_an_unsafe_name() {
    let cmd = scale_command(&ctx(), ResourceType::StatefulSet, "ns", "a b", 10, 100).unwrap();
    assert_eq!(
        cmd.as_line(),
        "--kubeconfig /a/b --context ctx scale 'statefulset/a b' -n ns --current-replicas=10 --replicas=100"
    );
}

#[test]
fn node_pods_selector_names_the_node() {
    assert_eq!(node_pods_selector("worker-1"), "spec.nodeName=worker-1");
}

#[test]
fn log_options_default_to_fifty_lines_and_100_kib() {
    assert_eq!(log_options(&None, &None), (50, 102400));
    assert_eq!(log_options(&Some(10), &Some(2048)), (10, 2048));
    assert_eq!(log_options(&Some(0), &None), (0, 102400));
}
