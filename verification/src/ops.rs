//! The operation plans: each mutating or interactive action becomes one
//! command line (or, for restart, one merge-patch document) built from plain
//! values. Capability violations are rejected here, before anything reaches
//! the network or a terminal.

use vstd::prelude::*;
use vstd::string::StringExecFns;
use crate::command::{build_command, spec_command_line, spec_opt_view, TerminalCommand};
use crate::context::ClusterContext;
use crate::errors::OpError;
use crate::gateway::{spec_effective_event_ns, NamespaceSelector};
use crate::registry::{
    ResourceType, Scope, spec_cli_name, spec_kind_name, spec_supports_logs, spec_supports_restart,
    spec_supports_scale,
};
use crate::text::{push_char, spec_decimal, u32_to_string};

verus! {

/// The command line that scales one object, addressed as a single
/// `kind/name` target, with the optimistic-concurrency precondition carried
/// as `--current-replicas`: the cluster CLI applies the scale only while the
/// live replica count still equals it.
pub open spec fn spec_scale_command(
    cfg: Seq<char>,
    ctx: Seq<char>,
    kind: ResourceType,
    ns: Seq<char>,
    name: Seq<char>,
    current: u32,
    desired: u32,
) -> Seq<char> {
    spec_command_line(
        cfg,
        ctx,
        "scale"@,
        seq![spec_cli_name(kind) + "/"@ + name],
        Some(ns),
        seq![
            "--current-replicas="@ + spec_decimal(current as int),
            "--replicas="@ + spec_decimal(desired as int),
        ],
    )
}

/// Plan a scale: kinds that do not support scaling fail with `Unsupported`
/// before any command is built or any call attempted.
pub fn scale_command(
    ctx: &ClusterContext,
    kind: ResourceType,
    ns: &str,
    name: &str,
    current: u32,
    desired: u32,
) -> (r: Result<TerminalCommand, OpError>)
    ensures
        spec_supports_scale(kind) ==> (r matches Ok(cmd) && cmd@ == spec_scale_command(
            ctx.config_locator@,
            ctx.context_name@,
            kind,
            ns@,
            name@,
            current,
            desired,
        )),
        !spec_supports_scale(kind) ==> (r matches Err(e) && e is Unsupported),
{
    if !kind.supports_scale() {
        return Err(OpError::Unsupported);
    }
    let mut positionals: Vec<String> = Vec::new();
    positionals.push(kind.as_str().to_owned().concat("/").concat(name));
    let namespace: Option<String> = Some(ns.to_owned());
    let mut flags: Vec<String> = Vec::new();
    flags.push("--current-replicas=".to_owned().concat(u32_to_string(current).as_str()));
    flags.push("--replicas=".to_owned().concat(u32_to_string(desired).as_str()));
    let cmd = build_command(ctx, "scale", &positionals, &namespace, &flags);
    proof {
        assert(positionals.deep_view() =~= seq![spec_cli_name(kind) + "/"@ + name@]);
        assert(flags.deep_view() =~= seq![
            "--current-replicas="@ + spec_decimal(current as int),
            "--replicas="@ + spec_decimal(desired as int),
        ]);
    }
    Ok(cmd)
}

/// How one character is written inside a JSON string literal.
pub open spec fn spec_json_escape_char(c: char) -> Seq<char> {
    if c == '"' {
        seq!['\\', '"']
    } else if c == '\\' {
        seq!['\\', '\\']
    } else {
        seq![c]
    }
}

/// A string rendered for embedding in a JSON string literal.
pub open spec fn spec_json_escaped(s: Seq<char>) -> Seq<char>
    decreases s.len(),
{
    if s.len() == 0 {
        Seq::empty()
    } else {
        spec_json_escaped(s.drop_last()) + spec_json_escape_char(s.last())
    }
}

/// The merge-patch document that stamps a restart annotation on an object's
/// pod template. The workload controller reacts to the changed template with
/// its own rolling update; the gateway only writes the stamp.
pub open spec fn spec_restart_patch(stamp: Seq<char>) -> Seq<char> {
    "{\"spec\":{\"template\":{\"metadata\":{\"annotations\":{\"kube.kubernetes.io/restartedAt\":\""@
        + spec_json_escaped(stamp) + "\"}}}}}"@
}

fn json_escape_into(r: &mut String, s: &str)
    ensures
        final(r)@ == old(r)@ + spec_json_escaped(s@),
{
    let n = vstd::string::StrSliceExecFns::unicode_len(s);
    let mut i: usize = 0;
    while i < n
        invariant
            n == s@.len(),
            i <= n,
            r@ == old(r)@ + spec_json_escaped(s@.take(i as int)),
        decreases n - i,
    {
        let c = vstd::string::StrSliceExecFns::get_char(s, i);
        if c == '"' {
            push_char(r, '\\');
            push_char(r, '"');
        } else if c == '\\' {
            push_char(r, '\\');
            push_char(r, '\\');
        } else {
            push_char(r, c);
        }
        proof {
            assert(s@.take(i + 1).drop_last() =~= s@.take(i as int));
            assert(s@.take(i + 1).last() == s@[i as int]);
            assert(r@ =~= old(r)@ + spec_json_escaped(s@.take(i + 1)));
        }
        i = i + 1;
    }
    proof {
        assert(s@.take(n as int) =~= s@);
    }
}

/// Plan a rolling restart: kinds that do not support restarting fail with
/// `Unsupported` before any patch is built or any call attempted; otherwise
/// the merge-patch document stamping `stamp` is returned.
pub fn restart_patch(kind: ResourceType, stamp: &str) -> (r: Result<String, OpError>)
    ensures
        spec_supports_restart(kind) ==> (r matches Ok(body) && body@ == spec_restart_patch(
            stamp@,
        )),
        !spec_supports_restart(kind) ==> (r matches Err(e) && e is Unsupported),
{
    if !kind.supports_restart() {
        return Err(OpError::Unsupported);
    }
    let mut body: String =
        "{\"spec\":{\"template\":{\"metadata\":{\"annotations\":{\"kube.kubernetes.io/restartedAt\":\"".to_owned();
    json_escape_into(&mut body, stamp);
    let tail: String = "\"}}}}}".to_owned();
    let body = body.concat(tail.as_str());
    Ok(body)
}

/// The flags of an events query: all namespaces when none is named, and the
/// field selector matching events by involved-object name and kind.
pub open spec fn spec_event_flags(kind: ResourceType, ns: Seq<char>, name: Seq<char>) -> Seq<
    Seq<char>,
> {
    (if ns.len() == 0 {
        seq!["--all-namespaces"@]
    } else {
        Seq::empty()
    }) + seq![
        "--field-selector"@,
        "involvedObject.name="@ + name + ",involvedObject.kind="@ + spec_kind_name(kind),
    ]
}

/// The command line that shows the events about one object in a terminal.
/// An empty namespace means all namespaces.
pub open spec fn spec_events_command(
    cfg: Seq<char>,
    ctx: Seq<char>,
    kind: ResourceType,
    ns: Seq<char>,
    name: Seq<char>,
) -> Seq<char> {
    spec_command_line(
        cfg,
        ctx,
        "get"@,
        seq!["events"@],
        if ns.len() == 0 {
            None
        } else {
            Some(ns)
        },
        spec_event_flags(kind, ns, name),
    )
}

/// Build the events-in-terminal command for one object.
pub fn events_command(ctx: &ClusterContext, kind: ResourceType, ns: &str, name: &str) -> (r:
    TerminalCommand)
    ensures
        r@ == spec_events_command(ctx.config_locator@, ctx.context_name@, kind, ns@, name@),
{
    let mut positionals: Vec<String> = Vec::new();
    positionals.push("events".to_owned());
    let selector: String = "involvedObject.name=".to_owned().concat(name).concat(
        ",involvedObject.kind=",
    ).concat(kind.kind().as_str());
    let mut flags: Vec<String> = Vec::new();
    let namespace: Option<String> = if ns.is_empty() {
        flags.push("--all-namespaces".to_owned());
        None
    } else {
        Some(ns.to_owned())
    };
    flags.push("--field-selector".to_owned());
    flags.push(selector);
    let cmd = build_command(ctx, "get", &positionals, &namespace, &flags);
    proof {
        assert(positionals.deep_view() =~= seq!["events"@]);
        assert(flags.deep_view() =~= spec_event_flags(kind, ns@, name@));
    }
    cmd
}

/// The field selector an event query sends: events are matched by the
/// involved object's name and API kind name.
pub open spec fn spec_event_selector(kind: ResourceType, name: Seq<char>) -> Seq<char> {
    "involvedObject.name="@ + name + ",involvedObject.kind="@ + spec_kind_name(kind)
}

/// Plan a live event query: the namespace to query in and the field selector
/// to send. A namespaced kind needs one namespace, so the all-namespaces
/// selector fails with `InvalidArgument` before any call; events about
/// cluster-scoped objects are looked up in the empty namespace.
pub fn event_query(kind: ResourceType, sel: &NamespaceSelector, name: &str) -> (r: Result<
    (String, String),
    OpError,
>)
    ensures
        match spec_effective_event_ns(kind, *sel) {
            None => r matches Err(e) && e is InvalidArgument,
            Some(ens) => r matches Ok(q) && q.0@ == ens && q.1@ == spec_event_selector(
                kind,
                name@,
            ),
        },
{
    let ns: String = match kind.scope() {
        Scope::Cluster => String::new(),
        Scope::Namespaced => match sel {
            NamespaceSelector::All => {
                return Err(OpError::InvalidArgument);
            },
            NamespaceSelector::Named(n) => n.clone(),
        },
    };
    let selector: String = "involvedObject.name=".to_owned().concat(name).concat(
        ",involvedObject.kind=",
    ).concat(kind.kind().as_str());
    proof {
        reveal_strlit("");
        assert(ns@ =~= spec_effective_event_ns(kind, *sel)->Some_0);
    }
    Ok((ns, selector))
}

/// The field selector that lists the pods scheduled on one node.
pub open spec fn spec_node_pods_selector(node: Seq<char>) -> Seq<char> {
    "spec.nodeName="@ + node
}

/// Build the pods-on-node field selector.
pub fn node_pods_selector(node: &str) -> (r: String)
    ensures
        r@ == spec_node_pods_selector(node@),
{
    "spec.nodeName=".to_owned().concat(node)
}

/// The positional target of a logs command: the bare name for a pod, the
/// `kind/name` form for the workload kinds.
pub open spec fn spec_logs_target(kind: ResourceType, name: Seq<char>) -> Seq<char> {
    if kind is Pod {
        name
    } else {
        spec_cli_name(kind) + "/"@ + name
    }
}

/// The follow flags of a logs command: the template-driven workload kinds
/// stream from all their pods.
pub open spec fn spec_logs_flags(kind: ResourceType) -> Seq<Seq<char>> {
    if kind is Deployment || kind is StatefulSet || kind is DaemonSet {
        seq!["-f"@, "--all-pods"@]
    } else {
        Seq::empty()
    }
}

/// The container refinement of a logs command: a named container, or all of
/// them when none (or an empty name) is given.
pub open spec fn spec_container_flags(container: Option<Seq<char>>) -> Seq<Seq<char>> {
    match container {
        None => seq!["--all-containers"@],
        Some(c) => if c.len() == 0 {
            seq!["--all-containers"@]
        } else {
            seq!["-c"@, c]
        },
    }
}

/// The command line that streams one object's logs in a terminal.
pub open spec fn spec_logs_command(
    cfg: Seq<char>,
    ctx: Seq<char>,
    kind: ResourceType,
    ns: Seq<char>,
    name: Seq<char>,
    container: Option<Seq<char>>,
) -> Seq<char> {
    spec_command_line(
        cfg,
        ctx,
        "logs"@,
        seq![spec_logs_target(kind, name)],
        Some(ns),
        spec_logs_flags(kind) + spec_container_flags(container),
    )
}

/// Plan a logs-in-terminal command: kinds without log streaming fail with
/// `Unsupported` before any command is built.
pub fn logs_command(
    ctx: &ClusterContext,
    kind: ResourceType,
    ns: &str,
    name: &str,
    container: &Option<String>,
) -> (r: Result<TerminalCommand, OpError>)
    ensures
        spec_supports_logs(kind) ==> (r matches Ok(cmd) && cmd@ == spec_logs_command(
            ctx.config_locator@,
            ctx.context_name@,
            kind,
            ns@,
            name@,
            spec_opt_view(*container),
        )),
        !spec_supports_logs(kind) ==> (r matches Err(e) && e is Unsupported),
{
    if !kind.supports_logs() {
        return Err(OpError::Unsupported);
    }
    let target: String = if matches!(kind, ResourceType::Pod) {
        name.to_owned()
    } else {
        kind.as_str().to_owned().concat("/").concat(name)
    };
    let mut positionals: Vec<String> = Vec::new();
    positionals.push(target);
    let namespace: Option<String> = Some(ns.to_owned());
    let mut flags: Vec<String> = Vec::new();
    if kind.supports_restart() {
        flags.push("-f".to_owned());
        flags.push("--all-pods".to_owned());
    }
    match container {
        None => flags.push("--all-containers".to_owned()),
        Some(c) => {
            if c.as_str().is_empty() {
                flags.push("--all-containers".to_owned());
            } else {
                flags.push("-c".to_owned());
                flags.push(c.clone());
            }
        },
    }
    let cmd = build_command(ctx, "logs", &positionals, &namespace, &flags);
    proof {
        assert(positionals.deep_view() =~= seq![spec_logs_target(kind, name@)]);
        assert(flags.deep_view() =~= spec_logs_flags(kind) + spec_container_flags(
            spec_opt_view(*container),
        ));
    }
    Ok(cmd)
}

/// The command line that opens an ephemeral debug container against a node.
pub open spec fn spec_debug_node_command(
    cfg: Seq<char>,
    ctx: Seq<char>,
    node: Seq<char>,
    image: Seq<char>,
) -> Seq<char> {
    spec_command_line(
        cfg,
        ctx,
        "debug"@,
        seq!["node/"@ + node],
        None,
        seq!["-it"@, "--image"@, image],
    )
}

/// Build the node-debug command.
pub fn debug_node_command(ctx: &ClusterContext, node: &str, image: &str) -> (r: TerminalCommand)
    ensures
        r@ == spec_debug_node_command(ctx.config_locator@, ctx.context_name@, node@, image@),
{
    let mut positionals: Vec<String> = Vec::new();
    positionals.push("node/".to_owned().concat(node));
    let namespace: Option<String> = None;
    let mut flags: Vec<String> = Vec::new();
    flags.push("-it".to_owned());
    flags.push("--image".to_owned());
    flags.push(image.to_owned());
    let cmd = build_command(ctx, "debug", &positionals, &namespace, &flags);
    proof {
        assert(positionals.deep_view() =~= seq!["node/"@ + node@]);
        assert(flags.deep_view() =~= seq!["-it"@, "--image"@, image@]);
    }
    cmd
}

/// The command line of a plain node verb — cordon, uncordon, or drain with
/// its extra flags.
pub open spec fn spec_node_verb_command(
    cfg: Seq<char>,
    ctx: Seq<char>,
    verb: Seq<char>,
    node: Seq<char>,
    flags: Seq<Seq<char>>,
) -> Seq<char> {
    spec_command_line(cfg, ctx, verb, seq![node], None, flags)
}

fn node_verb_command(ctx: &ClusterContext, verb: &str, node: &str, flags: Vec<String>) -> (r:
    TerminalCommand)
    ensures
        r@ == spec_node_verb_command(
            ctx.config_locator@,
            ctx.context_name@,
            verb@,
            node@,
            flags.deep_view(),
        ),
{
    let mut positionals: Vec<String> = Vec::new();
    positionals.push(node.to_owned());
    let namespace: Option<String> = None;
    let cmd = build_command(ctx, verb, &positionals, &namespace, &flags);
    proof {
        assert(positionals.deep_view() =~= seq![node@]);
    }
    cmd
}

/// Build the command that cordons a node.
pub fn cordon_command(ctx: &ClusterContext, node: &str) -> (r: TerminalCommand)
    ensures
        r@ == spec_node_verb_command(
            ctx.config_locator@,
            ctx.context_name@,
            "cordon"@,
            node@,
            Seq::empty(),
        ),
{
    let flags: Vec<String> = Vec::new();
    let cmd = node_verb_command(ctx, "cordon", node, flags);
    cmd
}

/// Build the command that uncordons a node.
pub fn uncordon_command(ctx: &ClusterContext, node: &str) -> (r: TerminalCommand)
    ensures
        r@ == spec_node_verb_command(
            ctx.config_locator@,
            ctx.context_name@,
            "uncordon"@,
            node@,
            Seq::empty(),
        ),
{
    let flags: Vec<String> = Vec::new();
    let cmd = node_verb_command(ctx, "uncordon", node, flags);
    cmd
}

/// Build the command that drains a node, leaving daemon-set pods in place.
pub fn drain_command(ctx: &ClusterContext, node: &str) -> (r: TerminalCommand)
    ensures
        r@ == spec_node_verb_command(
            ctx.config_locator@,
            ctx.context_name@,
            "drain"@,
            node@,
            seq!["--ignore-daemonsets"@],
        ),
{
    let mut flags: Vec<String> = Vec::new();
    flags.push("--ignore-daemonsets".to_owned());
    let ghost fview = flags.deep_view();
    let cmd = node_verb_command(ctx, "drain", node, flags);
    proof {
        assert(fview =~= seq!["--ignore-daemonsets"@]);
    }
    cmd
}

/// The debug target refinement: a named target process container, or none
/// when no target (or an empty name) is given.
pub open spec fn spec_target_flags(target: Option<Seq<char>>) -> Seq<Seq<char>> {
    match target {
        None => Seq::empty(),
        Some(t) => if t.len() == 0 {
            Seq::empty()
        } else {
            seq!["--target"@, t]
        },
    }
}

/// The command line that opens an ephemeral debug container against a pod.
pub open spec fn spec_debug_pod_command(
    cfg: Seq<char>,
    ctx: Seq<char>,
    ns: Seq<char>,
    pod: Seq<char>,
    image: Seq<char>,
    target: Option<Seq<char>>,
) -> Seq<char> {
    spec_command_line(
        cfg,
        ctx,
        "debug"@,
        seq![pod],
        Some(ns),
        seq!["-it"@, "--image"@, image] + spec_target_flags(target),
    )
}

/// Build the pod-debug command.
pub fn debug_pod_command(
    ctx: &ClusterContext,
    ns: &str,
    pod: &str,
    image: &str,
    target: &Option<String>,
) -> (r: TerminalCommand)
    ensures
        r@ == spec_debug_pod_command(
            ctx.config_locator@,
            ctx.context_name@,
            ns@,
            pod@,
            image@,
            spec_opt_view(*target),
        ),
{
    let mut positionals: Vec<String> = Vec::new();
    positionals.push(pod.to_owned());
    let namespace: Option<String> = Some(ns.to_owned());
    let mut flags: Vec<String> = Vec::new();
    flags.push("-it".to_owned());
    flags.push("--image".to_owned());
    flags.push(image.to_owned());
    match target {
        None => {},
        Some(t) => {
            if !t.as_str().is_empty() {
                flags.push("--target".to_owned());
                flags.push(t.clone());
            }
        },
    }
    let cmd = build_command(ctx, "debug", &positionals, &namespace, &flags);
    proof {
        assert(positionals.deep_view() =~= seq![pod@]);
        assert(flags.deep_view() =~= seq!["-it"@, "--image"@, image@] + spec_target_flags(
            spec_opt_view(*target),
        ));
    }
    cmd
}

/// The command line that opens an interactive shell in one container of a
/// pod.
pub open spec fn spec_pod_shell_command(
    cfg: Seq<char>,
    ctx: Seq<char>,
    ns: Seq<char>,
    pod: Seq<char>,
    container: Seq<char>,
    shell: Seq<char>,
) -> Seq<char> {
    spec_command_line(
        cfg,
        ctx,
        "exec"@,
        seq![pod],
        Some(ns),
        seq!["-it"@, "--container"@, container, "--"@, shell],
    )
}

/// Build the pod-shell command.
pub fn pod_shell_command(
    ctx: &ClusterContext,
    ns: &str,
    pod: &str,
    container: &str,
    shell: &str,
) -> (r: TerminalCommand)
    ensures
        r@ == spec_pod_shell_command(
            ctx.config_locator@,
            ctx.context_name@,
            ns@,
            pod@,
            container@,
            shell@,
        ),
{
    let mut positionals: Vec<String> = Vec::new();
    positionals.push(pod.to_owned());
    let namespace: Option<String> = Some(ns.to_owned());
    let mut flags: Vec<String> = Vec::new();
    flags.push("-it".to_owned());
    flags.push("--container".to_owned());
    flags.push(container.to_owned());
    flags.push("--".to_owned());
    flags.push(shell.to_owned());
    let cmd = build_command(ctx, "exec", &positionals, &namespace, &flags);
    proof {
        assert(positionals.deep_view() =~= seq![pod@]);
        assert(flags.deep_view() =~= seq!["-it"@, "--container"@, container@, "--"@, shell@]);
    }
    cmd
}

/// The command line that shows the cluster's control-plane endpoints.
pub open spec fn spec_cluster_info_command(cfg: Seq<char>, ctx: Seq<char>) -> Seq<char> {
    spec_command_line(cfg, ctx, "cluster-info"@, Seq::empty(), None, Seq::empty())
}

/// Build the cluster-info command.
pub fn cluster_info_command(ctx: &ClusterContext) -> (r: TerminalCommand)
    ensures
        r@ == spec_cluster_info_command(ctx.config_locator@, ctx.context_name@),
{
    let positionals: Vec<String> = Vec::new();
    let namespace: Option<String> = None;
    let flags: Vec<String> = Vec::new();
    let cmd = build_command(ctx, "cluster-info", &positionals, &namespace, &flags);
    proof {
        assert(positionals.deep_view() =~= Seq::<Seq<char>>::empty());
        assert(flags.deep_view() =~= Seq::<Seq<char>>::empty());
    }
    cmd
}

/// The defaults of a log fetch: the last 50 lines and at most 100 KiB,
/// unless the caller narrows them.
pub fn log_options(tail_lines: &Option<i64>, limit_bytes: &Option<i64>) -> (r: (i64, i64))
    ensures
        r.0 == (match *tail_lines {
            Some(t) => t,
            None => 50,
        }),
        r.1 == (match *limit_bytes {
            Some(l) => l,
            None => 102400,
        }),
{
    let tail: i64 = match tail_lines {
        Some(t) => *t,
        None => 50,
    };
    let limit: i64 = match limit_bytes {
        Some(l) => *l,
        None => 102400,
    };
    (tail, limit)
}

} // verus!
