//! The resource registry: a static table describing every supported resource
//! kind — its API kind name, its scope, and which operations it supports.
//!
//! Every other component resolves scope and capability through this single
//! table, so there is no per-operation branching that could drift out of
//! sync with the kind vocabulary.

use vstd::prelude::*;
use crate::errors::OpError;
use crate::text::str_eq;

verus! {

/// Closed enumeration of the resource kind discriminants the gateway
/// supports. Defined at build time and never extended at run time.
#[derive(Clone, Copy, Debug, PartialEq, Eq, Structural)]
pub enum ResourceType {
    Pod,
    Deployment,
    DaemonSet,
    StatefulSet,
    Job,
    CronJob,
    Service,
    Node,
    ConfigMap,
    Secret,
    ServiceAccount,
    Role,
    RoleBinding,
    ClusterRole,
    ClusterRoleBinding,
    PersistentVolume,
    PersistentVolumeClaim,
    Event,
}

/// Whether a kind's objects are partitioned by namespace or global to the
/// cluster.
#[derive(Clone, Copy, Debug, PartialEq, Eq, Structural)]
pub enum Scope {
    Namespaced,
    Cluster,
}

/// Per-kind record: API kind name, scope, and supported operations.
pub struct ResourceMeta {
    pub kind_name: String,
    pub scope: Scope,
    pub supports_scale: bool,
    pub supports_restart: bool,
    pub supports_delete: bool,
    pub supports_logs: bool,
}

/// The API kind name of a resource type, as it appears on the wire and in
/// event `involvedObject.kind` fields.
pub open spec fn spec_kind_name(t: ResourceType) -> Seq<char> {
    match t {
        ResourceType::Pod => "Pod"@,
        ResourceType::Deployment => "Deployment"@,
        ResourceType::DaemonSet => "DaemonSet"@,
        ResourceType::StatefulSet => "StatefulSet"@,
        ResourceType::Job => "Job"@,
        ResourceType::CronJob => "CronJob"@,
        ResourceType::Service => "Service"@,
        ResourceType::Node => "Node"@,
        ResourceType::ConfigMap => "ConfigMap"@,
        ResourceType::Secret => "Secret"@,
        ResourceType::ServiceAccount => "ServiceAccount"@,
        ResourceType::Role => "Role"@,
        ResourceType::RoleBinding => "RoleBinding"@,
        ResourceType::ClusterRole => "ClusterRole"@,
        ResourceType::ClusterRoleBinding => "ClusterRoleBinding"@,
        ResourceType::PersistentVolume => "PersistentVolume"@,
        ResourceType::PersistentVolumeClaim => "PersistentVolumeClaim"@,
        ResourceType::Event => "Event"@,
    }
}

/// The lower-case token of a resource type, as used on `kubectl` command
/// lines.
pub open spec fn spec_cli_name(t: ResourceType) -> Seq<char> {
    match t {
        ResourceType::Pod => "pod"@,
        ResourceType::Deployment => "deployment"@,
        ResourceType::DaemonSet => "daemonset"@,
        ResourceType::StatefulSet => "statefulset"@,
        ResourceType::Job => "job"@,
        ResourceType::CronJob => "cronjob"@,
        ResourceType::Service => "service"@,
        ResourceType::Node => "node"@,
        ResourceType::ConfigMap => "configmap"@,
        ResourceType::Secret => "secret"@,
        ResourceType::ServiceAccount => "serviceaccount"@,
        ResourceType::Role => "role"@,
        ResourceType::RoleBinding => "rolebinding"@,
        ResourceType::ClusterRole => "clusterrole"@,
        ResourceType::ClusterRoleBinding => "clusterrolebinding"@,
        ResourceType::PersistentVolume => "persistentvolume"@,
        ResourceType::PersistentVolumeClaim => "persistentvolumeclaim"@,
        ResourceType::Event => "event"@,
    }
}

/// Scope of each kind: nodes, cluster roles and bindings, and persistent
/// volumes are cluster-scoped; everything else is namespaced.
pub open spec fn spec_scope(t: ResourceType) -> Scope {
    match t {
        ResourceType::Node => Scope::Cluster,
        ResourceType::ClusterRole => Scope::Cluster,
        ResourceType::ClusterRoleBinding => Scope::Cluster,
        ResourceType::PersistentVolume => Scope::Cluster,
        _ => Scope::Namespaced,
    }
}

/// Only the two workload kinds with a replica count can be scaled.
pub open spec fn spec_supports_scale(t: ResourceType) -> bool {
    t is Deployment || t is StatefulSet
}

/// Only the three template-driven workload kinds can be rolling-restarted.
pub open spec fn spec_supports_restart(t: ResourceType) -> bool {
    t is Deployment || t is StatefulSet || t is DaemonSet
}

/// Every kind can be deleted except events, which the cluster owns.
pub open spec fn spec_supports_delete(t: ResourceType) -> bool {
    !(t is Event)
}

/// Log streaming is offered for pods and the pod-owning workload kinds.
pub open spec fn spec_supports_logs(t: ResourceType) -> bool {
    t is Pod || t is Deployment || t is StatefulSet || t is DaemonSet || t is Job
        || t is CronJob
}

impl ResourceType {
    /// The lower-case command-line token for this kind.
    pub fn as_str(&self) -> (r: &'static str)
        ensures
            r@ == spec_cli_name(*self),
    {
        match self {
            ResourceType::Pod => "pod",
            ResourceType::Deployment => "deployment",
            ResourceType::DaemonSet => "daemonset",
            ResourceType::StatefulSet => "statefulset",
            ResourceType::Job => "job",
            ResourceType::CronJob => "cronjob",
            ResourceType::Service => "service",
            ResourceType::Node => "node",
            ResourceType::ConfigMap => "configmap",
            ResourceType::Secret => "secret",
            ResourceType::ServiceAccount => "serviceaccount",
            ResourceType::Role => "role",
            ResourceType::RoleBinding => "rolebinding",
            ResourceType::ClusterRole => "clusterrole",
            ResourceType::ClusterRoleBinding => "clusterrolebinding",
            ResourceType::PersistentVolume => "persistentvolume",
            ResourceType::PersistentVolumeClaim => "persistentvolumeclaim",
            ResourceType::Event => "event",
        }
    }

    /// The API kind name for this kind.
    pub fn kind(&self) -> (r: String)
        ensures
            r@ == spec_kind_name(*self),
    {
        match self {
            ResourceType::Pod => "Pod".to_owned(),
            ResourceType::Deployment => "Deployment".to_owned(),
            ResourceType::DaemonSet => "DaemonSet".to_owned(),
            ResourceType::StatefulSet => "StatefulSet".to_owned(),
            ResourceType::Job => "Job".to_owned(),
            ResourceType::CronJob => "CronJob".to_owned(),
            ResourceType::Service => "Service".to_owned(),
            ResourceType::Node => "Node".to_owned(),
            ResourceType::ConfigMap => "ConfigMap".to_owned(),
            ResourceType::Secret => "Secret".to_owned(),
            ResourceType::ServiceAccount => "ServiceAccount".to_owned(),
            ResourceType::Role => "Role".to_owned(),
            ResourceType::RoleBinding => "RoleBinding".to_owned(),
            ResourceType::ClusterRole => "ClusterRole".to_owned(),
            ResourceType::ClusterRoleBinding => "ClusterRoleBinding".to_owned(),
            ResourceType::PersistentVolume => "PersistentVolume".to_owned(),
            ResourceType::PersistentVolumeClaim => "PersistentVolumeClaim".to_owned(),
            ResourceType::Event => "Event".to_owned(),
        }
    }

    /// The scope of this kind.
    pub fn scope(&self) -> (r: Scope)
        ensures
            r == spec_scope(*self),
    {
        match self {
            ResourceType::Node => Scope::Cluster,
            ResourceType::ClusterRole => Scope::Cluster,
            ResourceType::ClusterRoleBinding => Scope::Cluster,
            ResourceType::PersistentVolume => Scope::Cluster,
            _ => Scope::Namespaced,
        }
    }

    /// Whether objects of this kind can be scaled.
    pub fn supports_scale(&self) -> (r: bool)
        ensures
            r == spec_supports_scale(*self),
    {
        match self {
            ResourceType::Deployment => true,
            ResourceType::StatefulSet => true,
            _ => false,
        }
    }

    /// Whether objects of this kind can be rolling-restarted.
    pub fn supports_restart(&self) -> (r: bool)
        ensures
            r == spec_supports_restart(*self),
    {
        match self {
            ResourceType::Deployment => true,
            ResourceType::StatefulSet => true,
            ResourceType::DaemonSet => true,
            _ => false,
        }
    }

    /// Whether objects of this kind can be deleted.
    pub fn supports_delete(&self) -> (r: bool)
        ensures
            r == spec_supports_delete(*self),
    {
        match self {
            ResourceType::Event => false,
            _ => true,
        }
    }

    /// Whether log streaming is offered for this kind.
    pub fn supports_logs(&self) -> (r: bool)
        ensures
            r == spec_supports_logs(*self),
    {
        match self {
            ResourceType::Pod => true,
            ResourceType::Deployment => true,
            ResourceType::StatefulSet => true,
            ResourceType::DaemonSet => true,
            ResourceType::Job => true,
            ResourceType::CronJob => true,
            _ => false,
        }
    }
}

impl ResourceType {
    /// Read a resource type from its API kind name, the wire vocabulary of
    /// the boundary: exactly the fixed tokens are accepted, and any other
    /// token fails with `InvalidArgument`.
    pub fn parse(s: &str) -> (r: Result<ResourceType, OpError>)
        ensures
            r matches Ok(t) ==> spec_kind_name(t) == s@,
            r matches Err(e) ==> e is InvalidArgument && (forall|t: ResourceType|
                spec_kind_name(t) != s@),
    {
        if str_eq(s, "Pod") {
            Ok(ResourceType::Pod)
        } else if str_eq(s, "Deployment") {
            Ok(ResourceType::Deployment)
        } else if str_eq(s, "DaemonSet") {
            Ok(ResourceType::DaemonSet)
        } else if str_eq(s, "StatefulSet") {
            Ok(ResourceType::StatefulSet)
        } else if str_eq(s, "Job") {
            Ok(ResourceType::Job)
        } else if str_eq(s, "CronJob") {
            Ok(ResourceType::CronJob)
        } else if str_eq(s, "Service") {
            Ok(ResourceType::Service)
        } else if str_eq(s, "Node") {
            Ok(ResourceType::Node)
        } else if str_eq(s, "ConfigMap") {
            Ok(ResourceType::ConfigMap)
        } else if str_eq(s, "Secret") {
            Ok(ResourceType::Secret)
        } else if str_eq(s, "ServiceAccount") {
            Ok(ResourceType::ServiceAccount)
        } else if str_eq(s, "Role") {
            Ok(ResourceType::Role)
        } else if str_eq(s, "RoleBinding") {
            Ok(ResourceType::RoleBinding)
        } else if str_eq(s, "ClusterRole") {
            Ok(ResourceType::ClusterRole)
        } else if str_eq(s, "ClusterRoleBinding") {
            Ok(ResourceType::ClusterRoleBinding)
        } else if str_eq(s, "PersistentVolume") {
            Ok(ResourceType::PersistentVolume)
        } else if str_eq(s, "PersistentVolumeClaim") {
            Ok(ResourceType::PersistentVolumeClaim)
        } else if str_eq(s, "Event") {
            Ok(ResourceType::Event)
        } else {
            Err(OpError::InvalidArgument)
        }
    }
}

/// Look a resource type up in the registry. Total: every type has exactly
/// one record, so there is no error case.
pub fn lookup(t: ResourceType) -> (m: ResourceMeta)
    ensures
        m.kind_name@ == spec_kind_name(t),
        m.scope == spec_scope(t),
        m.supports_scale == spec_supports_scale(t),
        m.supports_restart == spec_supports_restart(t),
        m.supports_delete == spec_supports_delete(t),
        m.supports_logs == spec_supports_logs(t),
{
    ResourceMeta {
        kind_name: t.kind(),
        scope: t.scope(),
        supports_scale: t.supports_scale(),
        supports_restart: t.supports_restart(),
        supports_delete: t.supports_delete(),
        supports_logs: t.supports_logs(),
    }
}

/// Law: a kind that supports scaling is one of the two scalable workload
/// kinds.
pub proof fn lemma_scale_is_workload(t: ResourceType)
    ensures
        spec_supports_scale(t) ==> (t is Deployment || t is StatefulSet),
{
}

/// Law: a kind that supports scaling is namespaced.
pub proof fn lemma_scale_implies_namespaced(t: ResourceType)
    ensures
        spec_supports_scale(t) ==> spec_scope(t) is Namespaced,
{
}

/// Law: a kind that supports restarting is one of the three template-driven
/// workload kinds.
pub proof fn lemma_restart_is_workload(t: ResourceType)
    ensures
        spec_supports_restart(t) ==> (t is Deployment || t is StatefulSet
            || t is DaemonSet),
{
}

} // verus!
