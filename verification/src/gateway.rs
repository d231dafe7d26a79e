//! The client gateway, specified against an explicit cluster model.
//!
//! A `ClusterModel` holds the objects of one cluster together with a counter
//! of the API calls issued against it. The gateway operations — list, get,
//! delete, scale, restart, list-events — are written against this model, so
//! their semantics (capability gating before any call, the conditional-write
//! precondition of scale, scope handling for cluster kinds) are stated and
//! proved once, and a test can drive them as a fake gateway that records
//! whether a call was attempted.

use vstd::prelude::*;
use crate::envelope::{ResourceEnvelope, ResourceObject, spec_wrap};
use crate::errors::OpError;
use crate::registry::{
    ResourceType, Scope, spec_scope, spec_supports_delete, spec_supports_restart,
    spec_supports_scale,
};
use crate::text::str_eq;

verus! {

/// Which namespaces a list-style query addresses: one namespace by name, or
/// all of them. Kinds whose scope is `Cluster` ignore the selector.
pub enum NamespaceSelector {
    All,
    Named(String),
}

impl Clone for NamespaceSelector {
    fn clone(&self) -> (r: Self)
        ensures
            r == *self,
    {
        match self {
            NamespaceSelector::All => NamespaceSelector::All,
            NamespaceSelector::Named(ns) => NamespaceSelector::Named(ns.clone()),
        }
    }
}

impl NamespaceSelector {
    /// Read a selector from the boundary convention: the token `all` selects
    /// every namespace, anything else names one namespace.
    pub fn parse(s: &str) -> (r: NamespaceSelector)
        ensures
            s@ == "all"@ ==> r is All,
            s@ != "all"@ ==> (r matches NamespaceSelector::Named(ns) && ns@ == s@),
    {
        if str_eq(s, "all") {
            NamespaceSelector::All
        } else {
            NamespaceSelector::Named(s.to_owned())
        }
    }
}

/// How a list query is routed: cluster-scoped kinds have one global
/// collection, namespaced kinds are listed across all namespaces or within
/// one.
pub enum ListRoute {
    Cluster,
    AllNamespaces,
    InNamespace(String),
}

/// Route a list query. Cluster-scoped kinds ignore the selector.
pub fn list_route(kind: ResourceType, sel: &NamespaceSelector) -> (r: ListRoute)
    ensures
        spec_scope(kind) is Cluster ==> r is Cluster,
        spec_scope(kind) is Namespaced && *sel is All ==> r is AllNamespaces,
        (match *sel {
            NamespaceSelector::Named(ns) => spec_scope(kind) is Namespaced ==> (
            r matches ListRoute::InNamespace(rns) && rns@ == ns@),
            NamespaceSelector::All => true,
        }),
{
    match kind.scope() {
        Scope::Cluster => ListRoute::Cluster,
        Scope::Namespaced => match sel {
            NamespaceSelector::All => ListRoute::AllNamespaces,
            NamespaceSelector::Named(ns) => ListRoute::InNamespace(ns.clone()),
        },
    }
}

/// Gate a live delete: the scope to address when the kind supports deletion,
/// `Unsupported` — before any call — when it does not.
pub fn delete_route(kind: ResourceType) -> (r: Result<Scope, OpError>)
    ensures
        spec_supports_delete(kind) ==> (r matches Ok(s) && s == spec_scope(kind)),
        !spec_supports_delete(kind) ==> (r matches Err(e) && e is Unsupported),
{
    if kind.supports_delete() {
        Ok(kind.scope())
    } else {
        Err(OpError::Unsupported)
    }
}

/// Whether an object is the one addressed by kind, namespace and name.
/// Cluster-scoped kinds are not partitioned by namespace, so for them the
/// namespace argument is ignored.
pub open spec fn spec_key_matches(
    o: ResourceObject,
    kind: ResourceType,
    ns: Seq<char>,
    name: Seq<char>,
) -> bool {
    &&& o.kind == kind
    &&& o.name@ == name
    &&& (spec_scope(kind) is Cluster || o.namespace@ == ns)
}

/// The first object addressed by kind, namespace and name, if any.
pub open spec fn spec_find(
    objs: Seq<ResourceObject>,
    kind: ResourceType,
    ns: Seq<char>,
    name: Seq<char>,
) -> Option<ResourceObject>
    decreases objs.len(),
{
    if objs.len() == 0 {
        None
    } else if spec_key_matches(objs[0], kind, ns, name) {
        Some(objs[0])
    } else {
        spec_find(objs.drop_first(), kind, ns, name)
    }
}

/// The object sequence with the first addressed object removed (unchanged
/// when none is addressed).
pub open spec fn spec_remove_first(
    objs: Seq<ResourceObject>,
    kind: ResourceType,
    ns: Seq<char>,
    name: Seq<char>,
) -> Seq<ResourceObject>
    decreases objs.len(),
{
    if objs.len() == 0 {
        objs
    } else if spec_key_matches(objs[0], kind, ns, name) {
        objs.drop_first()
    } else {
        seq![objs[0]] + spec_remove_first(objs.drop_first(), kind, ns, name)
    }
}

/// The object sequence with `f` applied to the first addressed object
/// (unchanged when none is addressed).
pub open spec fn spec_update_first(
    objs: Seq<ResourceObject>,
    kind: ResourceType,
    ns: Seq<char>,
    name: Seq<char>,
    f: spec_fn(ResourceObject) -> ResourceObject,
) -> Seq<ResourceObject>
    decreases objs.len(),
{
    if objs.len() == 0 {
        objs
    } else if spec_key_matches(objs[0], kind, ns, name) {
        seq![f(objs[0])] + objs.drop_first()
    } else {
        seq![objs[0]] + spec_update_first(objs.drop_first(), kind, ns, name, f)
    }
}

/// What `delete` returns: `Unsupported` for kinds whose registry record
/// forbids deletion, detected before any call; `NotFound` when no object is
/// addressed; success otherwise.
pub open spec fn spec_delete_result(
    objs: Seq<ResourceObject>,
    kind: ResourceType,
    ns: Seq<char>,
    name: Seq<char>,
) -> Result<(), OpError> {
    if !spec_supports_delete(kind) {
        Err(OpError::Unsupported)
    } else if spec_find(objs, kind, ns, name) is None {
        Err(OpError::NotFound)
    } else {
        Ok(())
    }
}

/// The cluster objects after `delete`: the addressed object is gone exactly
/// when the operation succeeds.
pub open spec fn spec_delete_state(
    objs: Seq<ResourceObject>,
    kind: ResourceType,
    ns: Seq<char>,
    name: Seq<char>,
) -> Seq<ResourceObject> {
    if spec_delete_result(objs, kind, ns, name) is Ok {
        spec_remove_first(objs, kind, ns, name)
    } else {
        objs
    }
}

/// One more API call, saturating at the counter's limit.
pub open spec fn spec_bump(calls: u64) -> u64 {
    if calls < u64::MAX {
        (calls + 1) as u64
    } else {
        calls
    }
}

/// An in-memory cluster: the objects it holds, and how many API calls the
/// gateway has issued against it. Capability violations are rejected before
/// the counter moves, so a test can observe that no call was attempted.
pub struct ClusterModel {
    pub objects: Vec<ResourceObject>,
    pub api_calls: u64,
}

/// Whether an object answers the addressed key exactly.
fn key_matches(o: &ResourceObject, kind: ResourceType, ns: &str, name: &str) -> (r: bool)
    ensures
        r == spec_key_matches(*o, kind, ns@, name@),
{
    if o.kind != kind {
        return false;
    }
    if !str_eq(o.name.as_str(), name) {
        return false;
    }
    match kind.scope() {
        Scope::Cluster => true,
        Scope::Namespaced => str_eq(o.namespace.as_str(), ns),
    }
}

/// If no object among the first `i` is addressed, the first addressed object
/// of the whole sequence is the first one of the rest.
proof fn lemma_find_skip(
    objs: Seq<ResourceObject>,
    kind: ResourceType,
    ns: Seq<char>,
    name: Seq<char>,
    i: int,
)
    requires
        0 <= i <= objs.len(),
        forall|j: int| 0 <= j < i ==> !spec_key_matches(objs[j], kind, ns, name),
    ensures
        spec_find(objs, kind, ns, name) == spec_find(objs.skip(i), kind, ns, name),
    decreases i,
{
    if i > 0 {
        assert(!spec_key_matches(objs[0], kind, ns, name));
        assert(objs.len() > 0);
        lemma_find_skip(objs.drop_first(), kind, ns, name, i - 1);
        assert(objs.drop_first().skip(i - 1) =~= objs.skip(i));
    } else {
        assert(objs.skip(0) =~= objs);
    }
}

/// Find the index of the first addressed object.
fn find_index(objs: &Vec<ResourceObject>, kind: ResourceType, ns: &str, name: &str) -> (r: Option<
    usize,
>)
    ensures
        match r {
            Some(i) => {
                &&& i < objs@.len()
                &&& spec_key_matches(objs@[i as int], kind, ns@, name@)
                &&& (forall|j: int| 0 <= j < i ==> !spec_key_matches(objs@[j], kind, ns@, name@))
                &&& spec_find(objs@, kind, ns@, name@) == Some(objs@[i as int])
            },
            None => spec_find(objs@, kind, ns@, name@) is None,
        },
{
    let n = objs.len();
    let mut i: usize = 0;
    while i < n
        invariant
            n == objs@.len(),
            i <= n,
            forall|j: int| 0 <= j < i ==> !spec_key_matches(objs@[j], kind, ns@, name@),
        decreases n - i,
    {
        if key_matches(&objs[i], kind, ns, name) {
            proof {
                lemma_find_skip(objs@, kind, ns@, name@, i as int);
                assert(objs@.skip(i as int)[0] == objs@[i as int]);
            }
            return Some(i);
        }
        i = i + 1;
    }
    proof {
        lemma_find_skip(objs@, kind, ns@, name@, n as int);
        assert(objs@.skip(n as int).len() == 0);
    }
    None
}

/// Removing the first addressed object, when it stands at index `i`, removes
/// exactly the element at `i`.
proof fn lemma_remove_first_at(
    objs: Seq<ResourceObject>,
    kind: ResourceType,
    ns: Seq<char>,
    name: Seq<char>,
    i: int,
)
    requires
        0 <= i < objs.len(),
        spec_key_matches(objs[i], kind, ns, name),
        forall|j: int| 0 <= j < i ==> !spec_key_matches(objs[j], kind, ns, name),
    ensures
        spec_remove_first(objs, kind, ns, name) == objs.remove(i),
    decreases i,
{
    if i == 0 {
        assert(spec_remove_first(objs, kind, ns, name) =~= objs.remove(0));
    } else {
        lemma_remove_first_at(objs.drop_first(), kind, ns, name, i - 1);
        assert(spec_remove_first(objs, kind, ns, name) =~= objs.remove(i));
    }
}

/// Updating the first addressed object, when it stands at index `i`, updates
/// exactly the element at `i`.
proof fn lemma_update_first_at(
    objs: Seq<ResourceObject>,
    kind: ResourceType,
    ns: Seq<char>,
    name: Seq<char>,
    f: spec_fn(ResourceObject) -> ResourceObject,
    i: int,
)
    requires
        0 <= i < objs.len(),
        spec_key_matches(objs[i], kind, ns, name),
        forall|j: int| 0 <= j < i ==> !spec_key_matches(objs[j], kind, ns, name),
    ensures
        spec_update_first(objs, kind, ns, name, f) == objs.update(i, f(objs[i])),
    decreases i,
{
    if i == 0 {
        assert(spec_update_first(objs, kind, ns, name, f) =~= objs.update(0, f(objs[0])));
    } else {
        lemma_update_first_at(objs.drop_first(), kind, ns, name, f, i - 1);
        assert(spec_update_first(objs, kind, ns, name, f) =~= objs.update(i, f(objs[i])));
    }
}

impl ClusterModel {
    /// An empty cluster with no calls recorded.
    pub fn new() -> (c: Self)
        ensures
            c.objects@ == Seq::<ResourceObject>::empty(),
            c.api_calls == 0,
    {
        ClusterModel { objects: Vec::new(), api_calls: 0 }
    }

    /// Place one object in the cluster, as fixture setup does; this is not a
    /// gateway call and does not move the counter.
    pub fn add_object(&mut self, obj: ResourceObject)
        ensures
            final(self).objects@ == old(self).objects@.push(obj),
            final(self).api_calls == old(self).api_calls,
    {
        self.objects.push(obj);
    }

    fn bump_calls(&mut self)
        ensures
            final(self).api_calls == spec_bump(old(self).api_calls),
            final(self).objects == old(self).objects,
    {
        if self.api_calls < u64::MAX {
            self.api_calls = self.api_calls + 1;
        }
    }

    /// Fetch one object by kind, namespace and name, wrapped in an envelope.
    /// Fails with `NotFound` exactly when no object is addressed. One API
    /// call is always issued.
    pub fn get(&mut self, kind: ResourceType, ns: &str, name: &str) -> (r: Result<
        ResourceEnvelope,
        OpError,
    >)
        ensures
            final(self).objects == old(self).objects,
            final(self).api_calls == spec_bump(old(self).api_calls),
            match spec_find(old(self).objects@, kind, ns@, name@) {
                Some(o) => r matches Ok(env) && env == spec_wrap(o),
                None => r matches Err(e) && e is NotFound,
            },
    {
        self.bump_calls();
        match find_index(&self.objects, kind, ns, name) {
            Some(i) => {
                let obj = self.objects[i].clone();
                Ok(ResourceEnvelope::wrap(obj))
            },
            None => Err(OpError::NotFound),
        }
    }

    /// Delete one object by kind, namespace and name. Kinds that do not
    /// support deletion fail with `Unsupported` before any call is issued;
    /// otherwise one call is issued, failing with `NotFound` exactly when no
    /// object is addressed and otherwise removing it.
    pub fn delete(&mut self, kind: ResourceType, ns: &str, name: &str) -> (r: Result<(), OpError>)
        ensures
            r == spec_delete_result(old(self).objects@, kind, ns@, name@),
            final(self).objects@ == spec_delete_state(old(self).objects@, kind, ns@, name@),
            !spec_supports_delete(kind) ==> *final(self) == *old(self),
            spec_supports_delete(kind) ==> final(self).api_calls == spec_bump(
                old(self).api_calls,
            ),
    {
        if !kind.supports_delete() {
            return Err(OpError::Unsupported);
        }
        self.bump_calls();
        match find_index(&self.objects, kind, ns, name) {
            Some(i) => {
                proof {
                    lemma_remove_first_at(self.objects@, kind, ns@, name@, i as int);
                }
                self.objects.remove(i);
                Ok(())
            },
            None => Err(OpError::NotFound),
        }
    }
}

/// Whether an object answers a list query for `kind` under the namespace
/// selector `sel`. Cluster-scoped kinds ignore the selector.
pub open spec fn spec_selected(
    o: ResourceObject,
    kind: ResourceType,
    sel: NamespaceSelector,
) -> bool {
    &&& o.kind == kind
    &&& (spec_scope(kind) is Cluster || match sel {
        NamespaceSelector::All => true,
        NamespaceSelector::Named(ns) => o.namespace@ == ns@,
    })
}

/// The list query's selection as a function, for `Seq::filter`.
pub open spec fn selected_pred(kind: ResourceType, sel: NamespaceSelector) -> spec_fn(
    ResourceObject,
) -> bool {
    |o: ResourceObject| spec_selected(o, kind, sel)
}

/// Membership of a kind alone, what a list query for a cluster-scoped kind
/// comes down to.
pub open spec fn kind_pred(kind: ResourceType) -> spec_fn(ResourceObject) -> bool {
    |o: ResourceObject| o.kind == kind
}

/// Wrapping as a function, for `Seq::map_values`.
pub open spec fn wrap_fn() -> spec_fn(ResourceObject) -> ResourceEnvelope {
    |o: ResourceObject| spec_wrap(o)
}

/// What `list` returns: every object answering the query, in cluster order,
/// each wrapped in an envelope tagged with its own kind.
pub open spec fn spec_list(
    objs: Seq<ResourceObject>,
    kind: ResourceType,
    sel: NamespaceSelector,
) -> Seq<ResourceEnvelope> {
    objs.filter(selected_pred(kind, sel)).map_values(wrap_fn())
}

/// Whether an object is an event about the object addressed by `kind` and
/// `name`, recorded in the namespace `ens`.
pub open spec fn spec_event_matches(
    o: ResourceObject,
    kind: ResourceType,
    ens: Seq<char>,
    name: Seq<char>,
) -> bool {
    &&& o.kind is Event
    &&& o.namespace@ == ens
    &&& (o.involved matches Some(r) && r.kind == kind && r.name@ == name)
}

/// The event query's selection as a function, for `Seq::filter`.
pub open spec fn event_pred(kind: ResourceType, ens: Seq<char>, name: Seq<char>) -> spec_fn(
    ResourceObject,
) -> bool {
    |o: ResourceObject| spec_event_matches(o, kind, ens, name)
}

/// The namespace an event query runs in. Events are namespace-scoped per
/// query: a namespaced kind needs one namespace, so the all-namespaces
/// selector is malformed for it; events about cluster-scoped objects are
/// recorded in the empty namespace.
pub open spec fn spec_effective_event_ns(kind: ResourceType, sel: NamespaceSelector) -> Option<
    Seq<char>,
> {
    if spec_scope(kind) is Cluster {
        Some(""@)
    } else {
        match sel {
            NamespaceSelector::All => None,
            NamespaceSelector::Named(ns) => Some(ns@),
        }
    }
}

/// What `list_events` returns: `InvalidArgument` when the query has no one
/// namespace to run in, detected before any call; otherwise every event
/// about the addressed object, in cluster order.
pub open spec fn spec_list_events_result(
    objs: Seq<ResourceObject>,
    kind: ResourceType,
    sel: NamespaceSelector,
    name: Seq<char>,
) -> Result<Seq<ResourceObject>, OpError> {
    match spec_effective_event_ns(kind, sel) {
        None => Err(OpError::InvalidArgument),
        Some(ens) => Ok(objs.filter(event_pred(kind, ens, name))),
    }
}

/// One filtering step: filtering one more element appends it exactly when it
/// answers the predicate.
proof fn lemma_filter_take_step(
    objs: Seq<ResourceObject>,
    i: int,
    p: spec_fn(ResourceObject) -> bool,
)
    requires
        0 <= i < objs.len(),
    ensures
        objs.take(i + 1).filter(p) == if p(objs[i]) {
            objs.take(i).filter(p).push(objs[i])
        } else {
            objs.take(i).filter(p)
        },
{
    reveal(Seq::filter);
    assert(objs.take(i + 1).drop_last() =~= objs.take(i));
    assert(objs.take(i + 1).last() == objs[i]);
}

/// Whether an object answers a list query, executably.
fn selected(o: &ResourceObject, kind: ResourceType, sel: &NamespaceSelector) -> (r: bool)
    ensures
        r == spec_selected(*o, kind, *sel),
{
    if o.kind != kind {
        return false;
    }
    match kind.scope() {
        Scope::Cluster => true,
        Scope::Namespaced => match sel {
            NamespaceSelector::All => true,
            NamespaceSelector::Named(ns) => str_eq(o.namespace.as_str(), ns.as_str()),
        },
    }
}

/// Whether an object is an event answering an event query, executably.
fn event_matches(o: &ResourceObject, kind: ResourceType, ens: &str, name: &str) -> (r: bool)
    ensures
        r == spec_event_matches(*o, kind, ens@, name@),
{
    if !matches!(o.kind, ResourceType::Event) {
        return false;
    }
    if !str_eq(o.namespace.as_str(), ens) {
        return false;
    }
    match &o.involved {
        None => false,
        Some(inv) => inv.kind == kind && str_eq(inv.name.as_str(), name),
    }
}

impl ClusterModel {
    /// List every object of a kind answering the namespace selector, each
    /// wrapped in an envelope tagged with its own kind. For cluster-scoped
    /// kinds the selector is ignored. One API call is always issued, and the
    /// whole result is returned at once.
    pub fn list(&mut self, kind: ResourceType, sel: &NamespaceSelector) -> (r: Vec<
        ResourceEnvelope,
    >)
        ensures
            final(self).objects == old(self).objects,
            final(self).api_calls == spec_bump(old(self).api_calls),
            r@ == spec_list(old(self).objects@, kind, *sel),
    {
        self.bump_calls();
        let ghost snap = *self;
        let mut out: Vec<ResourceEnvelope> = Vec::new();
        let n = self.objects.len();
        let mut i: usize = 0;
        while i < n
            invariant
                *self == snap,
                n == self.objects@.len(),
                i <= n,
                out@ == spec_list(self.objects@.take(i as int), kind, *sel),
            decreases n - i,
        {
            let ghost p = selected_pred(kind, *sel);
            proof {
                lemma_filter_take_step(self.objects@, i as int, p);
            }
            if selected(&self.objects[i], kind, sel) {
                out.push(ResourceEnvelope::wrap(self.objects[i].clone()));
                proof {
                    assert(self.objects@.take(i + 1).filter(p).map_values(wrap_fn())
                        =~= self.objects@.take(i as int).filter(p).map_values(wrap_fn()).push(
                        spec_wrap(self.objects@[i as int]),
                    ));
                }
            }
            i = i + 1;
        }
        proof {
            assert(self.objects@.take(n as int) =~= self.objects@);
        }
        out
    }

    /// List the events about the object addressed by kind and name. A
    /// namespaced kind needs one namespace to query in, so the
    /// all-namespaces selector fails with `InvalidArgument` before any call
    /// is issued; events about cluster-scoped objects are looked up in the
    /// empty namespace.
    pub fn list_events(&mut self, kind: ResourceType, sel: &NamespaceSelector, name: &str) -> (r:
        Result<Vec<ResourceObject>, OpError>)
        ensures
            final(self).objects == old(self).objects,
            match spec_list_events_result(old(self).objects@, kind, *sel, name@) {
                Err(e) => {
                    &&& r matches Err(e2) && e2 is InvalidArgument && e is InvalidArgument
                    &&& *final(self) == *old(self)
                },
                Ok(s) => {
                    &&& r matches Ok(v) && v@ == s
                    &&& final(self).api_calls == spec_bump(old(self).api_calls)
                },
            },
    {
        let ens: &str = match kind.scope() {
            Scope::Cluster => "",
            Scope::Namespaced => match sel {
                NamespaceSelector::All => {
                    return Err(OpError::InvalidArgument);
                },
                NamespaceSelector::Named(ns) => ns.as_str(),
            },
        };
        self.bump_calls();
        let ghost snap = *self;
        let mut out: Vec<ResourceObject> = Vec::new();
        let n = self.objects.len();
        let mut i: usize = 0;
        while i < n
            invariant
                *self == snap,
                n == self.objects@.len(),
                i <= n,
                out@ == self.objects@.take(i as int).filter(event_pred(kind, ens@, name@)),
            decreases n - i,
        {
            proof {
                lemma_filter_take_step(self.objects@, i as int, event_pred(kind, ens@, name@));
            }
            if event_matches(&self.objects[i], kind, ens, name) {
                out.push(self.objects[i].clone());
            }
            i = i + 1;
        }
        proof {
            assert(self.objects@.take(n as int) =~= self.objects@);
        }
        Ok(out)
    }
}

/// Filtering with predicates that agree on every element yields the same
/// sequence.
proof fn lemma_filter_congruence(
    s: Seq<ResourceObject>,
    p1: spec_fn(ResourceObject) -> bool,
    p2: spec_fn(ResourceObject) -> bool,
)
    requires
        forall|o: ResourceObject| #[trigger] p1(o) == p2(o),
    ensures
        s.filter(p1) == s.filter(p2),
    decreases s.len(),
{
    reveal(Seq::filter);
    if s.len() > 0 {
        lemma_filter_congruence(s.drop_last(), p1, p2);
    }
}

/// Law: a list query for a cluster-scoped kind ignores the namespace
/// selector — any two selectors yield the same result, namely every object
/// of that kind.
pub proof fn lemma_list_cluster_ignores_selector(
    objs: Seq<ResourceObject>,
    kind: ResourceType,
    sel1: NamespaceSelector,
    sel2: NamespaceSelector,
)
    requires
        spec_scope(kind) is Cluster,
    ensures
        spec_list(objs, kind, sel1) == spec_list(objs, kind, sel2),
        spec_list(objs, kind, sel1) == objs.filter(kind_pred(kind)).map_values(wrap_fn()),
{
    lemma_filter_congruence(objs, selected_pred(kind, sel1), selected_pred(kind, sel2));
    lemma_filter_congruence(objs, selected_pred(kind, sel1), kind_pred(kind));
}

/// The same object with its replica count set to `desired`.
pub open spec fn spec_with_replicas(o: ResourceObject, desired: u32) -> ResourceObject {
    ResourceObject {
        kind: o.kind,
        namespace: o.namespace,
        name: o.name,
        replicas: desired,
        restarted_at: o.restarted_at,
        involved: o.involved,
        message: o.message,
    }
}

/// The replica update as a function, for `spec_update_first`.
pub open spec fn replicas_setter(desired: u32) -> spec_fn(ResourceObject) -> ResourceObject {
    |o: ResourceObject| spec_with_replicas(o, desired)
}

/// The same object with the restart stamp annotation set to `stamp`.
pub open spec fn spec_with_stamp(o: ResourceObject, stamp: String) -> ResourceObject {
    ResourceObject {
        kind: o.kind,
        namespace: o.namespace,
        name: o.name,
        replicas: o.replicas,
        restarted_at: Some(stamp),
        involved: o.involved,
        message: o.message,
    }
}

/// The restart stamp update as a function, for `spec_update_first`.
pub open spec fn stamp_setter(stamp: String) -> spec_fn(ResourceObject) -> ResourceObject {
    |o: ResourceObject| spec_with_stamp(o, stamp)
}

/// What `scale` returns: `Unsupported` for kinds without a replica count,
/// detected before any call; `NotFound` when no object is addressed;
/// `Conflict` when the live replica count differs from the expected one (the
/// optimistic-concurrency precondition); success otherwise.
pub open spec fn spec_scale_result(
    objs: Seq<ResourceObject>,
    kind: ResourceType,
    ns: Seq<char>,
    name: Seq<char>,
    current: u32,
) -> Result<(), OpError> {
    if !spec_supports_scale(kind) {
        Err(OpError::Unsupported)
    } else {
        match spec_find(objs, kind, ns, name) {
            None => Err(OpError::NotFound),
            Some(o) => if o.replicas == current {
                Ok(())
            } else {
                Err(OpError::Conflict)
            },
        }
    }
}

/// The cluster objects after `scale`: the addressed object carries the
/// desired replica count exactly when the operation succeeds, and nothing is
/// touched otherwise.
pub open spec fn spec_scale_state(
    objs: Seq<ResourceObject>,
    kind: ResourceType,
    ns: Seq<char>,
    name: Seq<char>,
    current: u32,
    desired: u32,
) -> Seq<ResourceObject> {
    if spec_scale_result(objs, kind, ns, name, current) is Ok {
        spec_update_first(objs, kind, ns, name, replicas_setter(desired))
    } else {
        objs
    }
}

/// What `restart` returns: `Unsupported` for kinds without a pod template,
/// detected before any call; `NotFound` when no object is addressed; success
/// otherwise — a restart of a present, supported object never fails.
pub open spec fn spec_restart_result(
    objs: Seq<ResourceObject>,
    kind: ResourceType,
    ns: Seq<char>,
    name: Seq<char>,
) -> Result<(), OpError> {
    if !spec_supports_restart(kind) {
        Err(OpError::Unsupported)
    } else if spec_find(objs, kind, ns, name) is None {
        Err(OpError::NotFound)
    } else {
        Ok(())
    }
}

/// The cluster objects after `restart`: the addressed object carries the new
/// restart stamp exactly when the operation succeeds. The workload
/// controller's own rollout machinery reacts to the stamp; the gateway only
/// writes it.
pub open spec fn spec_restart_state(
    objs: Seq<ResourceObject>,
    kind: ResourceType,
    ns: Seq<char>,
    name: Seq<char>,
    stamp: String,
) -> Seq<ResourceObject> {
    if spec_restart_result(objs, kind, ns, name) is Ok {
        spec_update_first(objs, kind, ns, name, stamp_setter(stamp))
    } else {
        objs
    }
}

impl ClusterModel {
    /// Scale the addressed object to `desired` replicas, on the condition
    /// that its live replica count still equals `current` at apply time.
    /// Kinds that do not support scaling fail with `Unsupported` before any
    /// call is issued; a failed precondition fails with `Conflict` and
    /// leaves the object untouched.
    pub fn scale(
        &mut self,
        kind: ResourceType,
        ns: &str,
        name: &str,
        current: u32,
        desired: u32,
    ) -> (r: Result<(), OpError>)
        ensures
            r == spec_scale_result(old(self).objects@, kind, ns@, name@, current),
            final(self).objects@ == spec_scale_state(
                old(self).objects@,
                kind,
                ns@,
                name@,
                current,
                desired,
            ),
            !spec_supports_scale(kind) ==> *final(self) == *old(self),
            spec_supports_scale(kind) ==> final(self).api_calls == spec_bump(
                old(self).api_calls,
            ),
    {
        if !kind.supports_scale() {
            return Err(OpError::Unsupported);
        }
        self.bump_calls();
        match find_index(&self.objects, kind, ns, name) {
            None => Err(OpError::NotFound),
            Some(i) => {
                if self.objects[i].replicas == current {
                    proof {
                        lemma_update_first_at(
                            self.objects@,
                            kind,
                            ns@,
                            name@,
                            replicas_setter(desired),
                            i as int,
                        );
                    }
                    let ghost before = self.objects@;
                    let o = self.objects.remove(i);
                    let updated = ResourceObject {
                        kind: o.kind,
                        namespace: o.namespace,
                        name: o.name,
                        replicas: desired,
                        restarted_at: o.restarted_at,
                        involved: o.involved,
                        message: o.message,
                    };
                    self.objects.insert(i, updated);
                    proof {
                        assert(self.objects@ =~= before.update(
                            i as int,
                            spec_with_replicas(before[i as int], desired),
                        ));
                    }
                    Ok(())
                } else {
                    Err(OpError::Conflict)
                }
            },
        }
    }

    /// Rolling-restart the addressed object by stamping `stamp` as its
    /// restart annotation. Kinds that do not support restarting fail with
    /// `Unsupported` before any call is issued; restarting a present,
    /// supported object always succeeds.
    pub fn restart(&mut self, kind: ResourceType, ns: &str, name: &str, stamp: String) -> (r:
        Result<(), OpError>)
        ensures
            r == spec_restart_result(old(self).objects@, kind, ns@, name@),
            final(self).objects@ == spec_restart_state(
                old(self).objects@,
                kind,
                ns@,
                name@,
                stamp,
            ),
            !spec_supports_restart(kind) ==> *final(self) == *old(self),
            spec_supports_restart(kind) ==> final(self).api_calls == spec_bump(
                old(self).api_calls,
            ),
    {
        if !kind.supports_restart() {
            return Err(OpError::Unsupported);
        }
        self.bump_calls();
        match find_index(&self.objects, kind, ns, name) {
            None => Err(OpError::NotFound),
            Some(i) => {
                proof {
                    lemma_update_first_at(
                        self.objects@,
                        kind,
                        ns@,
                        name@,
                        stamp_setter(stamp),
                        i as int,
                    );
                }
                let ghost before = self.objects@;
                let o = self.objects.remove(i);
                let updated = ResourceObject {
                    kind: o.kind,
                    namespace: o.namespace,
                    name: o.name,
                    replicas: o.replicas,
                    restarted_at: Some(stamp),
                    involved: o.involved,
                    message: o.message,
                };
                self.objects.insert(i, updated);
                proof {
                    assert(self.objects@ =~= before.update(
                        i as int,
                        spec_with_stamp(before[i as int], stamp),
                    ));
                }
                Ok(())
            },
        }
    }
}

/// Law: scaling a kind that does not support it fails with `Unsupported`
/// and leaves the cluster unchanged — no call is attempted.
pub proof fn lemma_scale_unsupported(
    objs: Seq<ResourceObject>,
    kind: ResourceType,
    ns: Seq<char>,
    name: Seq<char>,
    current: u32,
    desired: u32,
)
    requires
        !spec_supports_scale(kind),
    ensures
        spec_scale_result(objs, kind, ns, name, current) == Err::<(), OpError>(
            OpError::Unsupported,
        ),
        spec_scale_state(objs, kind, ns, name, current, desired) == objs,
{
}

/// Law: when the addressed object's live replica count differs from the
/// expected one, scaling fails with `Conflict` and the cluster is unchanged.
pub proof fn lemma_scale_conflict_unchanged(
    objs: Seq<ResourceObject>,
    kind: ResourceType,
    ns: Seq<char>,
    name: Seq<char>,
    current: u32,
    desired: u32,
)
    requires
        spec_supports_scale(kind),
        spec_find(objs, kind, ns, name) matches Some(o) && o.replicas != current,
    ensures
        spec_scale_result(objs, kind, ns, name, current) == Err::<(), OpError>(OpError::Conflict),
        spec_scale_state(objs, kind, ns, name, current, desired) == objs,
{
}

/// Updating the first addressed object with a key-preserving function leaves
/// the first addressed object findable, now updated.
proof fn lemma_find_update_first(
    objs: Seq<ResourceObject>,
    kind: ResourceType,
    ns: Seq<char>,
    name: Seq<char>,
    f: spec_fn(ResourceObject) -> ResourceObject,
)
    requires
        forall|o: ResourceObject| #[trigger] spec_key_matches(f(o), kind, ns, name)
            == spec_key_matches(o, kind, ns, name),
    ensures
        spec_find(spec_update_first(objs, kind, ns, name, f), kind, ns, name) == match spec_find(
            objs,
            kind,
            ns,
            name,
        ) {
            Some(o) => Some(f(o)),
            None => None,
        },
    decreases objs.len(),
{
    if objs.len() > 0 {
        if spec_key_matches(objs[0], kind, ns, name) {
            let updated = seq![f(objs[0])] + objs.drop_first();
            assert(updated[0] == f(objs[0]));
        } else {
            lemma_find_update_first(objs.drop_first(), kind, ns, name, f);
            let updated = seq![objs[0]] + spec_update_first(
                objs.drop_first(),
                kind,
                ns,
                name,
                f,
            );
            assert(updated[0] == objs[0]);
            assert(updated.drop_first() =~= spec_update_first(
                objs.drop_first(),
                kind,
                ns,
                name,
                f,
            ));
        }
    }
}

/// Law: a restart that succeeds can always be repeated — the stamped object
/// is still addressed by the same key, carries the new stamp, and a second
/// restart succeeds again. Repeating a restart produces a new stamp, never
/// an error.
pub proof fn lemma_restart_repeatable(
    objs: Seq<ResourceObject>,
    kind: ResourceType,
    ns: Seq<char>,
    name: Seq<char>,
    stamp: String,
)
    requires
        spec_restart_result(objs, kind, ns, name) is Ok,
    ensures
        spec_find(spec_restart_state(objs, kind, ns, name, stamp), kind, ns, name)
            matches Some(o) && o.restarted_at == Some(stamp),
        spec_restart_result(spec_restart_state(objs, kind, ns, name, stamp), kind, ns, name)
            is Ok,
{
    assert(forall|o: ResourceObject| #[trigger] spec_key_matches(
        stamp_setter(stamp)(o),
        kind,
        ns,
        name,
    ) == spec_key_matches(o, kind, ns, name));
    lemma_find_update_first(objs, kind, ns, name, stamp_setter(stamp));
}

/// Law: deleting an event always fails with `Unsupported` and leaves the
/// cluster unchanged, whatever namespace and name are given.
pub proof fn lemma_delete_event_unsupported(
    objs: Seq<ResourceObject>,
    ns: Seq<char>,
    name: Seq<char>,
)
    ensures
        spec_delete_result(objs, ResourceType::Event, ns, name) == Err::<(), OpError>(
            OpError::Unsupported,
        ),
        spec_delete_state(objs, ResourceType::Event, ns, name) == objs,
{
}

} // verus!
