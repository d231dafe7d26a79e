//! The resource object model and the envelope that carries one object of
//! any kind through a single channel.
//!
//! Cluster objects are opaque to the core's reasoning except for the few
//! fields its operations read: identity (kind, namespace, name), the replica
//! count that scaling conditions on, the restart stamp that a rolling
//! restart writes, and — for events — the object the event is about.

use vstd::prelude::*;
use crate::registry::ResourceType;

verus! {

/// Identity of the object an event is about.
#[derive(Debug)]
pub struct ObjectRef {
    pub kind: ResourceType,
    pub name: String,
}

impl Clone for ObjectRef {
    fn clone(&self) -> (r: Self)
        ensures
            r == *self,
    {
        ObjectRef { kind: self.kind, name: self.name.clone() }
    }
}

/// One cluster object, reduced to the fields the core reads or writes.
/// The namespace of a cluster-scoped object is the empty string.
#[derive(Debug)]
pub struct ResourceObject {
    pub kind: ResourceType,
    pub namespace: String,
    pub name: String,
    /// The replica count; meaningful for scalable kinds.
    pub replicas: u32,
    /// The restart-stamp annotation on the pod template, if one was written.
    pub restarted_at: Option<String>,
    /// For event objects: the object the event is about.
    pub involved: Option<ObjectRef>,
    /// For event objects: the event message.
    pub message: String,
}

impl Clone for ResourceObject {
    fn clone(&self) -> (r: Self)
        ensures
            r == *self,
    {
        ResourceObject {
            kind: self.kind,
            namespace: self.namespace.clone(),
            name: self.name.clone(),
            replicas: self.replicas,
            restarted_at: match &self.restarted_at {
                Some(s) => Some(s.clone()),
                None => None,
            },
            involved: match &self.involved {
                Some(o) => Some(o.clone()),
                None => None,
            },
            message: self.message.clone(),
        }
    }
}

/// A tagged wrapper around one object, used wherever heterogeneous results
/// must be returned through one channel. Its invariant: the tag always
/// matches the payload's kind.
pub struct ResourceEnvelope {
    tag: ResourceType,
    payload: ResourceObject,
}

impl ResourceEnvelope {
    /// The tag of the envelope.
    pub closed spec fn spec_tag(self) -> ResourceType {
        self.tag
    }

    /// The wrapped object.
    pub closed spec fn spec_payload(self) -> ResourceObject {
        self.payload
    }

    /// The envelope's invariant: the tag matches the payload's kind.
    pub open spec fn wf(self) -> bool {
        self.spec_tag() == self.spec_payload().kind
    }

    /// Wrap one object under the tag of its own kind.
    pub fn wrap(obj: ResourceObject) -> (e: Self)
        ensures
            e == spec_wrap(obj),
            e.wf(),
    {
        ResourceEnvelope { tag: obj.kind, payload: obj }
    }

    /// The tag, without consuming the envelope.
    pub fn tag(&self) -> (t: ResourceType)
        ensures
            t == self.spec_tag(),
    {
        self.tag
    }

    /// Borrow the wrapped object.
    pub fn payload(&self) -> (o: &ResourceObject)
        ensures
            *o == self.spec_payload(),
    {
        &self.payload
    }

    /// Read the wrapped object back out.
    pub fn open_envelope(self) -> (o: ResourceObject)
        ensures
            o == self.spec_payload(),
    {
        self.payload
    }
}

impl Clone for ResourceEnvelope {
    fn clone(&self) -> (r: Self)
        ensures
            r == *self,
    {
        ResourceEnvelope { tag: self.tag, payload: self.payload.clone() }
    }
}

/// What wrapping an object yields: the object under the tag of its kind.
pub closed spec fn spec_wrap(obj: ResourceObject) -> ResourceEnvelope {
    ResourceEnvelope { tag: obj.kind, payload: obj }
}

/// Law: wrapping an object and reading it back yields the same object, and
/// the envelope's tag equals the object's kind.
pub proof fn lemma_envelope_round_trip(obj: ResourceObject)
    ensures
        spec_wrap(obj).spec_payload() == obj,
        spec_wrap(obj).spec_tag() == obj.kind,
        spec_wrap(obj).wf(),
{
}

} // verus!
