//! The cluster context: the pair of a kubeconfig locator and a context name
//! that selects one cluster and credential set. Resolved into a live
//! connection outside the library, once per call.

use vstd::prelude::*;

verus! {

/// An immutable (config locator, context name) pair.
pub struct ClusterContext {
    pub config_locator: String,
    pub context_name: String,
}

impl ClusterContext {
    /// Bundle a config locator and a context name.
    pub fn new(config_locator: String, context_name: String) -> (c: Self)
        ensures
            c.config_locator == config_locator,
            c.context_name == context_name,
    {
        ClusterContext { config_locator, context_name }
    }
}

impl Clone for ClusterContext {
    fn clone(&self) -> (r: Self)
        ensures
            r == *self,
    {
        ClusterContext {
            config_locator: self.config_locator.clone(),
            context_name: self.context_name.clone(),
        }
    }
}

} // verus!
