//! The declarative data model: the desired topic state and the lifecycle
//! metadata of the resource that carries it.

use vstd::prelude::*;

verus! {

/// The immutable declaration of desired topic state, one per resource.
#[derive(Clone, Debug, PartialEq)]
pub struct KafkaTopicSpec {
    /// Address of the message-bus cluster; must be non-empty.
    pub bootstrap_server: String,
    /// Topic name, unique within the backend's namespace; must be non-empty.
    pub topic: String,
    /// Number of partitions; at least 1.
    pub partitions: i32,
    /// Replication factor; at least 1.
    pub replication_factor: i32,
}

impl KafkaTopicSpec {
    /// Structural validity of the declaration.
    pub open spec fn valid(self) -> bool {
        &&& self.bootstrap_server@.len() > 0
        &&& self.topic@.len() > 0
        &&& self.partitions >= 1
        &&& self.replication_factor >= 1
    }

    /// Checks the declaration's validity rules.
    pub fn is_valid(&self) -> (r: bool)
        ensures
            r == self.valid(),
    {
        !self.bootstrap_server.as_str().is_empty() && !self.topic.as_str().is_empty()
            && self.partitions >= 1 && self.replication_factor >= 1
    }
}

/// Identity and lifecycle metadata of the declarative resource, as read from
/// the cluster store at the start of a reconciliation pass.
#[derive(Clone, Debug, PartialEq)]
pub struct ResourceHandle {
    /// Resource name.
    pub name: String,
    /// Resource namespace; reconciliation rejects a handle without one.
    pub namespace: Option<String>,
    /// True once deletion has been requested upstream; never reverts.
    pub deletion_requested: bool,
    /// True while the lifecycle guard marker is attached.
    pub guard_present: bool,
}

impl ResourceHandle {
    /// A handle passes validation exactly when it carries a namespace.
    pub open spec fn namespaced(self) -> bool {
        self.namespace is Some
    }
}

} // verus!
