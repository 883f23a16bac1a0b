//! The coordinator on top of a ZooKeeper ensemble.
//!
//! Nothing here talks to the ensemble. Each operation says what is to be
//! asked of the ensemble and takes the answer as a plain value.
use crate::coordinator::lock::NonBlockingLock;
use crate::coordinator::lock::NonBlockingLockView;
use crate::coordinator::node_id::NodeId;
use crate::coordinator::node_id::NodeIdView;
use vstd::prelude::*;

pub mod admin;
pub mod cleaner;
pub mod paths;

verus! {

/// Why an operation on the ensemble failed, as far as the coordinator cares.
#[derive(Debug, PartialEq, Eq)]
pub enum ZkFailure {
    /// The node does not exist.
    NoNode,
    /// The node has children.
    NotEmpty,
    /// The operation timed out.
    OperationTimeout,
    /// Anything else; the text says what.
    Other(String),
}

/// What a `ZkFailure` holds.
pub enum ZkFailureView {
    NoNode,
    NotEmpty,
    OperationTimeout,
    Other(Seq<char>),
}

impl ZkFailureView {
    /// The text that describes the failure.
    pub open spec fn text(self) -> Seq<char> {
        match self {
            ZkFailureView::NoNode => "NoNode"@,
            ZkFailureView::NotEmpty => "NotEmpty"@,
            ZkFailureView::OperationTimeout => "OperationTimeout"@,
            ZkFailureView::Other(text) => text,
        }
    }
}

impl View for ZkFailure {
    type V = ZkFailureView;

    open spec fn view(&self) -> ZkFailureView {
        match self {
            ZkFailure::NoNode => ZkFailureView::NoNode,
            ZkFailure::NotEmpty => ZkFailureView::NotEmpty,
            ZkFailure::OperationTimeout => ZkFailureView::OperationTimeout,
            ZkFailure::Other(text) => ZkFailureView::Other(text@),
        }
    }
}

impl DeepView for ZkFailure {
    type V = ZkFailureView;

    open spec fn deep_view(&self) -> ZkFailureView {
        self@
    }
}

impl ZkFailure {
    /// The text that describes the failure.
    pub fn text(&self) -> (text: String)
        ensures
            text@ == self@.text(),
    {
        match self {
            ZkFailure::NoNode => "NoNode".to_owned(),
            ZkFailure::NotEmpty => "NotEmpty".to_owned(),
            ZkFailure::OperationTimeout => "OperationTimeout".to_owned(),
            ZkFailure::Other(text) => text.clone(),
        }
    }

    /// Whether the operation timed out.
    pub fn is_timeout(&self) -> (timeout: bool)
        ensures
            timeout == (self@ is OperationTimeout),
    {
        match self {
            ZkFailure::OperationTimeout => true,
            _ => false,
        }
    }
}

/// How the background cleanup of the ensemble is to run.
#[derive(Clone, Copy, Debug, PartialEq, Eq, Structural)]
pub struct CleanupConfig {
    /// The most nodes to delete in one cycle.
    pub limit: usize,
    /// The least seconds to wait between two cycles.
    pub interval_min: u64,
    /// The most seconds to wait between two cycles.
    pub interval_max: u64,
}

/// Distributed coordination on top of a ZooKeeper ensemble, for one node of
/// the control plane.
pub struct Zookeeper {
    cleanup: CleanupConfig,
    node_id: NodeId,
}

impl Zookeeper {
    /// The identity of the node, as plain values.
    pub closed spec fn spec_node_id(&self) -> NodeIdView {
        self.node_id@
    }

    /// How the cleanup is to run.
    pub closed spec fn spec_cleanup(&self) -> CleanupConfig {
        self.cleanup
    }

    /// The coordinator of the node `node_id`.
    pub fn new(node_id: NodeId, cleanup: CleanupConfig) -> (zookeeper: Zookeeper)
        ensures
            zookeeper.spec_node_id() == node_id@,
            zookeeper.spec_cleanup() == cleanup,
    {
        Zookeeper { cleanup, node_id }
    }

    /// The lock `lock`, to be held by this node. It is not acquired yet.
    pub fn non_blocking_lock(&self, lock: String) -> (handle: NonBlockingLock)
        ensures
            handle@ == (NonBlockingLockView {
                name: lock@,
                owner: self.spec_node_id(),
                acquired: false,
            }),
    {
        NonBlockingLock::new(lock, self.node_id.clone())
    }

    /// The identity of this node.
    pub fn node_id(&self) -> (node_id: &NodeId)
        ensures
            node_id@ == self.spec_node_id(),
    {
        &self.node_id
    }

    /// Where the registration of this node is kept.
    pub fn node_path(&self) -> (path: String)
        ensures
            path@ == paths::key_path(paths::NODES_ROOT@, self.spec_node_id().uuid),
    {
        paths::path_from_key(paths::NODES_ROOT, self.node_id.uuid.as_str())
    }

    /// Where the lock `lock` is kept.
    pub fn lock_path(&self, lock: &str) -> (path: String)
        ensures
            path@ == paths::key_path(paths::LOCKS_ROOT@, lock@),
    {
        paths::path_from_key(paths::LOCKS_ROOT, lock)
    }

    /// The cleaner of the ensemble for this node.
    pub fn cleaner(&self) -> (cleaner: cleaner::Cleaner)
        ensures
            cleaner.config() == self.spec_cleanup(),
    {
        cleaner::Cleaner::new(self.cleanup)
    }
}

} // verus!
