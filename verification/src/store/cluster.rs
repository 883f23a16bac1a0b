//! Operations on the models of one cluster.
use crate::models::cluster::ClusterDiscovery;
use crate::store::error::Error;
use crate::store::mock::read_outcome;
use crate::store::mock::write_outcome;
use crate::store::mock::MockStore;
use crate::store::mock::MockStoreView;
use crate::store::mock::StoreOp;
use crate::store::table::cluster_key;
use crate::store::table::staled;
use vstd::prelude::*;

verus! {

/// Attributes attached to all cluster-level operations.
#[derive(Debug, PartialEq, Eq)]
pub struct ClusterAttribures {
    pub cluster_id: String,
    pub namespace: String,
}

/// Operate on cluster-level models.
pub struct Cluster {
    attrs: ClusterAttribures,
}

impl Cluster {
    /// The cluster that the operations are about.
    pub closed spec fn cluster_id(&self) -> Seq<char> {
        self.attrs.cluster_id@
    }

    /// The operations on the cluster that `attrs` names.
    pub fn new(attrs: ClusterAttribures) -> (cluster: Cluster)
        ensures
            cluster.cluster_id() == attrs.cluster_id@,
    {
        Cluster { attrs }
    }

    /// Query a `ClusterDiscovery` record, if any is stored.
    pub fn discovery(&self, store: &MockStore) -> (outcome: core::result::Result<
        Option<ClusterDiscovery>,
        Error,
    >)
        requires
            store.well_formed(),
        ensures
            read_outcome(
                store.fails(StoreOp::ClusterDiscovery),
                store.discoveries@,
                cluster_key(self.cluster_id()),
                outcome,
            ),
    {
        store.cluster_discovery(self.attrs.cluster_id.as_str())
    }

    /// Mark the cluster state as stale until the data is updated.
    ///
    /// The models that go stale are the builds of the agents, the nodes and
    /// the shards. The record of what was last seen of them stays; it is only
    /// marked as not to be trusted. The mark goes away when a refresh writes
    /// the record again.
    pub fn mark_stale(&self, store: &mut MockStore) -> (outcome: core::result::Result<(), Error>)
        requires
            old(store).well_formed(),
        ensures
            final(store).well_formed(),
            write_outcome(
                old(store).fails(StoreOp::MarkStale),
                "updateMany",
                old(store)@,
                MockStoreView {
                    agents_info: staled(old(store)@.agents_info, self.cluster_id()),
                    nodes: staled(old(store)@.nodes, self.cluster_id()),
                    shards: staled(old(store)@.shards, self.cluster_id()),
                    ..old(store)@
                },
                final(store)@,
                outcome,
            ),
    {
        store.mark_stale(self.attrs.cluster_id.as_str())
    }
}

} // verus!
