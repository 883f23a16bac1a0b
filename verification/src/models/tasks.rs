//! What the tasks of the control plane carry.
use crate::models::cluster::ClusterDiscovery;
use crate::models::cluster::ClusterDiscoveryView;
use vstd::prelude::*;

verus! {

/// Cluster refresh task parameters.
#[derive(Debug, PartialEq, Eq)]
pub struct ClusterRefreshPayload {
    pub cluster: ClusterDiscovery,
    pub snapshot: bool,
}

/// What a `ClusterRefreshPayload` holds.
pub struct ClusterRefreshPayloadView {
    pub cluster: ClusterDiscoveryView,
    pub snapshot: bool,
}

impl View for ClusterRefreshPayload {
    type V = ClusterRefreshPayloadView;

    open spec fn view(&self) -> ClusterRefreshPayloadView {
        ClusterRefreshPayloadView { cluster: self.cluster@, snapshot: self.snapshot }
    }
}

impl DeepView for ClusterRefreshPayload {
    type V = ClusterRefreshPayloadView;

    open spec fn deep_view(&self) -> ClusterRefreshPayloadView {
        self@
    }
}

impl Clone for ClusterRefreshPayload {
    fn clone(&self) -> (out: Self)
        ensures
            out@ == self@,
    {
        ClusterRefreshPayload { cluster: self.cluster.clone(), snapshot: self.snapshot }
    }
}

impl ClusterRefreshPayload {
    /// The parameters of the refresh of `cluster`, with or without a snapshot.
    pub fn new(cluster: ClusterDiscovery, snapshot: bool) -> (payload: ClusterRefreshPayload)
        ensures
            payload@ == (ClusterRefreshPayloadView { cluster: cluster@, snapshot }),
    {
        ClusterRefreshPayload { cluster, snapshot }
    }
}

} // verus!
