//! Cluster level models: what discovery found, and the aggregated metadata.
use crate::text::clone_opt_string;
use crate::text::clone_strings;
use crate::text::same_opt_string;
use crate::text::same_strings;
use vstd::prelude::*;

verus! {

/// Cluster description produced by the discovery system.
///
/// The list of nodes holds the address of the agent of each expected member.
#[derive(Debug, PartialEq, Eq)]
pub struct ClusterDiscovery {
    pub cluster_id: String,
    pub display_name: Option<String>,
    pub nodes: Vec<String>,
}

/// What a `ClusterDiscovery` holds.
pub struct ClusterDiscoveryView {
    pub cluster_id: Seq<char>,
    pub display_name: Option<Seq<char>>,
    pub nodes: Seq<Seq<char>>,
}

impl View for ClusterDiscovery {
    type V = ClusterDiscoveryView;

    open spec fn view(&self) -> ClusterDiscoveryView {
        ClusterDiscoveryView {
            cluster_id: self.cluster_id@,
            display_name: self.display_name.deep_view(),
            nodes: self.nodes.deep_view(),
        }
    }
}

impl DeepView for ClusterDiscovery {
    type V = ClusterDiscoveryView;

    open spec fn deep_view(&self) -> ClusterDiscoveryView {
        self@
    }
}

impl Clone for ClusterDiscovery {
    fn clone(&self) -> (out: Self)
        ensures
            out@ == self@,
    {
        ClusterDiscovery {
            cluster_id: self.cluster_id.clone(),
            display_name: clone_opt_string(&self.display_name),
            nodes: clone_strings(&self.nodes),
        }
    }
}

impl ClusterDiscovery {
    /// A discovery record for `cluster_id` with the given agent addresses and
    /// no display name.
    pub fn new(cluster_id: &str, nodes: Vec<String>) -> (out: ClusterDiscovery)
        ensures
            out@ == (ClusterDiscoveryView {
                cluster_id: cluster_id@,
                display_name: None,
                nodes: nodes.deep_view(),
            }),
    {
        ClusterDiscovery { cluster_id: cluster_id.to_owned(), display_name: None, nodes }
    }

    /// The same record with `display_name` as its display name.
    pub fn with_display_name(self, display_name: &str) -> (out: ClusterDiscovery)
        ensures
            out@ == (ClusterDiscoveryView { display_name: Some(display_name@), ..self@ }),
    {
        ClusterDiscovery {
            cluster_id: self.cluster_id,
            display_name: Some(display_name.to_owned()),
            nodes: self.nodes,
        }
    }

    /// Whether both records hold the same values.
    pub fn same(&self, other: &ClusterDiscovery) -> (same: bool)
        ensures
            same == (self@ == other@),
    {
        self.cluster_id == other.cluster_id && same_opt_string(
            &self.display_name,
            &other.display_name,
        ) && same_strings(&self.nodes, &other.nodes)
    }
}

/// Cluster metadata aggregated from the nodes seen by a refresh.
///
/// `kinds` is a set kept as a list: no kind occurs twice (`well_formed`).
#[derive(Debug, PartialEq, Eq)]
pub struct ClusterMeta {
    pub cluster_id: String,
    pub display_name: String,
    pub kinds: Vec<String>,
    pub nodes: i32,
}

/// What a `ClusterMeta` holds.
pub struct ClusterMetaView {
    pub cluster_id: Seq<char>,
    pub display_name: Seq<char>,
    pub kinds: Seq<Seq<char>>,
    pub nodes: int,
}

impl ClusterMetaView {
    /// No kind is listed twice.
    pub open spec fn well_formed(self) -> bool {
        self.kinds.no_duplicates()
    }
}

impl View for ClusterMeta {
    type V = ClusterMetaView;

    open spec fn view(&self) -> ClusterMetaView {
        ClusterMetaView {
            cluster_id: self.cluster_id@,
            display_name: self.display_name@,
            kinds: self.kinds.deep_view(),
            nodes: self.nodes as int,
        }
    }
}

impl DeepView for ClusterMeta {
    type V = ClusterMetaView;

    open spec fn deep_view(&self) -> ClusterMetaView {
        self@
    }
}

impl Clone for ClusterMeta {
    fn clone(&self) -> (out: Self)
        ensures
            out@ == self@,
    {
        ClusterMeta {
            cluster_id: self.cluster_id.clone(),
            display_name: self.display_name.clone(),
            kinds: clone_strings(&self.kinds),
            nodes: self.nodes,
        }
    }
}

impl ClusterMeta {
    /// Metadata of a cluster with nodes of a single kind. The display name
    /// starts out as the cluster's identifier.
    pub fn new(cluster_id: &str, kind: &str, nodes: i32) -> (out: ClusterMeta)
        ensures
            out@ == (ClusterMetaView {
                cluster_id: cluster_id@,
                display_name: cluster_id@,
                kinds: seq![kind@],
                nodes: nodes as int,
            }),
            out@.well_formed(),
    {
        let mut kinds: Vec<String> = Vec::new();
        kinds.push(kind.to_owned());
        assert(kinds.deep_view() =~= seq![kind@]);
        ClusterMeta {
            cluster_id: cluster_id.to_owned(),
            display_name: cluster_id.to_owned(),
            kinds,
            nodes,
        }
    }

    /// Whether both records hold the same values.
    pub fn same(&self, other: &ClusterMeta) -> (same: bool)
        ensures
            same == (self@ == other@),
    {
        self.cluster_id == other.cluster_id && self.display_name == other.display_name
            && same_strings(&self.kinds, &other.kinds) && self.nodes == other.nodes
    }
}

} // verus!
