//! Events: what changed in the observed clusters, and when.
use crate::clock::Timestamp;
use crate::models::agent::Agent;
use crate::models::agent::AgentInfo;
use crate::models::agent::AgentInfoView;
use crate::models::agent::AgentView;
use crate::models::cluster::ClusterDiscovery;
use crate::models::cluster::ClusterDiscoveryView;
use crate::models::datastore::Node;
use crate::models::datastore::NodeView;
use crate::models::datastore::Shard;
use crate::models::datastore::ShardView;
use vstd::prelude::*;

pub mod builder;

verus! {

/// What an event reports. The variants fall into the families cluster, agent,
/// node, shard and snapshot.
#[derive(Debug, PartialEq, Eq)]
#[allow(inconsistent_fields)]
pub enum EventPayload {
    /// A cluster was discovered for the first time.
    ClusterNew(ClusterDiscovery),
    /// The discovery record of a cluster changed.
    ClusterChanged { before: ClusterDiscovery, after: ClusterDiscovery },
    /// An agent was seen for the first time.
    AgentNew(Agent),
    /// A node was seen for the first time.
    NodeNew(Node),
    /// The identity of a node changed.
    NodeChanged { before: Node, after: Node },
    /// A shard was seen on a node for the first time.
    ShardAllocationNew(Shard),
    /// A stable attribute of a shard on a node changed.
    ShardAllocationChanged { before: Shard, after: Shard },
    /// The state of an agent at the time of a snapshot.
    SnapshotAgent(Agent),
    /// The build of an agent at the time of a snapshot.
    SnapshotAgentInfo(AgentInfo),
    /// The discovery record of a cluster at the time of a snapshot.
    SnapshotDiscovery(ClusterDiscovery),
    /// The state of a node at the time of a snapshot.
    SnapshotNode(Node),
    /// The state of a shard at the time of a snapshot.
    SnapshotShard(Shard),
}

/// What an `EventPayload` holds.
#[allow(inconsistent_fields)]
pub enum EventPayloadView {
    ClusterNew(ClusterDiscoveryView),
    ClusterChanged { before: ClusterDiscoveryView, after: ClusterDiscoveryView },
    AgentNew(AgentView),
    NodeNew(NodeView),
    NodeChanged { before: NodeView, after: NodeView },
    ShardAllocationNew(ShardView),
    ShardAllocationChanged { before: ShardView, after: ShardView },
    SnapshotAgent(AgentView),
    SnapshotAgentInfo(AgentInfoView),
    SnapshotDiscovery(ClusterDiscoveryView),
    SnapshotNode(NodeView),
    SnapshotShard(ShardView),
}

/// The families of events.
#[derive(Clone, Copy, Debug, PartialEq, Eq, Structural)]
pub enum EventFamily {
    Cluster,
    Agent,
    Node,
    Shard,
    Snapshot,
}

impl EventPayloadView {
    /// The family the payload belongs to.
    pub open spec fn family(self) -> EventFamily {
        match self {
            EventPayloadView::ClusterNew(_) => EventFamily::Cluster,
            EventPayloadView::ClusterChanged { .. } => EventFamily::Cluster,
            EventPayloadView::AgentNew(_) => EventFamily::Agent,
            EventPayloadView::NodeNew(_) => EventFamily::Node,
            EventPayloadView::NodeChanged { .. } => EventFamily::Node,
            EventPayloadView::ShardAllocationNew(_) => EventFamily::Shard,
            EventPayloadView::ShardAllocationChanged { .. } => EventFamily::Shard,
            EventPayloadView::SnapshotAgent(_) => EventFamily::Snapshot,
            EventPayloadView::SnapshotAgentInfo(_) => EventFamily::Snapshot,
            EventPayloadView::SnapshotDiscovery(_) => EventFamily::Snapshot,
            EventPayloadView::SnapshotNode(_) => EventFamily::Snapshot,
            EventPayloadView::SnapshotShard(_) => EventFamily::Snapshot,
        }
    }

    /// The name of the kind of event, which starts with the name of its family.
    pub open spec fn code(self) -> Seq<char> {
        match self {
            EventPayloadView::ClusterNew(_) => "CLUSTER_NEW"@,
            EventPayloadView::ClusterChanged { .. } => "CLUSTER_CHANGED"@,
            EventPayloadView::AgentNew(_) => "AGENT_NEW"@,
            EventPayloadView::NodeNew(_) => "NODE_NEW"@,
            EventPayloadView::NodeChanged { .. } => "NODE_CHANGED"@,
            EventPayloadView::ShardAllocationNew(_) => "SHARD_ALLOCATION_NEW"@,
            EventPayloadView::ShardAllocationChanged { .. } => "SHARD_ALLOCATION_CHANGED"@,
            EventPayloadView::SnapshotAgent(_) => "SNAPSHOT_AGENT"@,
            EventPayloadView::SnapshotAgentInfo(_) => "SNAPSHOT_AGENT_INFO"@,
            EventPayloadView::SnapshotDiscovery(_) => "SNAPSHOT_DISCOVERY"@,
            EventPayloadView::SnapshotNode(_) => "SNAPSHOT_NODE"@,
            EventPayloadView::SnapshotShard(_) => "SNAPSHOT_SHARD"@,
        }
    }

    /// The cluster the event is about.
    pub open spec fn cluster_id(self) -> Seq<char> {
        match self {
            EventPayloadView::ClusterNew(discovery) => discovery.cluster_id,
            EventPayloadView::ClusterChanged { after, .. } => after.cluster_id,
            EventPayloadView::AgentNew(agent) => agent.cluster_id,
            EventPayloadView::NodeNew(node) => node.cluster_id,
            EventPayloadView::NodeChanged { after, .. } => after.cluster_id,
            EventPayloadView::ShardAllocationNew(shard) => shard.cluster_id,
            EventPayloadView::ShardAllocationChanged { after, .. } => after.cluster_id,
            EventPayloadView::SnapshotAgent(agent) => agent.cluster_id,
            EventPayloadView::SnapshotAgentInfo(info) => info.cluster_id,
            EventPayloadView::SnapshotDiscovery(discovery) => discovery.cluster_id,
            EventPayloadView::SnapshotNode(node) => node.cluster_id,
            EventPayloadView::SnapshotShard(shard) => shard.cluster_id,
        }
    }
}

impl View for EventPayload {
    type V = EventPayloadView;

    open spec fn view(&self) -> EventPayloadView {
        match self {
            EventPayload::ClusterNew(discovery) => EventPayloadView::ClusterNew(discovery@),
            EventPayload::ClusterChanged { before, after } => EventPayloadView::ClusterChanged {
                before: before@,
                after: after@,
            },
            EventPayload::AgentNew(agent) => EventPayloadView::AgentNew(agent@),
            EventPayload::NodeNew(node) => EventPayloadView::NodeNew(node@),
            EventPayload::NodeChanged { before, after } => EventPayloadView::NodeChanged {
                before: before@,
                after: after@,
            },
            EventPayload::ShardAllocationNew(shard) => EventPayloadView::ShardAllocationNew(shard@),
            EventPayload::ShardAllocationChanged {
                before,
                after,
            } => EventPayloadView::ShardAllocationChanged { before: before@, after: after@ },
            EventPayload::SnapshotAgent(agent) => EventPayloadView::SnapshotAgent(agent@),
            EventPayload::SnapshotAgentInfo(info) => EventPayloadView::SnapshotAgentInfo(info@),
            EventPayload::SnapshotDiscovery(discovery) => EventPayloadView::SnapshotDiscovery(
                discovery@,
            ),
            EventPayload::SnapshotNode(node) => EventPayloadView::SnapshotNode(node@),
            EventPayload::SnapshotShard(shard) => EventPayloadView::SnapshotShard(shard@),
        }
    }
}

impl DeepView for EventPayload {
    type V = EventPayloadView;

    open spec fn deep_view(&self) -> EventPayloadView {
        self@
    }
}

impl Clone for EventPayload {
    fn clone(&self) -> (out: Self)
        ensures
            out@ == self@,
    {
        match self {
            EventPayload::ClusterNew(discovery) => EventPayload::ClusterNew(discovery.clone()),
            EventPayload::ClusterChanged { before, after } => EventPayload::ClusterChanged {
                before: before.clone(),
                after: after.clone(),
            },
            EventPayload::AgentNew(agent) => EventPayload::AgentNew(agent.clone()),
            EventPayload::NodeNew(node) => EventPayload::NodeNew(node.clone()),
            EventPayload::NodeChanged { before, after } => EventPayload::NodeChanged {
                before: before.clone(),
                after: after.clone(),
            },
            EventPayload::ShardAllocationNew(shard) => EventPayload::ShardAllocationNew(
                shard.clone(),
            ),
            EventPayload::ShardAllocationChanged {
                before,
                after,
            } => EventPayload::ShardAllocationChanged {
                before: before.clone(),
                after: after.clone(),
            },
            EventPayload::SnapshotAgent(agent) => EventPayload::SnapshotAgent(agent.clone()),
            EventPayload::SnapshotAgentInfo(info) => EventPayload::SnapshotAgentInfo(info.clone()),
            EventPayload::SnapshotDiscovery(discovery) => EventPayload::SnapshotDiscovery(
                discovery.clone(),
            ),
            EventPayload::SnapshotNode(node) => EventPayload::SnapshotNode(node.clone()),
            EventPayload::SnapshotShard(shard) => EventPayload::SnapshotShard(shard.clone()),
        }
    }
}

impl EventPayload {
    /// The family the payload belongs to.
    pub fn family(&self) -> (family: EventFamily)
        ensures
            family == self@.family(),
    {
        match self {
            EventPayload::ClusterNew(_) => EventFamily::Cluster,
            EventPayload::ClusterChanged { .. } => EventFamily::Cluster,
            EventPayload::AgentNew(_) => EventFamily::Agent,
            EventPayload::NodeNew(_) => EventFamily::Node,
            EventPayload::NodeChanged { .. } => EventFamily::Node,
            EventPayload::ShardAllocationNew(_) => EventFamily::Shard,
            EventPayload::ShardAllocationChanged { .. } => EventFamily::Shard,
            EventPayload::SnapshotAgent(_) => EventFamily::Snapshot,
            EventPayload::SnapshotAgentInfo(_) => EventFamily::Snapshot,
            EventPayload::SnapshotDiscovery(_) => EventFamily::Snapshot,
            EventPayload::SnapshotNode(_) => EventFamily::Snapshot,
            EventPayload::SnapshotShard(_) => EventFamily::Snapshot,
        }
    }

    /// The name of the kind of event, which starts with the name of its family.
    pub fn code(&self) -> (code: &'static str)
        ensures
            code@ == self@.code(),
    {
        match self {
            EventPayload::ClusterNew(_) => "CLUSTER_NEW",
            EventPayload::ClusterChanged { .. } => "CLUSTER_CHANGED",
            EventPayload::AgentNew(_) => "AGENT_NEW",
            EventPayload::NodeNew(_) => "NODE_NEW",
            EventPayload::NodeChanged { .. } => "NODE_CHANGED",
            EventPayload::ShardAllocationNew(_) => "SHARD_ALLOCATION_NEW",
            EventPayload::ShardAllocationChanged { .. } => "SHARD_ALLOCATION_CHANGED",
            EventPayload::SnapshotAgent(_) => "SNAPSHOT_AGENT",
            EventPayload::SnapshotAgentInfo(_) => "SNAPSHOT_AGENT_INFO",
            EventPayload::SnapshotDiscovery(_) => "SNAPSHOT_DISCOVERY",
            EventPayload::SnapshotNode(_) => "SNAPSHOT_NODE",
            EventPayload::SnapshotShard(_) => "SNAPSHOT_SHARD",
        }
    }

    /// The cluster the event is about.
    pub fn cluster_id(&self) -> (cluster_id: String)
        ensures
            cluster_id@ == self@.cluster_id(),
    {
        match self {
            EventPayload::ClusterNew(discovery) => discovery.cluster_id.clone(),
            EventPayload::ClusterChanged { after, .. } => after.cluster_id.clone(),
            EventPayload::AgentNew(agent) => agent.cluster_id.clone(),
            EventPayload::NodeNew(node) => node.cluster_id.clone(),
            EventPayload::NodeChanged { after, .. } => after.cluster_id.clone(),
            EventPayload::ShardAllocationNew(shard) => shard.cluster_id.clone(),
            EventPayload::ShardAllocationChanged { after, .. } => after.cluster_id.clone(),
            EventPayload::SnapshotAgent(agent) => agent.cluster_id.clone(),
            EventPayload::SnapshotAgentInfo(info) => info.cluster_id.clone(),
            EventPayload::SnapshotDiscovery(discovery) => discovery.cluster_id.clone(),
            EventPayload::SnapshotNode(node) => node.cluster_id.clone(),
            EventPayload::SnapshotShard(shard) => shard.cluster_id.clone(),
        }
    }
}

/// An event: what happened and when. Events are only ever appended.
#[derive(Debug, PartialEq, Eq)]
pub struct Event {
    pub payload: EventPayload,
    pub timestamp: Timestamp,
}

/// What an `Event` holds.
pub struct EventView {
    pub payload: EventPayloadView,
    pub timestamp: Timestamp,
}

impl View for Event {
    type V = EventView;

    open spec fn view(&self) -> EventView {
        EventView { payload: self.payload@, timestamp: self.timestamp }
    }
}

impl DeepView for Event {
    type V = EventView;

    open spec fn deep_view(&self) -> EventView {
        self@
    }
}

impl Clone for Event {
    fn clone(&self) -> (out: Self)
        ensures
            out@ == self@,
    {
        Event { payload: self.payload.clone(), timestamp: self.timestamp }
    }
}

impl Event {
    /// A builder of events.
    pub fn builder() -> (out: builder::EventBuilder)
        ensures
            out.at() == None::<Timestamp>,
    {
        builder::EventBuilder::new()
    }
}

} // verus!
