//! Events of the snapshot family.
use crate::clock::Timestamp;
use crate::models::agent::Agent;
use crate::models::agent::AgentInfo;
use crate::models::cluster::ClusterDiscovery;
use crate::models::datastore::Node;
use crate::models::datastore::Shard;
use crate::models::events::builder::EventBuilder;
use crate::models::events::Event;
use crate::models::events::EventPayload;
use crate::models::events::EventPayloadView;
use vstd::prelude::*;

verus! {

/// Builds events of the snapshot family.
pub struct SnapshotBuilder {
    builder: EventBuilder,
}

impl SnapshotBuilder {
    /// The instant the built event will carry, if one was set.
    pub closed spec fn at(&self) -> Option<Timestamp> {
        self.builder.at()
    }

    /// A builder of snapshot events on top of `builder`.
    pub fn builder(builder: EventBuilder) -> (out: SnapshotBuilder)
        ensures
            out.at() == builder.at(),
    {
        SnapshotBuilder { builder }
    }

    /// The snapshot of an agent.
    pub fn agent(self, agent: Agent) -> (event: Event)
        ensures
            event@.payload == EventPayloadView::SnapshotAgent(agent@),
            self.at() matches Some(timestamp) ==> event@.timestamp == timestamp,
    {
        let data = EventPayload::SnapshotAgent(agent);
        self.builder.build(data)
    }

    /// The snapshot of the build of an agent.
    pub fn agent_info(self, info: AgentInfo) -> (event: Event)
        ensures
            event@.payload == EventPayloadView::SnapshotAgentInfo(info@),
            self.at() matches Some(timestamp) ==> event@.timestamp == timestamp,
    {
        let data = EventPayload::SnapshotAgentInfo(info);
        self.builder.build(data)
    }

    /// The snapshot of a discovery record.
    pub fn discovery(self, discovery: ClusterDiscovery) -> (event: Event)
        ensures
            event@.payload == EventPayloadView::SnapshotDiscovery(discovery@),
            self.at() matches Some(timestamp) ==> event@.timestamp == timestamp,
    {
        let data = EventPayload::SnapshotDiscovery(discovery);
        self.builder.build(data)
    }

    /// The snapshot of a node.
    pub fn node(self, node: Node) -> (event: Event)
        ensures
            event@.payload == EventPayloadView::SnapshotNode(node@),
            self.at() matches Some(timestamp) ==> event@.timestamp == timestamp,
    {
        let data = EventPayload::SnapshotNode(node);
        self.builder.build(data)
    }

    /// The snapshot of a shard.
    pub fn shard(self, shard: Shard) -> (event: Event)
        ensures
            event@.payload == EventPayloadView::SnapshotShard(shard@),
            self.at() matches Some(timestamp) ==> event@.timestamp == timestamp,
    {
        let data = EventPayload::SnapshotShard(shard);
        self.builder.build(data)
    }
}

} // verus!
