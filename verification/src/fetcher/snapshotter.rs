//! Snapshots: events that describe the state of a cluster after a refresh.
use crate::clock::Timestamp;
use crate::models::agent::Agent;
use crate::models::agent::AgentInfo;
use crate::models::agent::AgentInfoView;
use crate::models::agent::AgentView;
use crate::models::cluster::ClusterDiscovery;
use crate::models::cluster::ClusterDiscoveryView;
use crate::models::datastore::Node;
use crate::models::datastore::NodeView;
use crate::models::datastore::Shard;
use crate::models::datastore::ShardView;
use crate::models::events::Event;
use crate::models::events::EventPayloadView;
use crate::models::events::EventView;
use vstd::prelude::*;

verus! {

/// The state of a cluster as the primary store holds it.
pub struct ClusterState {
    pub discovery: ClusterDiscovery,
    pub agents: Vec<Agent>,
    pub agents_info: Vec<AgentInfo>,
    pub nodes: Vec<Node>,
    pub shards: Vec<Shard>,
}

/// What a `ClusterState` holds.
pub struct ClusterStateView {
    pub discovery: ClusterDiscoveryView,
    pub agents: Seq<AgentView>,
    pub agents_info: Seq<AgentInfoView>,
    pub nodes: Seq<NodeView>,
    pub shards: Seq<ShardView>,
}

impl View for ClusterState {
    type V = ClusterStateView;

    open spec fn view(&self) -> ClusterStateView {
        ClusterStateView {
            discovery: self.discovery@,
            agents: self.agents.deep_view(),
            agents_info: self.agents_info.deep_view(),
            nodes: self.nodes.deep_view(),
            shards: self.shards.deep_view(),
        }
    }
}

/// The events of a snapshot taken at the instant `now`: one for the discovery
/// record, then one for each agent, for the build of each agent, for each
/// node and for each shard, in the order in which the state lists them.
pub open spec fn snapshot_of(state: ClusterStateView, now: Timestamp) -> Seq<EventView> {
    seq![
        EventView {
            payload: EventPayloadView::SnapshotDiscovery(state.discovery),
            timestamp: now,
        },
    ] + Seq::new(
        state.agents.len(),
        |i: int|
            EventView {
                payload: EventPayloadView::SnapshotAgent(state.agents[i]),
                timestamp: now,
            },
    ) + Seq::new(
        state.agents_info.len(),
        |i: int|
            EventView {
                payload: EventPayloadView::SnapshotAgentInfo(state.agents_info[i]),
                timestamp: now,
            },
    ) + Seq::new(
        state.nodes.len(),
        |i: int|
            EventView { payload: EventPayloadView::SnapshotNode(state.nodes[i]), timestamp: now },
    ) + Seq::new(
        state.shards.len(),
        |i: int|
            EventView {
                payload: EventPayloadView::SnapshotShard(state.shards[i]),
                timestamp: now,
            },
    )
}

/// A snapshot holds one event more than the state holds records, and every
/// event of a snapshot carries the instant at which the snapshot was taken.
pub proof fn lemma_snapshot_stamps(state: ClusterStateView, now: Timestamp, i: int)
    requires
        0 <= i < snapshot_of(state, now).len(),
    ensures
        snapshot_of(state, now).len() == 1 + state.agents.len() + state.agents_info.len()
            + state.nodes.len() + state.shards.len(),
        snapshot_of(state, now)[i].timestamp == now,
        snapshot_of(state, now)[i].payload.family()
            == crate::models::events::EventFamily::Snapshot,
{
}

fn agents_part(agents: &Vec<Agent>, now: Timestamp) -> (events: Vec<Event>)
    ensures
        events.deep_view() == Seq::new(
            agents.deep_view().len(),
            |i: int|
                EventView {
                    payload: EventPayloadView::SnapshotAgent(agents.deep_view()[i]),
                    timestamp: now,
                },
        ),
{
    let mut events: Vec<Event> = Vec::new();
    let mut i: usize = 0;
    while i < agents.len()
        invariant
            i <= agents.len(),
            events.len() == i,
            forall|j: int|
                0 <= j < i ==> (#[trigger] events[j])@ == (EventView {
                    payload: EventPayloadView::SnapshotAgent(agents[j]@),
                    timestamp: now,
                }),
        decreases agents.len() - i,
    {
        events.push(Event::builder().timestamp(now).snapshot().agent(agents[i].clone()));
        i += 1;
    }
    assert(events.deep_view() =~= Seq::new(
        agents.deep_view().len(),
        |i: int|
            EventView {
                payload: EventPayloadView::SnapshotAgent(agents.deep_view()[i]),
                timestamp: now,
            },
    ));
    events
}

fn agents_info_part(agents_info: &Vec<AgentInfo>, now: Timestamp) -> (events: Vec<Event>)
    ensures
        events.deep_view() == Seq::new(
            agents_info.deep_view().len(),
            |i: int|
                EventView {
                    payload: EventPayloadView::SnapshotAgentInfo(agents_info.deep_view()[i]),
                    timestamp: now,
                },
        ),
{
    let mut events: Vec<Event> = Vec::new();
    let mut i: usize = 0;
    while i < agents_info.len()
        invariant
            i <= agents_info.len(),
            events.len() == i,
            forall|j: int|
                0 <= j < i ==> (#[trigger] events[j])@ == (EventView {
                    payload: EventPayloadView::SnapshotAgentInfo(agents_info[j]@),
                    timestamp: now,
                }),
        decreases agents_info.len() - i,
    {
        events.push(Event::builder().timestamp(now).snapshot().agent_info(agents_info[i].clone()));
        i += 1;
    }
    assert(events.deep_view() =~= Seq::new(
        agents_info.deep_view().len(),
        |i: int|
            EventView {
                payload: EventPayloadView::SnapshotAgentInfo(agents_info.deep_view()[i]),
                timestamp: now,
            },
    ));
    events
}

fn nodes_part(nodes: &Vec<Node>, now: Timestamp) -> (events: Vec<Event>)
    ensures
        events.deep_view() == Seq::new(
            nodes.deep_view().len(),
            |i: int|
                EventView {
                    payload: EventPayloadView::SnapshotNode(nodes.deep_view()[i]),
                    timestamp: now,
                },
        ),
{
    let mut events: Vec<Event> = Vec::new();
    let mut i: usize = 0;
    while i < nodes.len()
        invariant
            i <= nodes.len(),
            events.len() == i,
            forall|j: int|
                0 <= j < i ==> (#[trigger] events[j])@ == (EventView {
                    payload: EventPayloadView::SnapshotNode(nodes[j]@),
                    timestamp: now,
                }),
        decreases nodes.len() - i,
    {
        events.push(Event::builder().timestamp(now).snapshot().node(nodes[i].clone()));
        i += 1;
    }
    assert(events.deep_view() =~= Seq::new(
        nodes.deep_view().len(),
        |i: int|
            EventView {
                payload: EventPayloadView::SnapshotNode(nodes.deep_view()[i]),
                timestamp: now,
            },
    ));
    events
}

fn shards_part(shards: &Vec<Shard>, now: Timestamp) -> (events: Vec<Event>)
    ensures
        events.deep_view() == Seq::new(
            shards.deep_view().len(),
            |i: int|
                EventView {
                    payload: EventPayloadView::SnapshotShard(shards.deep_view()[i]),
                    timestamp: now,
                },
        ),
{
    let mut events: Vec<Event> = Vec::new();
    let mut i: usize = 0;
    while i < shards.len()
        invariant
            i <= shards.len(),
            events.len() == i,
            forall|j: int|
                0 <= j < i ==> (#[trigger] events[j])@ == (EventView {
                    payload: EventPayloadView::SnapshotShard(shards[j]@),
                    timestamp: now,
                }),
        decreases shards.len() - i,
    {
        events.push(Event::builder().timestamp(now).snapshot().shard(shards[i].clone()));
        i += 1;
    }
    assert(events.deep_view() =~= Seq::new(
        shards.deep_view().len(),
        |i: int|
            EventView {
                payload: EventPayloadView::SnapshotShard(shards.deep_view()[i]),
                timestamp: now,
            },
    ));
    events
}

fn extend(events: &mut Vec<Event>, more: Vec<Event>)
    ensures
        final(events).deep_view() == old(events).deep_view() + more.deep_view(),
{
    let ghost before = events.deep_view();
    let ghost added = more.deep_view();
    let mut more = more;
    events.append(&mut more);
    assert(events.deep_view() =~= before + added);
}

/// Builds the events of a snapshot.
pub struct Snapshotter {}

impl Snapshotter {
    /// The events that describe `state` at the instant `now`.
    pub fn events(state: &ClusterState, now: Timestamp) -> (events: Vec<Event>)
        ensures
            events.deep_view() == snapshot_of(state@, now),
    {
        let mut events: Vec<Event> = Vec::new();
        events.push(Event::builder().timestamp(now).snapshot().discovery(state.discovery.clone()));
        assert(events.deep_view() =~= seq![
            EventView {
                payload: EventPayloadView::SnapshotDiscovery(state@.discovery),
                timestamp: now,
            },
        ]);
        extend(&mut events, agents_part(&state.agents, now));
        extend(&mut events, agents_info_part(&state.agents_info, now));
        extend(&mut events, nodes_part(&state.nodes, now));
        extend(&mut events, shards_part(&state.shards, now));
        events
    }
}

} // verus!
