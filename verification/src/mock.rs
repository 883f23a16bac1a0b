//! An in-memory world for the refresh of clusters: a primary store, an
//! events stream, a coordinator, and agents that answer as scripted.
//!
//! The world answers what the fetcher, the aggregator and the handler of
//! refresh tasks ask for, so that a whole refresh can run without any
//! service behind it.
use crate::aggregator::Aggregator;
use crate::aggregator::AggregatorView;
use crate::aggregator::Request as AggregateRequest;
use crate::aggregator::RequestView as AggregateRequestView;
use crate::aggregator::Response as AggregateResponse;
use crate::aggregator::ResponseView as AggregateResponseView;
use crate::clock::Timestamp;
use crate::coordinator::error::ErrorKindView as CoordinatorErrorKindView;
use crate::coordinator::error::ErrorView as CoordinatorErrorView;
use crate::coordinator::lock::NBLockInfoView;
use crate::coordinator::mock::MockCoordinator;
use crate::coordinator::mock::MockCoordinatorView;
use crate::coordinator::mock::held_by;
use crate::coordinator::mock::holder;
use crate::coordinator::mock::holds;
use crate::coordinator::mock::released;
use crate::coordinator::node_id::NodeId;
use crate::coordinator::node_id::NodeIdView;
use crate::fetcher::agent::AgentFailure;
use crate::fetcher::agent::AgentFailureView;
use crate::fetcher::fetch::FetchRun;
use crate::fetcher::fetch::FetchRunView;
use crate::fetcher::protocol::Request;
use crate::fetcher::protocol::RequestView;
use crate::fetcher::protocol::Response;
use crate::fetcher::protocol::ResponseView;
use crate::fetcher::snapshotter::ClusterState;
use crate::fetcher::snapshotter::ClusterStateView;
use crate::fetcher::snapshotter::Snapshotter;
use crate::fetcher::snapshotter::snapshot_of;
use crate::models::agent::Agent;
use crate::models::agent::AgentInfo;
use crate::models::agent::AgentVersion;
use crate::models::agent::AgentVersionView;
use crate::models::cluster::ClusterDiscovery;
use crate::models::cluster::ClusterDiscoveryView;
use crate::models::datastore::Node;
use crate::models::datastore::Shard;
use crate::models::datastore::WireNode;
use crate::models::datastore::WireNodeView;
use crate::models::datastore::WireShard;
use crate::models::datastore::WireShardView;
use crate::models::events::Event;
use crate::models::events::EventView;
use crate::models::tasks::ClusterRefreshPayload;
use crate::models::tasks::ClusterRefreshPayloadView;
use crate::store::mock::MockStore;
use crate::store::mock::MockStoreView;
use crate::store::mock::StoreOp;
use crate::store::table::cluster_key;
use crate::store::table::fresh_values;
use crate::store::table::lookup;
use crate::store::table::pair_key;
use crate::store::table::staled;
use crate::store::table::triple_key;
use crate::store::table::upserted;
use crate::streams::events::EventsStream;
use crate::tasks::cluster_refresh::Event as HandlerEvent;
use crate::tasks::cluster_refresh::EventView as HandlerEventView;
use crate::tasks::cluster_refresh::Handler;
use crate::tasks::cluster_refresh::HandlerView;
use crate::tasks::cluster_refresh::Request as HandlerRequest;
use crate::tasks::cluster_refresh::RequestView as HandlerRequestView;
use crate::tasks::cluster_refresh::lock_name;
use crate::text::concat2;
use crate::text::result_view;
use vstd::prelude::*;

verus! {

/// What the agent at `target` answers, whenever it is asked.
#[derive(Debug, PartialEq, Eq)]
pub struct AgentScript {
    pub target: String,
    pub info: core::result::Result<AgentVersion, AgentFailure>,
    pub node: core::result::Result<WireNode, AgentFailure>,
    pub shards: core::result::Result<Vec<WireShard>, AgentFailure>,
}

/// What an `AgentScript` holds.
pub struct AgentScriptView {
    pub target: Seq<char>,
    pub info: core::result::Result<AgentVersionView, AgentFailureView>,
    pub node: core::result::Result<WireNodeView, AgentFailureView>,
    pub shards: core::result::Result<Seq<WireShardView>, AgentFailureView>,
}

impl View for AgentScript {
    type V = AgentScriptView;

    open spec fn view(&self) -> AgentScriptView {
        AgentScriptView {
            target: self.target@,
            info: result_view(self.info),
            node: result_view(self.node),
            shards: result_view(self.shards),
        }
    }
}

impl DeepView for AgentScript {
    type V = AgentScriptView;

    open spec fn deep_view(&self) -> AgentScriptView {
        self@
    }
}

/// The script of the first agent at `target`, if there is one.
pub open spec fn script_of(agents: Seq<AgentScriptView>, target: Seq<char>) -> Option<
    AgentScriptView,
>
    decreases agents.len(),
{
    if agents.len() == 0 {
        None
    } else if agents.first().target == target {
        Some(agents.first())
    } else {
        script_of(agents.drop_first(), target)
    }
}

/// The failure with which an agent that has no script answers: every call
/// to it fails.
pub open spec fn unreachable() -> AgentFailureView {
    AgentFailureView::Invalid("connection refused"@)
}

/// The text by which the world describes a failure of the primary store.
pub open spec fn store_failure() -> Seq<char> {
    "MongoDBOperation"@
}

/// An in-memory world.
pub struct World {
    pub store: MockStore,
    pub events: EventsStream,
    pub coordinator: MockCoordinator,
    pub agents: Vec<AgentScript>,
    /// The node of the control plane that runs the refresh.
    pub node_id: NodeId,
}

/// What a `World` holds.
pub struct WorldView {
    pub store: MockStoreView,
    pub events: Seq<EventView>,
    pub coordinator: MockCoordinatorView,
    pub agents: Seq<AgentScriptView>,
    pub node_id: NodeIdView,
}

impl View for World {
    type V = WorldView;

    open spec fn view(&self) -> WorldView {
        WorldView {
            store: self.store@,
            events: self.events@,
            coordinator: self.coordinator@,
            agents: self.agents.deep_view(),
            node_id: self.node_id@,
        }
    }
}

/// The answer to a write, given whether the write was told to fail.
pub open spec fn write_answer(failing: bool) -> ResponseView {
    if failing {
        ResponseView::Done(Err(store_failure()))
    } else {
        ResponseView::Done(Ok(()))
    }
}

impl WorldView {
    /// The world with another store.
    pub open spec fn with_store(self, store: MockStoreView) -> WorldView {
        WorldView { store, ..self }
    }

    /// Whether the operation `op` of the store was told to fail.
    pub open spec fn fails(self, op: StoreOp) -> bool {
        self.store.failing == Some(op)
    }

    /// The world after it did what the fetcher asked for, under the lock `lock`.
    pub open spec fn after_fetch(self, lock: Seq<char>, request: RequestView) -> WorldView {
        match request {
            RequestView::MarkStale { cluster_id } => if self.fails(StoreOp::MarkStale) {
                self
            } else {
                self.with_store(
                    MockStoreView {
                        agents_info: staled(self.store.agents_info, cluster_id),
                        nodes: staled(self.store.nodes, cluster_id),
                        shards: staled(self.store.shards, cluster_id),
                        ..self.store
                    },
                )
            },
            RequestView::PersistAgentInfo(info) => if self.fails(StoreOp::PersistAgentInfo) {
                self
            } else {
                self.with_store(
                    MockStoreView {
                        agents_info: upserted(
                            self.store.agents_info,
                            pair_key(info.cluster_id, info.host),
                            info,
                        ),
                        ..self.store
                    },
                )
            },
            RequestView::PersistNode(node) => if self.fails(StoreOp::PersistNode) {
                self
            } else {
                self.with_store(
                    MockStoreView {
                        nodes: upserted(
                            self.store.nodes,
                            pair_key(node.cluster_id, node.node_id),
                            node,
                        ),
                        ..self.store
                    },
                )
            },
            RequestView::PersistShard(shard) => if self.fails(StoreOp::PersistShard) {
                self
            } else {
                self.with_store(
                    MockStoreView {
                        shards: upserted(
                            self.store.shards,
                            triple_key(shard.cluster_id, shard.node_id, shard.shard_id),
                            shard,
                        ),
                        ..self.store
                    },
                )
            },
            RequestView::PersistAgent(agent) => if self.fails(StoreOp::PersistAgent) {
                self
            } else {
                self.with_store(
                    MockStoreView {
                        agents: upserted(
                            self.store.agents,
                            pair_key(agent.cluster_id, agent.host),
                            agent,
                        ),
                        ..self.store
                    },
                )
            },
            RequestView::Emit(event) => if self.fails(StoreOp::PersistEvent) {
                self
            } else {
                WorldView { events: self.events.push(event), ..self }
            },
            _ => self,
        }
    }

    /// What the world answers to what the fetcher asked for, under the lock `lock`.
    pub open spec fn fetch_answer(self, lock: Seq<char>, request: RequestView) -> ResponseView {
        match request {
            RequestView::MarkStale { .. } => write_answer(self.fails(StoreOp::MarkStale)),
            RequestView::InspectLock => ResponseView::Lock(
                held_by(self.coordinator.locks, lock, self.node_id.uuid),
            ),
            RequestView::AgentInfo { target } => ResponseView::Info(
                match script_of(self.agents, target) {
                    Some(script) => script.info,
                    None => Err(unreachable()),
                },
            ),
            RequestView::DatastoreInfo { target } => ResponseView::NodeInfo(
                match script_of(self.agents, target) {
                    Some(script) => script.node,
                    None => Err(unreachable()),
                },
            ),
            RequestView::Shards { target } => ResponseView::ShardsList(
                match script_of(self.agents, target) {
                    Some(script) => script.shards,
                    None => Err(unreachable()),
                },
            ),
            RequestView::LoadNode { cluster_id, node_id } => ResponseView::StoredNode(
                if self.fails(StoreOp::Node) {
                    Err(store_failure())
                } else {
                    Ok(
                        match lookup(self.store.nodes, pair_key(cluster_id, node_id)) {
                            Some(entry) => Some(entry.value),
                            None => None,
                        },
                    )
                },
            ),
            RequestView::LoadShard { cluster_id, node_id, shard_id } => ResponseView::StoredShard(
                if self.fails(StoreOp::Shard) {
                    Err(store_failure())
                } else {
                    Ok(
                        match lookup(
                            self.store.shards,
                            triple_key(cluster_id, node_id, shard_id),
                        ) {
                            Some(entry) => Some(entry.value),
                            None => None,
                        },
                    )
                },
            ),
            RequestView::PersistAgentInfo(_) => write_answer(
                self.fails(StoreOp::PersistAgentInfo),
            ),
            RequestView::PersistNode(_) => write_answer(self.fails(StoreOp::PersistNode)),
            RequestView::PersistShard(_) => write_answer(self.fails(StoreOp::PersistShard)),
            RequestView::PersistAgent(_) => write_answer(self.fails(StoreOp::PersistAgent)),
            RequestView::Emit(_) => write_answer(self.fails(StoreOp::PersistEvent)),
        }
    }

    /// The state of the cluster that `cluster` describes, as the store holds
    /// it: every agent, and the builds, nodes and shards that are not stale.
    pub open spec fn cluster_state(self, cluster: ClusterDiscoveryView) -> ClusterStateView {
        ClusterStateView {
            discovery: cluster,
            agents: fresh_values(self.store.agents, cluster.cluster_id),
            agents_info: fresh_values(self.store.agents_info, cluster.cluster_id),
            nodes: fresh_values(self.store.nodes, cluster.cluster_id),
            shards: fresh_values(self.store.shards, cluster.cluster_id),
        }
    }

    /// The world after it did what the handler of a refresh task asked for.
    pub open spec fn after_handler(self, request: HandlerRequestView, now: Timestamp, steps: nat)
        -> WorldView {
        match request {
            HandlerRequestView::Deserialize => self,
            HandlerRequestView::Acquire { lock } => if holds(self.coordinator.locks, lock) {
                self
            } else {
                WorldView {
                    coordinator: MockCoordinatorView {
                        locks: self.coordinator.locks.push(
                            NBLockInfoView { name: lock, owner: self.node_id },
                        ),
                        ..self.coordinator
                    },
                    ..self
                }
            },
            HandlerRequestView::Fetch { cluster, .. } => fetch_after(
                self,
                lock_name(cluster.cluster_id),
                FetchRunView::start(cluster),
                now,
                steps,
            ).0,
            HandlerRequestView::Aggregate { cluster } => aggregate_after(
                self,
                lock_name(cluster.cluster_id),
                AggregatorView {
                    discovery: cluster,
                    step: crate::aggregator::StepView::InspectBeforeLoad,
                },
                steps,
            ).0,
            HandlerRequestView::Snapshot { cluster } => WorldView {
                events: self.events + snapshot_of(self.cluster_state(cluster), now),
                ..self
            },
            HandlerRequestView::Release { lock } => WorldView {
                coordinator: MockCoordinatorView {
                    locks: released(self.coordinator.locks, lock, self.node_id.uuid),
                    ..self.coordinator
                },
                ..self
            },
        }
    }

    /// What the world answers to what the handler of a refresh task asked
    /// for; nothing where a fetch or an aggregation did not end in `steps` steps.
    pub open spec fn handler_answer(
        self,
        request: HandlerRequestView,
        payload: core::result::Result<ClusterRefreshPayloadView, Seq<char>>,
        now: Timestamp,
        steps: nat,
    ) -> Option<HandlerEventView> {
        match request {
            HandlerRequestView::Deserialize => Some(HandlerEventView::Deserialized(payload)),
            HandlerRequestView::Acquire { lock } => Some(
                HandlerEventView::Acquired(
                    if holds(self.coordinator.locks, lock) {
                        Err(
                            CoordinatorErrorView {
                                kind: CoordinatorErrorKindView::LockHeld(
                                    lock,
                                    holder(self.coordinator.locks, lock),
                                ),
                                cause: None,
                            },
                        )
                    } else {
                        Ok(())
                    },
                ),
            ),
            HandlerRequestView::Fetch { cluster, .. } => match fetch_after(
                self,
                lock_name(cluster.cluster_id),
                FetchRunView::start(cluster),
                now,
                steps,
            ).1.outcome() {
                Some(outcome) => Some(HandlerEventView::Fetched(outcome)),
                None => None,
            },
            HandlerRequestView::Aggregate { cluster } => match aggregate_after(
                self,
                lock_name(cluster.cluster_id),
                AggregatorView {
                    discovery: cluster,
                    step: crate::aggregator::StepView::InspectBeforeLoad,
                },
                steps,
            ).1.outcome() {
                Some(outcome) => Some(HandlerEventView::Aggregated(outcome)),
                None => None,
            },
            HandlerRequestView::Snapshot { .. } => Some(HandlerEventView::Snapshotted(Ok(()))),
            HandlerRequestView::Release { .. } => Some(HandlerEventView::Released(Ok(()))),
        }
    }

    /// The world after it did what the aggregator asked for.
    pub open spec fn after_aggregate(self, request: AggregateRequestView) -> WorldView {
        match request {
            AggregateRequestView::PersistMeta(meta) => if self.fails(
                StoreOp::PersistClusterMeta,
            ) {
                self
            } else {
                self.with_store(
                    MockStoreView {
                        clusters_meta: upserted(
                            self.store.clusters_meta,
                            cluster_key(meta.cluster_id),
                            meta,
                        ),
                        ..self.store
                    },
                )
            },
            _ => self,
        }
    }

    /// What the world answers to what the aggregator asked for, under the
    /// lock `lock`.
    pub open spec fn aggregate_answer(self, lock: Seq<char>, request: AggregateRequestView)
        -> AggregateResponseView {
        match request {
            AggregateRequestView::InspectLock => AggregateResponseView::Lock(
                held_by(self.coordinator.locks, lock, self.node_id.uuid),
            ),
            AggregateRequestView::LoadNodes { cluster_id } => AggregateResponseView::Nodes(
                Ok(fresh_values(self.store.nodes, cluster_id)),
            ),
            AggregateRequestView::PersistMeta(_) => AggregateResponseView::Done(
                if self.fails(StoreOp::PersistClusterMeta) {
                    Err(store_failure())
                } else {
                    Ok(())
                },
            ),
        }
    }
}

fn store_error() -> (text: String)
    ensures
        text@ == store_failure(),
{
    "MongoDBOperation".to_owned()
}

fn done(outcome: core::result::Result<(), crate::store::error::Error>) -> (response: Response)
    ensures
        response@ == write_answer(outcome is Err),
{
    match outcome {
        Ok(_) => Response::Done(Ok(())),
        Err(_) => Response::Done(Err(store_error())),
    }
}

fn clone_failure(failure: &AgentFailure) -> (out: AgentFailure)
    ensures
        out@ == failure@,
{
    failure.clone()
}

fn clone_wires(wires: &Vec<WireShard>) -> (out: Vec<WireShard>)
    ensures
        out.deep_view() == wires.deep_view(),
{
    let mut out: Vec<WireShard> = Vec::new();
    let mut i: usize = 0;
    while i < wires.len()
        invariant
            i <= wires.len(),
            out.len() == i,
            forall|j: int| 0 <= j < i ==> (#[trigger] out[j])@ == wires[j]@,
        decreases wires.len() - i,
    {
        out.push(wires[i].clone());
        i += 1;
    }
    assert(out.deep_view() =~= wires.deep_view());
    out
}

impl World {
    /// The store and the coordinator are well formed.
    pub open spec fn well_formed(&self) -> bool {
        self.store.well_formed() && self.coordinator.well_formed()
    }

    /// A world with nothing in it, for the node `node_id` of the control plane.
    pub fn new(node_id: NodeId) -> (world: World)
        ensures
            world.well_formed(),
            world@.node_id == node_id@,
            world@.events == Seq::<EventView>::empty(),
            world@.agents == Seq::<AgentScriptView>::empty(),
            world@.coordinator == (MockCoordinatorView { locks: Seq::empty(), nodes: Seq::empty() }),
            world@.store.failing is None,
    {
        let agents: Vec<AgentScript> = Vec::new();
        assert(agents.deep_view() =~= Seq::<AgentScriptView>::empty());
        World {
            store: MockStore::new(),
            events: crate::streams::events::MockEvents::mock(
                crate::streams::events::MockEvents::new(),
            ),
            coordinator: MockCoordinator::new(),
            agents,
            node_id,
        }
    }

    fn script(&self, target: &str) -> (found: Option<&AgentScript>)
        ensures
            found.deep_view() == script_of(self@.agents, target@),
    {
        let ghost all = self.agents.deep_view();
        let mut i: usize = 0;
        assert(all.skip(0) =~= all);
        while i < self.agents.len()
            invariant
                i <= self.agents.len(),
                all == self.agents.deep_view(),
                script_of(all, target@) == script_of(all.skip(i as int), target@),
            decreases self.agents.len() - i,
        {
            proof {
                assert(all.skip(i as int).first() == all[i as int]);
                assert(all.skip(i as int).drop_first() =~= all.skip(i + 1));
            }
            if crate::text::str_eq(self.agents[i].target.as_str(), target) {
                return Some(&self.agents[i]);
            }
            i += 1;
        }
        None
    }

    /// Do what the fetcher asks for, under the lock `lock`, and answer.
    pub fn answer_fetch(&mut self, lock: &str, request: Request) -> (response: Response)
        requires
            old(self).well_formed(),
        ensures
            final(self).well_formed(),
            final(self)@ == old(self)@.after_fetch(lock@, request@),
            response@ == old(self)@.fetch_answer(lock@, request@),
    {
        match request {
            Request::MarkStale { cluster_id } => done(self.store.mark_stale(cluster_id.as_str())),
            Request::InspectLock => Response::Lock(self.coordinator.inspect(lock, &self.node_id)),
            Request::AgentInfo { target } => Response::Info(
                match self.script(target.as_str()) {
                    Some(script) => match &script.info {
                        Ok(version) => Ok(version.clone()),
                        Err(failure) => Err(clone_failure(failure)),
                    },
                    None => Err(AgentFailure::Invalid("connection refused".to_owned())),
                },
            ),
            Request::DatastoreInfo { target } => Response::NodeInfo(
                match self.script(target.as_str()) {
                    Some(script) => match &script.node {
                        Ok(node) => Ok(node.clone()),
                        Err(failure) => Err(clone_failure(failure)),
                    },
                    None => Err(AgentFailure::Invalid("connection refused".to_owned())),
                },
            ),
            Request::Shards { target } => Response::ShardsList(
                match self.script(target.as_str()) {
                    Some(script) => match &script.shards {
                        Ok(shards) => Ok(clone_wires(shards)),
                        Err(failure) => Err(clone_failure(failure)),
                    },
                    None => Err(AgentFailure::Invalid("connection refused".to_owned())),
                },
            ),
            Request::LoadNode { cluster_id, node_id } => Response::StoredNode(
                match self.store.node(cluster_id.as_str(), node_id.as_str()) {
                    Ok(found) => Ok(found),
                    Err(_) => Err(store_error()),
                },
            ),
            Request::LoadShard { cluster_id, node_id, shard_id } => Response::StoredShard(
                match self.store.shard(cluster_id.as_str(), node_id.as_str(), shard_id.as_str()) {
                    Ok(found) => Ok(found),
                    Err(_) => Err(store_error()),
                },
            ),
            Request::PersistAgentInfo(info) => done(self.store.persist_agent_info(info)),
            Request::PersistNode(node) => done(self.store.persist_node(node)),
            Request::PersistShard(shard) => done(self.store.persist_shard(shard)),
            Request::PersistAgent(agent) => done(self.store.persist_agent(agent)),
            Request::Emit(event) => {
                if self.store.failing == Some(StoreOp::PersistEvent) {
                    Response::Done(Err(store_error()))
                } else {
                    let _ = self.events.emit(event);
                    Response::Done(Ok(()))
                }
            },
        }
    }

    /// Do what the aggregator asks for, under the lock `lock`, and answer.
    pub fn answer_aggregate(&mut self, lock: &str, request: AggregateRequest) -> (response:
        AggregateResponse)
        requires
            old(self).well_formed(),
        ensures
            final(self).well_formed(),
            final(self)@ == old(self)@.after_aggregate(request@),
            response@ == old(self)@.aggregate_answer(lock@, request@),
    {
        match request {
            AggregateRequest::InspectLock => AggregateResponse::Lock(
                self.coordinator.inspect(lock, &self.node_id),
            ),
            AggregateRequest::LoadNodes { cluster_id } => {
                let fresh = self.store.nodes.fresh(cluster_id.as_str());
                let mut nodes: Vec<Node> = Vec::new();
                let mut i: usize = 0;
                while i < fresh.len()
                    invariant
                        i <= fresh.len(),
                        nodes.len() == i,
                        forall|j: int| 0 <= j < i ==> (#[trigger] nodes[j])@ == fresh[j]@,
                    decreases fresh.len() - i,
                {
                    nodes.push(fresh[i].clone());
                    i += 1;
                }
                assert(nodes.deep_view() =~= fresh.deep_view());
                AggregateResponse::Nodes(Ok(nodes))
            },
            AggregateRequest::PersistMeta(meta) => AggregateResponse::Done(
                match self.store.persist_cluster_meta(meta) {
                    Ok(_) => Ok(()),
                    Err(_) => Err(store_error()),
                },
            ),
        }
    }

    /// Run a fetch against the world until it ends, but for at most
    /// `max_steps` steps. Every step is taken at the instant `now`.
    pub fn run_fetch(&mut self, lock: &str, run: FetchRun, now: Timestamp, max_steps: usize) -> (end:
        FetchRun)
        requires
            old(self).well_formed(),
            run.well_formed(),
        ensures
            final(self).well_formed(),
            end.well_formed(),
            (final(self)@, end@) == fetch_after(old(self)@, lock@, run@, now, max_steps as nat),
    {
        let ghost start = (self@, run@);
        let mut run = run;
        let mut steps: usize = 0;
        while steps < max_steps && !run.is_done()
            invariant
                self.well_formed(),
                run.well_formed(),
                steps <= max_steps,
                fetch_after(start.0, lock@, start.1, now, max_steps as nat) == fetch_after(
                    self@,
                    lock@,
                    run@,
                    now,
                    (max_steps - steps) as nat,
                ),
            decreases max_steps - steps,
        {
            match run.request() {
                Some(request) => {
                    let response = self.answer_fetch(lock, request);
                    run = run.advance(response, now);
                },
                None => {},
            }
            steps += 1;
        }
        run
    }

    fn cluster_state(&self, cluster: &ClusterDiscovery) -> (state: ClusterState)
        requires
            self.well_formed(),
        ensures
            state@ == self@.cluster_state(cluster@),
    {
        let id = cluster.cluster_id.as_str();
        let fresh_agents = self.store.agents.fresh(id);
        let mut agents: Vec<Agent> = Vec::new();
        let mut i: usize = 0;
        while i < fresh_agents.len()
            invariant
                i <= fresh_agents.len(),
                agents.len() == i,
                forall|j: int| 0 <= j < i ==> (#[trigger] agents[j])@ == fresh_agents[j]@,
            decreases fresh_agents.len() - i,
        {
            agents.push(fresh_agents[i].clone());
            i += 1;
        }
        assert(agents.deep_view() =~= fresh_agents.deep_view());
        let fresh_info = self.store.agents_info.fresh(id);
        let mut agents_info: Vec<AgentInfo> = Vec::new();
        let mut i: usize = 0;
        while i < fresh_info.len()
            invariant
                i <= fresh_info.len(),
                agents_info.len() == i,
                forall|j: int| 0 <= j < i ==> (#[trigger] agents_info[j])@ == fresh_info[j]@,
            decreases fresh_info.len() - i,
        {
            agents_info.push(fresh_info[i].clone());
            i += 1;
        }
        assert(agents_info.deep_view() =~= fresh_info.deep_view());
        let fresh_nodes = self.store.nodes.fresh(id);
        let mut nodes: Vec<Node> = Vec::new();
        let mut i: usize = 0;
        while i < fresh_nodes.len()
            invariant
                i <= fresh_nodes.len(),
                nodes.len() == i,
                forall|j: int| 0 <= j < i ==> (#[trigger] nodes[j])@ == fresh_nodes[j]@,
            decreases fresh_nodes.len() - i,
        {
            nodes.push(fresh_nodes[i].clone());
            i += 1;
        }
        assert(nodes.deep_view() =~= fresh_nodes.deep_view());
        let shards = self.store.shards(id);
        ClusterState { discovery: cluster.clone(), agents, agents_info, nodes, shards }
    }

    fn emit_all(&mut self, events: Vec<Event>)
        ensures
            final(self).store == old(self).store,
            final(self).coordinator == old(self).coordinator,
            final(self).agents == old(self).agents,
            final(self).node_id == old(self).node_id,
            final(self)@.events == old(self)@.events + events.deep_view(),
    {
        let ghost before = self@.events;
        let ghost all = events.deep_view();
        let mut i: usize = 0;
        assert(before + all.take(0) =~= before);
        while i < events.len()
            invariant
                i <= events.len(),
                all == events.deep_view(),
                self.store == old(self).store,
                self.coordinator == old(self).coordinator,
                self.agents == old(self).agents,
                self.node_id == old(self).node_id,
                self@.events == before + all.take(i as int),
            decreases events.len() - i,
        {
            let _ = self.events.emit(events[i].clone());
            assert(self@.events =~= before + all.take(i + 1));
            i += 1;
        }
        assert(all.take(events.len() as int) =~= all);
    }

    /// Do what the handler of a refresh task asks for, and answer. The task
    /// carries `payload`, or the text that says why it cannot be decoded.
    /// Everything happens at the instant `now`. A fetch or an aggregation
    /// runs for at most `max_steps` steps, and where that is not enough for
    /// it to end there is no answer.
    pub fn answer_handler(
        &mut self,
        request: HandlerRequest,
        payload: &core::result::Result<ClusterRefreshPayload, String>,
        now: Timestamp,
        max_steps: usize,
    ) -> (event: Option<HandlerEvent>)
        requires
            old(self).well_formed(),
        ensures
            final(self).well_formed(),
            final(self)@ == old(self)@.after_handler(request@, now, max_steps as nat),
            event.deep_view() == old(self)@.handler_answer(
                request@,
                result_view(*payload),
                now,
                max_steps as nat,
            ),
    {
        match request {
            HandlerRequest::Deserialize => Some(
                HandlerEvent::Deserialized(
                    match payload {
                        Ok(payload) => Ok(payload.clone()),
                        Err(cause) => Err(cause.clone()),
                    },
                ),
            ),
            HandlerRequest::Acquire { lock } => Some(
                HandlerEvent::Acquired(self.coordinator.acquire(lock.as_str(), &self.node_id)),
            ),
            HandlerRequest::Fetch { cluster, refresh_id } => {
                let lock = concat2("cluster_refresh/", cluster.cluster_id.as_str());
                let run = self.run_fetch(lock.as_str(), FetchRun::start(cluster), now, max_steps);
                match run.outcome() {
                    Some(outcome) => Some(HandlerEvent::Fetched(outcome)),
                    None => None,
                }
            },
            HandlerRequest::Aggregate { cluster } => {
                let lock = concat2("cluster_refresh/", cluster.cluster_id.as_str());
                let run = self.run_aggregate(lock.as_str(), Aggregator::new(cluster), max_steps);
                match run.outcome() {
                    Some(outcome) => Some(HandlerEvent::Aggregated(outcome)),
                    None => None,
                }
            },
            HandlerRequest::Snapshot { cluster } => {
                let state = self.cluster_state(&cluster);
                let events = Snapshotter::events(&state, now);
                self.emit_all(events);
                Some(HandlerEvent::Snapshotted(Ok(())))
            },
            HandlerRequest::Release { lock } => Some(
                HandlerEvent::Released(self.coordinator.release(lock.as_str(), &self.node_id)),
            ),
        }
    }

    /// Handle a refresh task against the world, from where `handler` stands
    /// until the handling ends, but for at most `max_steps` answers.
    pub fn handle(
        &mut self,
        handler: Handler,
        payload: &core::result::Result<ClusterRefreshPayload, String>,
        now: Timestamp,
        max_steps: usize,
    ) -> (end: Handler)
        requires
            old(self).well_formed(),
        ensures
            final(self).well_formed(),
            (final(self)@, end@) == handled_after(
                old(self)@,
                handler@,
                result_view(*payload),
                now,
                max_steps as nat,
                max_steps as nat,
            ),
    {
        let ghost start = (self@, handler@);
        let mut handler = handler;
        let mut steps: usize = 0;
        let mut stuck = false;
        while steps < max_steps && !stuck
            invariant
                self.well_formed(),
                steps <= max_steps,
                handled_after(
                    start.0,
                    start.1,
                    result_view(*payload),
                    now,
                    max_steps as nat,
                    max_steps as nat,
                ) == handled_after(
                    self@,
                    handler@,
                    result_view(*payload),
                    now,
                    max_steps as nat,
                    if stuck {
                        0nat
                    } else {
                        (max_steps - steps) as nat
                    },
                ),
            decreases max_steps - steps,
        {
            match handler.request() {
                Some(request) => {
                    match self.answer_handler(request, payload, now, max_steps) {
                        Some(event) => {
                            handler = handler.handle(event, now);
                        },
                        None => {
                            stuck = true;
                        },
                    }
                },
                None => {
                    stuck = true;
                },
            }
            steps += 1;
        }
        handler
    }

    /// Run an aggregation against the world until it ends, but for at most
    /// `max_steps` steps.
    pub fn run_aggregate(&mut self, lock: &str, run: Aggregator, max_steps: usize) -> (end:
        Aggregator)
        requires
            old(self).well_formed(),
        ensures
            final(self).well_formed(),
            (final(self)@, end@) == aggregate_after(old(self)@, lock@, run@, max_steps as nat),
    {
        let ghost start = (self@, run@);
        let mut run = run;
        let mut steps: usize = 0;
        while steps < max_steps
            invariant
                self.well_formed(),
                steps <= max_steps,
                aggregate_after(start.0, lock@, start.1, max_steps as nat) == aggregate_after(
                    self@,
                    lock@,
                    run@,
                    (max_steps - steps) as nat,
                ),
            decreases max_steps - steps,
        {
            match run.request() {
                Some(request) => {
                    let response = self.answer_aggregate(lock, request);
                    run = run.advance(response);
                },
                None => {},
            }
            steps += 1;
        }
        run
    }
}

/// The world and the fetch after the world answered the fetch for `steps`
/// steps, each at the instant `now`, or until the fetch ended.
pub open spec fn fetch_after(
    world: WorldView,
    lock: Seq<char>,
    run: FetchRunView,
    now: Timestamp,
    steps: nat,
) -> (WorldView, FetchRunView)
    decreases steps,
{
    if steps == 0 {
        (world, run)
    } else {
        match run.request() {
            None => (world, run),
            Some(request) => fetch_after(
                world.after_fetch(lock, request),
                lock,
                run.advance(world.fetch_answer(lock, request), now),
                now,
                (steps - 1) as nat,
            ),
        }
    }
}

/// The world and the handling of a refresh task after the world answered the
/// handler for `steps` answers, or until the handling ended or a fetch or an
/// aggregation did not end within `budget` steps of its own.
pub open spec fn handled_after(
    world: WorldView,
    handler: HandlerView,
    payload: core::result::Result<ClusterRefreshPayloadView, Seq<char>>,
    now: Timestamp,
    budget: nat,
    steps: nat,
) -> (WorldView, HandlerView)
    decreases steps,
{
    if steps == 0 {
        (world, handler)
    } else {
        match handler.request() {
            None => (world, handler),
            Some(request) => match world.handler_answer(request, payload, now, budget) {
                None => (world.after_handler(request, now, budget), handler),
                Some(event) => handled_after(
                    world.after_handler(request, now, budget),
                    handler.advance(event, now),
                    payload,
                    now,
                    budget,
                    (steps - 1) as nat,
                ),
            },
        }
    }
}

/// The world and the aggregation after the world answered the aggregation
/// for `steps` steps, or until the aggregation ended.
pub open spec fn aggregate_after(world: WorldView, lock: Seq<char>, run: AggregatorView, steps: nat)
    -> (WorldView, AggregatorView)
    decreases steps,
{
    if steps == 0 {
        (world, run)
    } else {
        match run.request() {
            None => (world, run),
            Some(request) => aggregate_after(
                world.after_aggregate(request),
                lock,
                run.advance(world.aggregate_answer(lock, request)),
                (steps - 1) as nat,
            ),
        }
    }
}

} // verus!
