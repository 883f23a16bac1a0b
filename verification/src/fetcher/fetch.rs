//! The refresh of the agents of one cluster, step by step.
//!
//! For each agent in the order of the discovery record: read the lock
//! watcher and stop cleanly once the lock is lost; ask the agent for its
//! build, for the identity of its node and for the shards on it; check that
//! the node belongs to the cluster; persist what was found and emit the
//! events that belong to it; persist the agent's record last, so that it
//! holds the final status.
//!
//! An error of an agent or of its node never stops the refresh: it becomes
//! the status of that agent and the next agent is processed. An error of the
//! primary store or of the events stream stops the refresh and is reported.
use crate::clock::Timestamp;
use crate::fetcher::agent::classified;
use crate::fetcher::agent::classify;
use crate::fetcher::error::Error;
use crate::fetcher::error::ErrorKind;
use crate::fetcher::error::ErrorKindView;
use crate::fetcher::error::ErrorView;
use crate::fetcher::identity::ClusterIdentityChecker;
use crate::fetcher::identity::ClusterIdentityCheckerView;
use crate::fetcher::node::node_event;
use crate::fetcher::node::process_node;
use crate::fetcher::protocol::Request;
use crate::fetcher::protocol::RequestView;
use crate::fetcher::protocol::Response;
use crate::fetcher::protocol::ResponseView;
use crate::fetcher::shard::process_shard;
use crate::fetcher::shard::shard_plan;
use crate::models::agent::Agent;
use crate::models::agent::AgentInfo;
use crate::models::agent::AgentInfoView;
use crate::models::agent::AgentStatus;
use crate::models::agent::AgentStatusView;
use crate::models::agent::AgentView;
use crate::models::cluster::ClusterDiscovery;
use crate::models::cluster::ClusterDiscoveryView;
use crate::models::datastore::node_of;
use crate::models::datastore::shard_of;
use crate::models::datastore::Node;
use crate::models::datastore::NodeView;
use crate::models::datastore::Shard;
use crate::models::datastore::ShardView;
use crate::models::datastore::WireShard;
use crate::models::datastore::WireShardView;
use crate::models::events::Event;
use crate::models::events::EventView;
use vstd::prelude::*;

verus! {

/// How a fetch ended.
#[derive(Debug, PartialEq, Eq)]
pub enum Outcome {
    /// Every agent was processed.
    Completed,
    /// The lock was lost and the remaining agents were left alone. This is
    /// not an error.
    LockLost,
    /// An error of the control plane stopped the fetch.
    Failed(Error),
}

/// What an `Outcome` holds.
pub enum OutcomeView {
    Completed,
    LockLost,
    Failed(ErrorView),
}

impl View for Outcome {
    type V = OutcomeView;

    open spec fn view(&self) -> OutcomeView {
        match self {
            Outcome::Completed => OutcomeView::Completed,
            Outcome::LockLost => OutcomeView::LockLost,
            Outcome::Failed(error) => OutcomeView::Failed(error@),
        }
    }
}

impl DeepView for Outcome {
    type V = OutcomeView;

    open spec fn deep_view(&self) -> OutcomeView {
        self@
    }
}

impl Clone for Outcome {
    fn clone(&self) -> (out: Self)
        ensures
            out@ == self@,
    {
        match self {
            Outcome::Completed => Outcome::Completed,
            Outcome::LockLost => Outcome::LockLost,
            Outcome::Failed(error) => Outcome::Failed(error.clone()),
        }
    }
}

/// Where a fetch stands: what it waits for.
pub enum Step {
    /// The answer to marking the cluster stale.
    MarkStale,
    /// The reading of the lock watcher, before the current agent is processed.
    InspectLock,
    /// The build of the current agent.
    FetchInfo,
    /// The answer to persisting the build of the current agent.
    PersistInfo(AgentInfo),
    /// The identity of the node behind the current agent.
    FetchNode,
    /// The record of the node that the store holds.
    LoadNode(Node),
    /// The answer to emitting the event about the node.
    EmitNode(Node, Event),
    /// The answer to persisting the node.
    PersistNode(Node),
    /// The shards on the node behind the current agent.
    FetchShards,
    /// The record of the current shard that the store holds.
    LoadShard,
    /// The answer to emitting the event about the current shard.
    EmitShard(Event),
    /// The answer to persisting the current shard.
    PersistShard,
    /// The answer to persisting the current agent with its final status.
    PersistAgent(AgentStatus),
    /// Nothing: the fetch has ended.
    Done(Outcome),
}

/// What a `Step` holds.
pub enum StepView {
    MarkStale,
    InspectLock,
    FetchInfo,
    PersistInfo(AgentInfoView),
    FetchNode,
    LoadNode(NodeView),
    EmitNode(NodeView, EventView),
    PersistNode(NodeView),
    FetchShards,
    LoadShard,
    EmitShard(EventView),
    PersistShard,
    PersistAgent(AgentStatusView),
    Done(OutcomeView),
}

impl View for Step {
    type V = StepView;

    open spec fn view(&self) -> StepView {
        match self {
            Step::MarkStale => StepView::MarkStale,
            Step::InspectLock => StepView::InspectLock,
            Step::FetchInfo => StepView::FetchInfo,
            Step::PersistInfo(info) => StepView::PersistInfo(info@),
            Step::FetchNode => StepView::FetchNode,
            Step::LoadNode(node) => StepView::LoadNode(node@),
            Step::EmitNode(node, event) => StepView::EmitNode(node@, event@),
            Step::PersistNode(node) => StepView::PersistNode(node@),
            Step::FetchShards => StepView::FetchShards,
            Step::LoadShard => StepView::LoadShard,
            Step::EmitShard(event) => StepView::EmitShard(event@),
            Step::PersistShard => StepView::PersistShard,
            Step::PersistAgent(status) => StepView::PersistAgent(status@),
            Step::Done(outcome) => StepView::Done(outcome@),
        }
    }
}

/// What a fetch keeps from step to step.
pub struct Context {
    cluster_id: String,
    checker: ClusterIdentityChecker,
    targets: Vec<String>,
    index: usize,
    node_id: String,
    shards: Vec<Shard>,
    shard_index: usize,
}

/// What a `Context` holds: the cluster, the identity checker, the agents to
/// process and the position of the current one, the node behind the current
/// agent, and the shards it reported with the position of the current one.
pub struct ContextView {
    pub cluster_id: Seq<char>,
    pub checker: ClusterIdentityCheckerView,
    pub targets: Seq<Seq<char>>,
    pub index: int,
    pub node_id: Seq<char>,
    pub shards: Seq<ShardView>,
    pub shard_index: int,
}

impl View for Context {
    type V = ContextView;

    closed spec fn view(&self) -> ContextView {
        ContextView {
            cluster_id: self.cluster_id@,
            checker: self.checker@,
            targets: self.targets.deep_view(),
            index: self.index as int,
            node_id: self.node_id@,
            shards: self.shards.deep_view(),
            shard_index: self.shard_index as int,
        }
    }
}

/// A fetch in progress.
pub struct FetchRun {
    context: Context,
    step: Step,
}

/// What a `FetchRun` holds.
pub struct FetchRunView {
    pub context: ContextView,
    pub step: StepView,
}

/// The shard records for what the agent of `node_id` in `cluster_id` reported.
pub open spec fn shards_of(cluster_id: Seq<char>, node_id: Seq<char>, wires: Seq<WireShardView>)
    -> Seq<ShardView> {
    Seq::new(wires.len(), |i: int| shard_of(cluster_id, node_id, wires[i]))
}

impl FetchRunView {
    /// The fetch at its start.
    pub open spec fn start(discovery: ClusterDiscoveryView) -> FetchRunView {
        FetchRunView {
            context: ContextView {
                cluster_id: discovery.cluster_id,
                checker: ClusterIdentityCheckerView {
                    display_name: discovery.display_name,
                    id: discovery.cluster_id,
                },
                targets: discovery.nodes,
                index: 0,
                node_id: Seq::empty(),
                shards: Seq::empty(),
                shard_index: 0,
            },
            step: StepView::MarkStale,
        }
    }

    /// The positions point at an agent and at a shard wherever the step
    /// speaks of the current agent or of the current shard.
    pub open spec fn well_formed(self) -> bool {
        &&& 0 <= self.context.index
        &&& 0 <= self.context.shard_index
        &&& match self.step {
            StepView::MarkStale => self.context.index == 0,
            StepView::Done(_) => true,
            StepView::LoadShard | StepView::EmitShard(_) | StepView::PersistShard => {
                &&& self.context.index < self.context.targets.len()
                &&& self.context.shard_index < self.context.shards.len()
            },
            _ => self.context.index < self.context.targets.len(),
        }
    }

    /// The address of the current agent.
    pub open spec fn target(self) -> Seq<char> {
        self.context.targets[self.context.index]
    }

    /// The current shard.
    pub open spec fn shard(self) -> ShardView {
        self.context.shards[self.context.shard_index]
    }

    /// How the fetch ended, once it has.
    pub open spec fn outcome(self) -> Option<OutcomeView> {
        match self.step {
            StepView::Done(outcome) => Some(outcome),
            _ => None,
        }
    }

    /// What the fetch asks for next; nothing once it has ended.
    pub open spec fn request(self) -> Option<RequestView> {
        match self.step {
            StepView::MarkStale => Some(
                RequestView::MarkStale { cluster_id: self.context.cluster_id },
            ),
            StepView::InspectLock => Some(RequestView::InspectLock),
            StepView::FetchInfo => Some(RequestView::AgentInfo { target: self.target() }),
            StepView::PersistInfo(info) => Some(RequestView::PersistAgentInfo(info)),
            StepView::FetchNode => Some(RequestView::DatastoreInfo { target: self.target() }),
            StepView::LoadNode(node) => Some(
                RequestView::LoadNode { cluster_id: node.cluster_id, node_id: node.node_id },
            ),
            StepView::EmitNode(_, event) => Some(RequestView::Emit(event)),
            StepView::PersistNode(node) => Some(RequestView::PersistNode(node)),
            StepView::FetchShards => Some(RequestView::Shards { target: self.target() }),
            StepView::LoadShard => Some(
                RequestView::LoadShard {
                    cluster_id: self.shard().cluster_id,
                    node_id: self.shard().node_id,
                    shard_id: self.shard().shard_id,
                },
            ),
            StepView::EmitShard(event) => Some(RequestView::Emit(event)),
            StepView::PersistShard => Some(RequestView::PersistShard(self.shard())),
            StepView::PersistAgent(status) => Some(
                RequestView::PersistAgent(
                    AgentView {
                        cluster_id: self.context.cluster_id,
                        host: self.target(),
                        status,
                    },
                ),
            ),
            StepView::Done(_) => None,
        }
    }

    /// The fetch at another step.
    pub open spec fn at(self, step: StepView) -> FetchRunView {
        FetchRunView { step, ..self }
    }

    /// The fetch stopped by an error of the control plane.
    pub open spec fn failed(self, kind: ErrorKindView, cause: Seq<char>) -> FetchRunView {
        self.at(StepView::Done(OutcomeView::Failed(ErrorView { kind, cause: Some(cause) })))
    }

    /// The fetch after an error of the current agent or of its node: what is
    /// left to do for this agent is to persist it with the status that the
    /// error gives it.
    pub open spec fn agent_failed(self, error: ErrorView) -> FetchRunView {
        match error.agent_status() {
            Some(status) => self.at(StepView::PersistAgent(status)),
            None => self.at(StepView::Done(OutcomeView::Failed(error))),
        }
    }

    /// The fetch once the current agent is done with: on to the next agent,
    /// or at its end after the last.
    pub open spec fn after_target(self) -> FetchRunView {
        if self.context.index + 1 < self.context.targets.len() {
            FetchRunView {
                context: ContextView { index: self.context.index + 1, ..self.context },
                step: StepView::InspectLock,
            }
        } else {
            self.at(StepView::Done(OutcomeView::Completed))
        }
    }

    /// The fetch once the current shard is done with: on to the next shard,
    /// or to persisting the agent, which is up, after the last.
    pub open spec fn after_shard(self) -> FetchRunView {
        if self.context.shard_index + 1 < self.context.shards.len() {
            FetchRunView {
                context: ContextView { shard_index: self.context.shard_index + 1, ..self.context },
                step: StepView::LoadShard,
            }
        } else {
            self.at(StepView::PersistAgent(AgentStatusView::Up))
        }
    }

    /// The fetch after the node behind the current agent reported `node`:
    /// the node must belong to the cluster by identifier and by display name.
    pub open spec fn after_node_info(self, node: NodeView) -> FetchRunView {
        match self.context.checker.id_outcome(node.cluster_id, node.node_id) {
            Err(error) => self.agent_failed(error),
            Ok(_) => match self.context.checker.display_name_outcome(
                node.cluster_display_name,
                node.node_id,
            ) {
                Err(error) => self.agent_failed(error),
                Ok(_) => FetchRunView {
                    context: ContextView {
                        checker: self.context.checker.with_display_name(node.cluster_display_name),
                        ..self.context
                    },
                    step: StepView::LoadNode(node),
                },
            },
        }
    }

    /// The fetch after the answer `response` arrived at the instant `now`.
    /// An answer of another kind than the fetch waits for is ignored.
    pub open spec fn advance(self, response: ResponseView, now: Timestamp) -> FetchRunView {
        match (self.step, response) {
            (StepView::MarkStale, ResponseView::Done(Ok(_))) => {
                if self.context.targets.len() == 0 {
                    self.at(StepView::Done(OutcomeView::Completed))
                } else {
                    self.at(StepView::InspectLock)
                }
            },
            (StepView::MarkStale, ResponseView::Done(Err(cause))) => self.failed(
                ErrorKindView::PrimaryStoreWrite("cluster staleness"@),
                cause,
            ),
            (StepView::InspectLock, ResponseView::Lock(held)) => {
                if held {
                    self.at(StepView::FetchInfo)
                } else {
                    self.at(StepView::Done(OutcomeView::LockLost))
                }
            },
            (StepView::FetchInfo, ResponseView::Info(Ok(version))) => self.at(
                StepView::PersistInfo(
                    AgentInfoView {
                        cluster_id: self.context.cluster_id,
                        host: self.target(),
                        version_checkout: version.checkout,
                        version_number: version.number,
                        version_taint: version.taint,
                    },
                ),
            ),
            (StepView::FetchInfo, ResponseView::Info(Err(failure))) => self.agent_failed(
                classified(failure, "info"@, self.target()),
            ),
            (StepView::PersistInfo(_), ResponseView::Done(Ok(_))) => self.at(StepView::FetchNode),
            (StepView::PersistInfo(_), ResponseView::Done(Err(cause))) => self.failed(
                ErrorKindView::PrimaryStoreWrite("agent info"@),
                cause,
            ),
            (StepView::FetchNode, ResponseView::NodeInfo(Ok(wire))) => self.after_node_info(
                node_of(wire),
            ),
            (StepView::FetchNode, ResponseView::NodeInfo(Err(failure))) => self.agent_failed(
                classified(failure, "status"@, self.target()),
            ),
            (StepView::LoadNode(node), ResponseView::StoredNode(Ok(existing))) => {
                match node_event(node, existing, now) {
                    Some(event) => self.at(StepView::EmitNode(node, event)),
                    None => self.at(StepView::PersistNode(node)),
                }
            },
            (StepView::LoadNode(_), ResponseView::StoredNode(Err(cause))) => self.failed(
                ErrorKindView::PrimaryStoreRead("node"@),
                cause,
            ),
            (StepView::EmitNode(node, _), ResponseView::Done(Ok(_))) => self.at(
                StepView::PersistNode(node),
            ),
            (StepView::EmitNode(_, event), ResponseView::Done(Err(cause))) => self.failed(
                ErrorKindView::EventEmit(event.payload.code()),
                cause,
            ),
            (StepView::PersistNode(node), ResponseView::Done(Ok(_))) => FetchRunView {
                context: ContextView { node_id: node.node_id, ..self.context },
                step: StepView::FetchShards,
            },
            (StepView::PersistNode(_), ResponseView::Done(Err(cause))) => self.failed(
                ErrorKindView::PrimaryStoreWrite("node"@),
                cause,
            ),
            (StepView::FetchShards, ResponseView::ShardsList(Ok(wires))) => {
                if wires.len() == 0 {
                    self.at(StepView::PersistAgent(AgentStatusView::Up))
                } else {
                    FetchRunView {
                        context: ContextView {
                            shards: shards_of(
                                self.context.cluster_id,
                                self.context.node_id,
                                wires,
                            ),
                            shard_index: 0,
                            ..self.context
                        },
                        step: StepView::LoadShard,
                    }
                }
            },
            (StepView::FetchShards, ResponseView::ShardsList(Err(failure))) => self.agent_failed(
                classified(failure, "shards"@, self.target()),
            ),
            (StepView::LoadShard, ResponseView::StoredShard(Ok(existing))) => {
                let plan = shard_plan(self.shard(), existing, now);
                match plan.event {
                    Some(event) => self.at(StepView::EmitShard(event)),
                    None => if plan.persist {
                        self.at(StepView::PersistShard)
                    } else {
                        self.after_shard()
                    },
                }
            },
            (StepView::LoadShard, ResponseView::StoredShard(Err(cause))) => self.failed(
                ErrorKindView::PrimaryStoreRead("shard"@),
                cause,
            ),
            (StepView::EmitShard(_), ResponseView::Done(Ok(_))) => self.at(StepView::PersistShard),
            (StepView::EmitShard(event), ResponseView::Done(Err(cause))) => self.failed(
                ErrorKindView::EventEmit(event.payload.code()),
                cause,
            ),
            (StepView::PersistShard, ResponseView::Done(Ok(_))) => self.after_shard(),
            (StepView::PersistShard, ResponseView::Done(Err(cause))) => self.failed(
                ErrorKindView::PrimaryStoreWrite("shard"@),
                cause,
            ),
            (StepView::PersistAgent(_), ResponseView::Done(Ok(_))) => self.after_target(),
            (StepView::PersistAgent(_), ResponseView::Done(Err(cause))) => self.failed(
                ErrorKindView::PrimaryStoreWrite("agent"@),
                cause,
            ),
            _ => self,
        }
    }
}

impl View for FetchRun {
    type V = FetchRunView;

    closed spec fn view(&self) -> FetchRunView {
        FetchRunView { context: self.context@, step: self.step@ }
    }
}

fn fail(context: Context, kind: ErrorKind, cause: String) -> (next: FetchRun)
    ensures
        next@ == (FetchRunView {
            context: context@,
            step: StepView::Done(
                OutcomeView::Failed(ErrorView { kind: kind@, cause: Some(cause@) }),
            ),
        }),
{
    FetchRun { context, step: Step::Done(Outcome::Failed(Error::caused_by(kind, cause.as_str()))) }
}

fn agent_failed(context: Context, error: Error) -> (next: FetchRun)
    ensures
        next@ == (FetchRunView { context: context@, step: StepView::MarkStale }).agent_failed(
            error@,
        ),
{
    match error.agent_status() {
        Some(status) => FetchRun { context, step: Step::PersistAgent(status) },
        None => FetchRun { context, step: Step::Done(Outcome::Failed(error)) },
    }
}

fn after_target(context: Context) -> (next: FetchRun)
    requires
        context@.index < context@.targets.len(),
    ensures
        next@ == (FetchRunView { context: context@, step: StepView::MarkStale }).after_target(),
{
    let mut context = context;
    let count = context.targets.len();
    assert(context@.targets.len() == count);
    if context.index + 1 < count {
        context.index = context.index + 1;
        FetchRun { context, step: Step::InspectLock }
    } else {
        FetchRun { context, step: Step::Done(Outcome::Completed) }
    }
}

fn after_shard(context: Context) -> (next: FetchRun)
    requires
        context@.shard_index < context@.shards.len(),
    ensures
        next@ == (FetchRunView { context: context@, step: StepView::MarkStale }).after_shard(),
{
    let mut context = context;
    let count = context.shards.len();
    assert(context@.shards.len() == count);
    if context.shard_index + 1 < count {
        context.shard_index = context.shard_index + 1;
        FetchRun { context, step: Step::LoadShard }
    } else {
        FetchRun { context, step: Step::PersistAgent(AgentStatus::Up) }
    }
}

fn after_node_info(context: Context, node: Node) -> (next: FetchRun)
    ensures
        next@ == (FetchRunView { context: context@, step: StepView::MarkStale }).after_node_info(
            node@,
        ),
{
    let mut context = context;
    let ghost before = context@;
    match context.checker.check_id(node.cluster_id.as_str(), node.node_id.as_str()) {
        Err(error) => {
            assert(context@ == before);
            return agent_failed(context, error);
        },
        Ok(_) => {},
    }
    assert(context@ == before);
    match context.checker.check_or_set_display_name(
        node.cluster_display_name.as_str(),
        node.node_id.as_str(),
    ) {
        Err(error) => {
            assert(before.checker.with_display_name(node@.cluster_display_name)
                == before.checker);
            assert(context@ == before);
            agent_failed(context, error)
        },
        Ok(_) => FetchRun { context, step: Step::LoadNode(node) },
    }
}

fn shards_from(cluster_id: &String, node_id: &String, wires: &Vec<WireShard>) -> (shards: Vec<
    Shard,
>)
    ensures
        shards.deep_view() == shards_of(cluster_id@, node_id@, wires.deep_view()),
{
    let mut shards: Vec<Shard> = Vec::new();
    let mut i: usize = 0;
    while i < wires.len()
        invariant
            i <= wires.len(),
            shards.len() == i,
            forall|j: int|
                0 <= j < i ==> shards[j]@ == shard_of(cluster_id@, node_id@, wires[j]@),
        decreases wires.len() - i,
    {
        shards.push(Shard::new(cluster_id.as_str(), node_id.as_str(), wires[i].clone()));
        i += 1;
    }
    assert(shards.deep_view() =~= shards_of(cluster_id@, node_id@, wires.deep_view()));
    shards
}

/// Node (agent and datastore) status fetching and processing logic.
///
/// The fetcher is responsible, for each node, for fetching and persisting
/// the build of the agent, the identity of the node and the shards on it,
/// and for persisting the record of the agent last.
pub struct Fetcher {
    timeout: u64,
}

impl Fetcher {
    /// The seconds to wait for an agent to answer.
    pub closed spec fn spec_timeout(&self) -> u64 {
        self.timeout
    }

    /// A fetcher that gives each agent `timeout` seconds to answer.
    pub fn new(timeout: u64) -> (fetcher: Fetcher)
        ensures
            fetcher.spec_timeout() == timeout,
    {
        Fetcher { timeout }
    }

    /// The seconds to wait for an agent to answer.
    pub fn timeout(&self) -> (timeout: u64)
        ensures
            timeout == self.spec_timeout(),
    {
        self.timeout
    }

    /// Start the refresh of the view on the state of a cluster.
    ///
    /// Errors of the control plane itself stop the refresh and are
    /// reported. Errors of agents do not: they are accounted for as part of
    /// the state of the agent.
    pub fn fetch(&self, cluster: ClusterDiscovery) -> (run: FetchRun)
        ensures
            run@ == FetchRunView::start(cluster@),
            run.well_formed(),
    {
        FetchRun::start(cluster)
    }
}

impl FetchRun {
    /// See `FetchRunView::well_formed`.
    pub open spec fn well_formed(&self) -> bool {
        self@.well_formed()
    }

    /// Start the fetch of the cluster that `cluster` describes.
    pub fn start(cluster: ClusterDiscovery) -> (run: FetchRun)
        ensures
            run@ == FetchRunView::start(cluster@),
            run.well_formed(),
    {
        let checker = ClusterIdentityChecker::new(cluster.cluster_id.clone(), cluster.display_name);
        let shards: Vec<Shard> = Vec::new();
        assert(shards.deep_view() =~= Seq::<ShardView>::empty());
        FetchRun {
            context: Context {
                cluster_id: cluster.cluster_id,
                checker,
                targets: cluster.nodes,
                index: 0,
                node_id: String::new(),
                shards,
                shard_index: 0,
            },
            step: Step::MarkStale,
        }
    }

    /// How the fetch ended, once it has.
    pub fn outcome(&self) -> (outcome: Option<Outcome>)
        ensures
            outcome.deep_view() == self@.outcome(),
    {
        match &self.step {
            Step::Done(outcome) => Some(outcome.clone()),
            _ => None,
        }
    }

    /// Whether the fetch has ended.
    pub fn is_done(&self) -> (done: bool)
        ensures
            done == self@.outcome().is_some(),
            done == self@.request().is_none(),
    {
        match &self.step {
            Step::Done(_) => true,
            _ => false,
        }
    }

    /// What the fetch asks for next; nothing once it has ended.
    pub fn request(&self) -> (request: Option<Request>)
        requires
            self.well_formed(),
        ensures
            request.deep_view() == self@.request(),
    {
        let context = &self.context;
        match &self.step {
            Step::MarkStale => Some(Request::MarkStale { cluster_id: context.cluster_id.clone() }),
            Step::InspectLock => Some(Request::InspectLock),
            Step::FetchInfo => Some(
                Request::AgentInfo { target: context.targets[context.index].clone() },
            ),
            Step::PersistInfo(info) => Some(Request::PersistAgentInfo(info.clone())),
            Step::FetchNode => Some(
                Request::DatastoreInfo { target: context.targets[context.index].clone() },
            ),
            Step::LoadNode(node) => Some(
                Request::LoadNode {
                    cluster_id: node.cluster_id.clone(),
                    node_id: node.node_id.clone(),
                },
            ),
            Step::EmitNode(_, event) => Some(Request::Emit(event.clone())),
            Step::PersistNode(node) => Some(Request::PersistNode(node.clone())),
            Step::FetchShards => Some(
                Request::Shards { target: context.targets[context.index].clone() },
            ),
            Step::LoadShard => {
                let shard = &context.shards[context.shard_index];
                Some(
                    Request::LoadShard {
                        cluster_id: shard.cluster_id.clone(),
                        node_id: shard.node_id.clone(),
                        shard_id: shard.shard_id.clone(),
                    },
                )
            },
            Step::EmitShard(event) => Some(Request::Emit(event.clone())),
            Step::PersistShard => Some(
                Request::PersistShard(context.shards[context.shard_index].clone()),
            ),
            Step::PersistAgent(status) => Some(
                Request::PersistAgent(
                    Agent {
                        cluster_id: context.cluster_id.clone(),
                        host: context.targets[context.index].clone(),
                        status: status.clone(),
                    },
                ),
            ),
            Step::Done(_) => None,
        }
    }

    /// Take the answer `response`, which arrived at the instant `now`, and
    /// move on. An answer of another kind than the fetch waits for is ignored.
    pub fn advance(self, response: Response, now: Timestamp) -> (next: FetchRun)
        requires
            self.well_formed(),
        ensures
            next@ == self@.advance(response@, now),
            next.well_formed(),
    {
        let ghost before = self@;
        let FetchRun { context, step } = self;
        match (step, response) {
            (Step::MarkStale, Response::Done(Ok(_))) => {
                if context.targets.len() == 0 {
                    FetchRun { context, step: Step::Done(Outcome::Completed) }
                } else {
                    FetchRun { context, step: Step::InspectLock }
                }
            },
            (Step::MarkStale, Response::Done(Err(cause))) => fail(
                context,
                ErrorKind::PrimaryStoreWrite("cluster staleness"),
                cause,
            ),
            (Step::InspectLock, Response::Lock(held)) => {
                if held {
                    FetchRun { context, step: Step::FetchInfo }
                } else {
                    FetchRun { context, step: Step::Done(Outcome::LockLost) }
                }
            },
            (Step::FetchInfo, Response::Info(Ok(version))) => {
                let info = AgentInfo::new(
                    context.cluster_id.as_str(),
                    context.targets[context.index].as_str(),
                    version,
                );
                FetchRun { context, step: Step::PersistInfo(info) }
            },
            (Step::FetchInfo, Response::Info(Err(failure))) => {
                let error = classify(&failure, "info", context.targets[context.index].as_str());
                agent_failed(context, error)
            },
            (Step::PersistInfo(_), Response::Done(Ok(_))) => FetchRun {
                context,
                step: Step::FetchNode,
            },
            (Step::PersistInfo(_), Response::Done(Err(cause))) => fail(
                context,
                ErrorKind::PrimaryStoreWrite("agent info"),
                cause,
            ),
            (Step::FetchNode, Response::NodeInfo(Ok(wire))) => after_node_info(
                context,
                Node::new(wire),
            ),
            (Step::FetchNode, Response::NodeInfo(Err(failure))) => {
                let error = classify(&failure, "status", context.targets[context.index].as_str());
                agent_failed(context, error)
            },
            (Step::LoadNode(node), Response::StoredNode(Ok(existing))) => {
                match process_node(&node, existing, now) {
                    Some(event) => FetchRun { context, step: Step::EmitNode(node, event) },
                    None => FetchRun { context, step: Step::PersistNode(node) },
                }
            },
            (Step::LoadNode(_), Response::StoredNode(Err(cause))) => fail(
                context,
                ErrorKind::PrimaryStoreRead("node"),
                cause,
            ),
            (Step::EmitNode(node, _), Response::Done(Ok(_))) => FetchRun {
                context,
                step: Step::PersistNode(node),
            },
            (Step::EmitNode(_, event), Response::Done(Err(cause))) => fail(
                context,
                ErrorKind::EventEmit(event.payload.code()),
                cause,
            ),
            (Step::PersistNode(node), Response::Done(Ok(_))) => {
                let mut context = context;
                context.node_id = node.node_id;
                FetchRun { context, step: Step::FetchShards }
            },
            (Step::PersistNode(_), Response::Done(Err(cause))) => fail(
                context,
                ErrorKind::PrimaryStoreWrite("node"),
                cause,
            ),
            (Step::FetchShards, Response::ShardsList(Ok(wires))) => {
                if wires.len() == 0 {
                    assert(wires.deep_view().len() == 0);
                    FetchRun { context, step: Step::PersistAgent(AgentStatus::Up) }
                } else {
                    assert(wires.deep_view().len() != 0);
                    let mut context = context;
                    context.shards = shards_from(&context.cluster_id, &context.node_id, &wires);
                    context.shard_index = 0;
                    FetchRun { context, step: Step::LoadShard }
                }
            },
            (Step::FetchShards, Response::ShardsList(Err(failure))) => {
                let error = classify(&failure, "shards", context.targets[context.index].as_str());
                agent_failed(context, error)
            },
            (Step::LoadShard, Response::StoredShard(Ok(existing))) => {
                let plan = process_shard(&context.shards[context.shard_index], existing, now);
                match plan.event {
                    Some(event) => FetchRun { context, step: Step::EmitShard(event) },
                    None => {
                        if plan.persist {
                            FetchRun { context, step: Step::PersistShard }
                        } else {
                            after_shard(context)
                        }
                    },
                }
            },
            (Step::LoadShard, Response::StoredShard(Err(cause))) => fail(
                context,
                ErrorKind::PrimaryStoreRead("shard"),
                cause,
            ),
            (Step::EmitShard(_), Response::Done(Ok(_))) => FetchRun {
                context,
                step: Step::PersistShard,
            },
            (Step::EmitShard(event), Response::Done(Err(cause))) => fail(
                context,
                ErrorKind::EventEmit(event.payload.code()),
                cause,
            ),
            (Step::PersistShard, Response::Done(Ok(_))) => after_shard(context),
            (Step::PersistShard, Response::Done(Err(cause))) => fail(
                context,
                ErrorKind::PrimaryStoreWrite("shard"),
                cause,
            ),
            (Step::PersistAgent(_), Response::Done(Ok(_))) => after_target(context),
            (Step::PersistAgent(_), Response::Done(Err(cause))) => fail(
                context,
                ErrorKind::PrimaryStoreWrite("agent"),
                cause,
            ),
            (step, _) => FetchRun { context, step },
        }
    }
}

} // verus!
