//! The aggregator: rolls the nodes that a refresh persisted up into the
//! metadata of their cluster.
//!
//! The lock watcher is read before each expensive step, and the aggregation
//! stops cleanly once the lock is lost.
use crate::fetcher::error::Error;
use crate::fetcher::error::ErrorKind;
use crate::fetcher::error::ErrorKindView;
use crate::fetcher::error::ErrorView;
use crate::fetcher::fetch::Outcome;
use crate::fetcher::fetch::OutcomeView;
use crate::models::cluster::ClusterDiscovery;
use crate::models::cluster::ClusterDiscoveryView;
use crate::models::cluster::ClusterMeta;
use crate::models::cluster::ClusterMetaView;
use crate::models::datastore::Node;
use crate::models::datastore::NodeView;
use crate::text::distinct;
use crate::text::first_occurrences;
use crate::text::lemma_first_occurrences;
use crate::text::result_view;
use vstd::prelude::*;

verus! {

/// The kind of each of `nodes`, in order.
pub open spec fn node_kinds(nodes: Seq<NodeView>) -> Seq<Seq<char>> {
    Seq::new(nodes.len(), |i: int| nodes[i].kind)
}

/// The identifier of each of `nodes`, in order.
pub open spec fn node_ids(nodes: Seq<NodeView>) -> Seq<Seq<char>> {
    Seq::new(nodes.len(), |i: int| nodes[i].node_id)
}

/// The metadata of the cluster that `discovery` describes, given the nodes
/// that the latest refresh persisted for it: the kinds of the nodes, each
/// once in the order first seen, and the number of distinct nodes. The number
/// is kept in 32 bits and stops at the largest value they hold.
pub open spec fn aggregated(discovery: ClusterDiscoveryView, nodes: Seq<NodeView>)
    -> ClusterMetaView {
    let count = first_occurrences(node_ids(nodes)).len();
    ClusterMetaView {
        cluster_id: discovery.cluster_id,
        display_name: match discovery.display_name {
            Some(name) => name,
            None => discovery.cluster_id,
        },
        kinds: first_occurrences(node_kinds(nodes)),
        nodes: if count <= i32::MAX {
            count as int
        } else {
            i32::MAX as int
        },
    }
}

/// The number of nodes in the metadata is the number of distinct identifiers
/// among the nodes, as long as that fits in 32 bits, and no kind is listed twice.
pub proof fn lemma_aggregated_counts(discovery: ClusterDiscoveryView, nodes: Seq<NodeView>)
    ensures
        aggregated(discovery, nodes).well_formed(),
        node_ids(nodes).to_set().len() <= i32::MAX ==> aggregated(discovery, nodes).nodes
            == node_ids(nodes).to_set().len(),
        aggregated(discovery, nodes).kinds.to_set() == node_kinds(nodes).to_set(),
{
    lemma_first_occurrences(node_ids(nodes));
    lemma_first_occurrences(node_kinds(nodes));
}

/// Build the metadata of the cluster that `discovery` describes from the
/// nodes that the latest refresh persisted for it.
pub fn aggregate(discovery: &ClusterDiscovery, nodes: &Vec<Node>) -> (meta: ClusterMeta)
    ensures
        meta@ == aggregated(discovery@, nodes.deep_view()),
        meta@.well_formed(),
{
    let mut kinds: Vec<String> = Vec::new();
    let mut ids: Vec<String> = Vec::new();
    let mut i: usize = 0;
    while i < nodes.len()
        invariant
            i <= nodes.len(),
            kinds.len() == i,
            ids.len() == i,
            forall|j: int| 0 <= j < i ==> kinds[j]@ == nodes[j]@.kind,
            forall|j: int| 0 <= j < i ==> ids[j]@ == nodes[j]@.node_id,
        decreases nodes.len() - i,
    {
        kinds.push(nodes[i].kind.clone());
        ids.push(nodes[i].node_id.clone());
        i += 1;
    }
    assert(kinds.deep_view() =~= node_kinds(nodes.deep_view()));
    assert(ids.deep_view() =~= node_ids(nodes.deep_view()));
    let kinds = distinct(&kinds);
    let ids = distinct(&ids);
    let count: i32 = if ids.len() <= i32::MAX as usize {
        ids.len() as i32
    } else {
        i32::MAX
    };
    let display_name = match &discovery.display_name {
        Some(name) => name.clone(),
        None => discovery.cluster_id.clone(),
    };
    proof {
        lemma_aggregated_counts(discovery@, nodes.deep_view());
    }
    ClusterMeta { cluster_id: discovery.cluster_id.clone(), display_name, kinds, nodes: count }
}

/// What the aggregator asks for.
#[derive(Debug, PartialEq, Eq)]
pub enum Request {
    /// Read the watcher of the lock that guards the refresh.
    InspectLock,
    /// Read the nodes of the cluster that are not stale from the primary store.
    LoadNodes { cluster_id: String },
    /// Write the metadata of the cluster to the primary store.
    PersistMeta(ClusterMeta),
}

/// What a `Request` holds.
pub enum RequestView {
    InspectLock,
    LoadNodes { cluster_id: Seq<char> },
    PersistMeta(ClusterMetaView),
}

impl View for Request {
    type V = RequestView;

    open spec fn view(&self) -> RequestView {
        match self {
            Request::InspectLock => RequestView::InspectLock,
            Request::LoadNodes { cluster_id } => RequestView::LoadNodes { cluster_id: cluster_id@ },
            Request::PersistMeta(meta) => RequestView::PersistMeta(meta@),
        }
    }
}

impl DeepView for Request {
    type V = RequestView;

    open spec fn deep_view(&self) -> RequestView {
        self@
    }
}

/// What the aggregator is answered. A failure of the primary store comes as
/// the text that describes it.
#[derive(Debug, PartialEq, Eq)]
pub enum Response {
    /// Whether the lock is still held.
    Lock(bool),
    /// The nodes of the cluster that are not stale.
    Nodes(core::result::Result<Vec<Node>, String>),
    /// The outcome of the write.
    Done(core::result::Result<(), String>),
}

/// What a `Response` holds.
pub enum ResponseView {
    Lock(bool),
    Nodes(core::result::Result<Seq<NodeView>, Seq<char>>),
    Done(core::result::Result<(), Seq<char>>),
}

impl View for Response {
    type V = ResponseView;

    open spec fn view(&self) -> ResponseView {
        match self {
            Response::Lock(held) => ResponseView::Lock(*held),
            Response::Nodes(outcome) => ResponseView::Nodes(result_view(*outcome)),
            Response::Done(outcome) => ResponseView::Done(
                match outcome {
                    Ok(_) => Ok(()),
                    Err(cause) => Err(cause@),
                },
            ),
        }
    }
}

/// Where an aggregation stands: what it waits for.
pub enum Step {
    /// The reading of the lock watcher, before the nodes are loaded.
    InspectBeforeLoad,
    /// The nodes of the cluster.
    LoadNodes,
    /// The reading of the lock watcher, before the metadata is persisted.
    InspectBeforePersist(ClusterMeta),
    /// The answer to persisting the metadata.
    PersistMeta(ClusterMeta),
    /// Nothing: the aggregation has ended.
    Done(Outcome),
}

/// What a `Step` holds.
pub enum StepView {
    InspectBeforeLoad,
    LoadNodes,
    InspectBeforePersist(ClusterMetaView),
    PersistMeta(ClusterMetaView),
    Done(OutcomeView),
}

impl View for Step {
    type V = StepView;

    open spec fn view(&self) -> StepView {
        match self {
            Step::InspectBeforeLoad => StepView::InspectBeforeLoad,
            Step::LoadNodes => StepView::LoadNodes,
            Step::InspectBeforePersist(meta) => StepView::InspectBeforePersist(meta@),
            Step::PersistMeta(meta) => StepView::PersistMeta(meta@),
            Step::Done(outcome) => StepView::Done(outcome@),
        }
    }
}

/// An aggregation in progress.
pub struct Aggregator {
    discovery: ClusterDiscovery,
    step: Step,
}

/// What an `Aggregator` holds.
pub struct AggregatorView {
    pub discovery: ClusterDiscoveryView,
    pub step: StepView,
}

impl AggregatorView {
    /// The aggregation at another step.
    pub open spec fn at(self, step: StepView) -> AggregatorView {
        AggregatorView { step, ..self }
    }

    /// How the aggregation ended, once it has.
    pub open spec fn outcome(self) -> Option<OutcomeView> {
        match self.step {
            StepView::Done(outcome) => Some(outcome),
            _ => None,
        }
    }

    /// What the aggregation asks for next; nothing once it has ended.
    pub open spec fn request(self) -> Option<RequestView> {
        match self.step {
            StepView::InspectBeforeLoad => Some(RequestView::InspectLock),
            StepView::LoadNodes => Some(
                RequestView::LoadNodes { cluster_id: self.discovery.cluster_id },
            ),
            StepView::InspectBeforePersist(_) => Some(RequestView::InspectLock),
            StepView::PersistMeta(meta) => Some(RequestView::PersistMeta(meta)),
            StepView::Done(_) => None,
        }
    }

    /// The aggregation stopped by an error of the control plane.
    pub open spec fn failed(self, kind: ErrorKindView, cause: Seq<char>) -> AggregatorView {
        self.at(StepView::Done(OutcomeView::Failed(ErrorView { kind, cause: Some(cause) })))
    }

    /// The aggregation after the answer `response`. An answer of another kind
    /// than the aggregation waits for is ignored.
    pub open spec fn advance(self, response: ResponseView) -> AggregatorView {
        match (self.step, response) {
            (StepView::InspectBeforeLoad, ResponseView::Lock(held)) => if held {
                self.at(StepView::LoadNodes)
            } else {
                self.at(StepView::Done(OutcomeView::LockLost))
            },
            (StepView::LoadNodes, ResponseView::Nodes(Ok(nodes))) => self.at(
                StepView::InspectBeforePersist(aggregated(self.discovery, nodes)),
            ),
            (StepView::LoadNodes, ResponseView::Nodes(Err(cause))) => self.failed(
                ErrorKindView::PrimaryStoreRead("nodes"@),
                cause,
            ),
            (StepView::InspectBeforePersist(meta), ResponseView::Lock(held)) => if held {
                self.at(StepView::PersistMeta(meta))
            } else {
                self.at(StepView::Done(OutcomeView::LockLost))
            },
            (StepView::PersistMeta(_), ResponseView::Done(Ok(_))) => self.at(
                StepView::Done(OutcomeView::Completed),
            ),
            (StepView::PersistMeta(_), ResponseView::Done(Err(cause))) => self.failed(
                ErrorKindView::PrimaryStoreWrite("cluster meta"@),
                cause,
            ),
            _ => self,
        }
    }
}

impl View for Aggregator {
    type V = AggregatorView;

    closed spec fn view(&self) -> AggregatorView {
        AggregatorView { discovery: self.discovery@, step: self.step@ }
    }
}

impl Aggregator {
    /// Start the aggregation of the cluster that `discovery` describes.
    pub fn new(discovery: ClusterDiscovery) -> (aggregator: Aggregator)
        ensures
            aggregator@ == (AggregatorView {
                discovery: discovery@,
                step: StepView::InspectBeforeLoad,
            }),
    {
        Aggregator { discovery, step: Step::InspectBeforeLoad }
    }

    /// How the aggregation ended, once it has.
    pub fn outcome(&self) -> (outcome: Option<Outcome>)
        ensures
            outcome.deep_view() == self@.outcome(),
    {
        match &self.step {
            Step::Done(outcome) => Some(outcome.clone()),
            _ => None,
        }
    }

    /// What the aggregation asks for next; nothing once it has ended.
    pub fn request(&self) -> (request: Option<Request>)
        ensures
            request.deep_view() == self@.request(),
    {
        match &self.step {
            Step::InspectBeforeLoad => Some(Request::InspectLock),
            Step::LoadNodes => Some(
                Request::LoadNodes { cluster_id: self.discovery.cluster_id.clone() },
            ),
            Step::InspectBeforePersist(_) => Some(Request::InspectLock),
            Step::PersistMeta(meta) => Some(Request::PersistMeta(meta.clone())),
            Step::Done(_) => None,
        }
    }

    /// Take the answer `response` and move on. An answer of another kind than
    /// the aggregation waits for is ignored.
    pub fn advance(self, response: Response) -> (next: Aggregator)
        ensures
            next@ == self@.advance(response@),
    {
        let Aggregator { discovery, step } = self;
        match (step, response) {
            (Step::InspectBeforeLoad, Response::Lock(held)) => {
                if held {
                    Aggregator { discovery, step: Step::LoadNodes }
                } else {
                    Aggregator { discovery, step: Step::Done(Outcome::LockLost) }
                }
            },
            (Step::LoadNodes, Response::Nodes(Ok(nodes))) => {
                let meta = aggregate(&discovery, &nodes);
                Aggregator { discovery, step: Step::InspectBeforePersist(meta) }
            },
            (Step::LoadNodes, Response::Nodes(Err(cause))) => Aggregator {
                discovery,
                step: Step::Done(
                    Outcome::Failed(
                        Error::caused_by(ErrorKind::PrimaryStoreRead("nodes"), cause.as_str()),
                    ),
                ),
            },
            (Step::InspectBeforePersist(meta), Response::Lock(held)) => {
                if held {
                    Aggregator { discovery, step: Step::PersistMeta(meta) }
                } else {
                    Aggregator { discovery, step: Step::Done(Outcome::LockLost) }
                }
            },
            (Step::PersistMeta(_), Response::Done(Ok(_))) => Aggregator {
                discovery,
                step: Step::Done(Outcome::Completed),
            },
            (Step::PersistMeta(_), Response::Done(Err(cause))) => Aggregator {
                discovery,
                step: Step::Done(
                    Outcome::Failed(
                        Error::caused_by(
                            ErrorKind::PrimaryStoreWrite("cluster meta"),
                            cause.as_str(),
                        ),
                    ),
                ),
            },
            (step, _) => Aggregator { discovery, step },
        }
    }
}

} // verus!
