//! What the fetcher asks of the world around it, and what it is answered.
//!
//! The fetcher itself does no input or output. It says what is to be done
//! next, and whoever drives it does that and hands back the answer.
use crate::fetcher::agent::AgentFailure;
use crate::fetcher::agent::AgentFailureView;
use crate::models::agent::Agent;
use crate::models::agent::AgentInfo;
use crate::models::agent::AgentInfoView;
use crate::models::agent::AgentVersion;
use crate::models::agent::AgentVersionView;
use crate::models::agent::AgentView;
use crate::models::datastore::Node;
use crate::models::datastore::NodeView;
use crate::models::datastore::Shard;
use crate::models::datastore::ShardView;
use crate::models::datastore::WireNode;
use crate::models::datastore::WireNodeView;
use crate::models::datastore::WireShard;
use crate::models::datastore::WireShardView;
use crate::models::events::Event;
use crate::models::events::EventView;
use crate::text::result_view;
use vstd::prelude::*;

verus! {

/// What the fetcher asks for.
#[derive(Debug, PartialEq, Eq)]
pub enum Request {
    /// Mark the state of the cluster stale in the primary store.
    MarkStale { cluster_id: String },
    /// Read the watcher of the lock that guards the refresh.
    InspectLock,
    /// Ask the agent at `target` for its build.
    AgentInfo { target: String },
    /// Ask the agent at `target` for the identity of its node.
    DatastoreInfo { target: String },
    /// Ask the agent at `target` for the shards on its node.
    Shards { target: String },
    /// Read the record of a node from the primary store.
    LoadNode { cluster_id: String, node_id: String },
    /// Read the record of a shard from the primary store.
    LoadShard { cluster_id: String, node_id: String, shard_id: String },
    /// Write the record of the build of an agent to the primary store.
    PersistAgentInfo(AgentInfo),
    /// Write the record of a node to the primary store.
    PersistNode(Node),
    /// Write the record of a shard to the primary store.
    PersistShard(Shard),
    /// Write the record of an agent to the primary store.
    PersistAgent(Agent),
    /// Emit an event on the events stream.
    Emit(Event),
}

/// What a `Request` holds.
pub enum RequestView {
    MarkStale { cluster_id: Seq<char> },
    InspectLock,
    AgentInfo { target: Seq<char> },
    DatastoreInfo { target: Seq<char> },
    Shards { target: Seq<char> },
    LoadNode { cluster_id: Seq<char>, node_id: Seq<char> },
    LoadShard { cluster_id: Seq<char>, node_id: Seq<char>, shard_id: Seq<char> },
    PersistAgentInfo(AgentInfoView),
    PersistNode(NodeView),
    PersistShard(ShardView),
    PersistAgent(AgentView),
    Emit(EventView),
}

impl View for Request {
    type V = RequestView;

    open spec fn view(&self) -> RequestView {
        match self {
            Request::MarkStale { cluster_id } => RequestView::MarkStale { cluster_id: cluster_id@ },
            Request::InspectLock => RequestView::InspectLock,
            Request::AgentInfo { target } => RequestView::AgentInfo { target: target@ },
            Request::DatastoreInfo { target } => RequestView::DatastoreInfo { target: target@ },
            Request::Shards { target } => RequestView::Shards { target: target@ },
            Request::LoadNode { cluster_id, node_id } => RequestView::LoadNode {
                cluster_id: cluster_id@,
                node_id: node_id@,
            },
            Request::LoadShard { cluster_id, node_id, shard_id } => RequestView::LoadShard {
                cluster_id: cluster_id@,
                node_id: node_id@,
                shard_id: shard_id@,
            },
            Request::PersistAgentInfo(info) => RequestView::PersistAgentInfo(info@),
            Request::PersistNode(node) => RequestView::PersistNode(node@),
            Request::PersistShard(shard) => RequestView::PersistShard(shard@),
            Request::PersistAgent(agent) => RequestView::PersistAgent(agent@),
            Request::Emit(event) => RequestView::Emit(event@),
        }
    }
}

impl DeepView for Request {
    type V = RequestView;

    open spec fn deep_view(&self) -> RequestView {
        self@
    }
}

/// What the fetcher is answered. A failure of the primary store or of the
/// events stream comes as the text that describes it.
#[derive(Debug, PartialEq, Eq)]
pub enum Response {
    /// The outcome of a write to the primary store or of emitting an event.
    Done(core::result::Result<(), String>),
    /// Whether the lock is still held.
    Lock(bool),
    /// What the agent said of its build.
    Info(core::result::Result<AgentVersion, AgentFailure>),
    /// What the agent said of the identity of its node.
    NodeInfo(core::result::Result<WireNode, AgentFailure>),
    /// What the agent said of the shards on its node.
    ShardsList(core::result::Result<Vec<WireShard>, AgentFailure>),
    /// The record of the node that the primary store holds, if any.
    StoredNode(core::result::Result<Option<Node>, String>),
    /// The record of the shard that the primary store holds, if any.
    StoredShard(core::result::Result<Option<Shard>, String>),
}

/// What a `Response` holds.
pub enum ResponseView {
    Done(core::result::Result<(), Seq<char>>),
    Lock(bool),
    Info(core::result::Result<AgentVersionView, AgentFailureView>),
    NodeInfo(core::result::Result<WireNodeView, AgentFailureView>),
    ShardsList(core::result::Result<Seq<WireShardView>, AgentFailureView>),
    StoredNode(core::result::Result<Option<NodeView>, Seq<char>>),
    StoredShard(core::result::Result<Option<ShardView>, Seq<char>>),
}

impl View for Response {
    type V = ResponseView;

    open spec fn view(&self) -> ResponseView {
        match self {
            Response::Done(outcome) => ResponseView::Done(
                match outcome {
                    Ok(_) => Ok(()),
                    Err(cause) => Err(cause@),
                },
            ),
            Response::Lock(held) => ResponseView::Lock(*held),
            Response::Info(outcome) => ResponseView::Info(result_view(*outcome)),
            Response::NodeInfo(outcome) => ResponseView::NodeInfo(result_view(*outcome)),
            Response::ShardsList(outcome) => ResponseView::ShardsList(result_view(*outcome)),
            Response::StoredNode(outcome) => ResponseView::StoredNode(result_view(*outcome)),
            Response::StoredShard(outcome) => ResponseView::StoredShard(result_view(*outcome)),
        }
    }
}

} // verus!
