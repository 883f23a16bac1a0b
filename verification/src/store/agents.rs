//! Operations on all the agents and all the nodes of a cluster.
use crate::aggregator::node_kinds;
use crate::models::agent::Agent;
use crate::models::agent::AgentStatus;
use crate::models::agent::AgentView;
use crate::models::datastore::Node;
use crate::store::mock::MockStore;
use crate::store::table::fresh_values;
use crate::text::distinct;
use crate::text::first_occurrences;
use vstd::prelude::*;

verus! {

/// Attributes attached to all operations on the agents of a cluster.
#[derive(Debug, PartialEq, Eq)]
pub struct AgentsAttribures {
    pub cluster_id: String,
}

/// Attributes attached to all operations on the nodes of a cluster.
#[derive(Debug, PartialEq, Eq)]
pub struct NodesAttribures {
    pub cluster_id: String,
}

/// How many agents a cluster has, and how many of them, or of the nodes
/// behind them, are down.
#[derive(Clone, Copy, Debug, PartialEq, Eq, Structural)]
pub struct AgentsCounts {
    pub agents_down: u64,
    pub nodes: u64,
    pub nodes_down: u64,
}

/// How many of `agents` are down themselves.
pub open spec fn agents_down(agents: Seq<AgentView>) -> nat
    decreases agents.len(),
{
    if agents.len() == 0 {
        0
    } else {
        agents_down(agents.drop_last()) + if agents.last().status is AgentDown {
            1nat
        } else {
            0nat
        }
    }
}

/// How many of `agents` stand in front of a node that is down.
pub open spec fn nodes_down(agents: Seq<AgentView>) -> nat
    decreases agents.len(),
{
    if agents.len() == 0 {
        0
    } else {
        nodes_down(agents.drop_last()) + if agents.last().status is NodeDown {
            1nat
        } else {
            0nat
        }
    }
}

/// Agents that are down and nodes that are down are different agents.
pub proof fn lemma_down_within(agents: Seq<AgentView>)
    ensures
        agents_down(agents) + nodes_down(agents) <= agents.len(),
    decreases agents.len(),
{
    if agents.len() > 0 {
        lemma_down_within(agents.drop_last());
    }
}

/// Count the agents among `agents` by their status.
pub fn count_agents(agents: &Vec<&Agent>) -> (counts: AgentsCounts)
    ensures
        counts.nodes == agents.deep_view().len(),
        counts.agents_down == agents_down(agents.deep_view()),
        counts.nodes_down == nodes_down(agents.deep_view()),
{
    let ghost all = agents.deep_view();
    let mut agents_are_down: usize = 0;
    let mut nodes_are_down: usize = 0;
    let mut i: usize = 0;
    assert(all.take(0) =~= Seq::<AgentView>::empty());
    while i < agents.len()
        invariant
            i <= agents.len(),
            all == agents.deep_view(),
            agents_are_down == agents_down(all.take(i as int)),
            nodes_are_down == nodes_down(all.take(i as int)),
            agents_are_down + nodes_are_down <= i,
        decreases agents.len() - i,
    {
        proof {
            assert(all.take(i + 1).drop_last() =~= all.take(i as int));
            assert(all.take(i + 1).last() == agents[i as int]@);
        }
        match &agents[i].status {
            AgentStatus::Up => {},
            AgentStatus::AgentDown(_) => {
                agents_are_down += 1;
            },
            AgentStatus::NodeDown(_) => {
                nodes_are_down += 1;
            },
        }
        i += 1;
    }
    assert(all.take(agents.len() as int) =~= all);
    AgentsCounts {
        agents_down: agents_are_down as u64,
        nodes: agents.len() as u64,
        nodes_down: nodes_are_down as u64,
    }
}

impl MockStore {
    /// How many agents `cluster` has, and how many of them, or of the nodes
    /// behind them, are down.
    pub fn agents_counts(&self, attrs: &AgentsAttribures) -> (counts: AgentsCounts)
        requires
            self.well_formed(),
        ensures
            counts.nodes == fresh_values(self.agents@, attrs.cluster_id@).len(),
            counts.agents_down == agents_down(fresh_values(self.agents@, attrs.cluster_id@)),
            counts.nodes_down == nodes_down(fresh_values(self.agents@, attrs.cluster_id@)),
    {
        let agents = self.agents.fresh(attrs.cluster_id.as_str());
        count_agents(&agents)
    }

    /// The nodes of `cluster` that are not stale, in the order kept.
    pub fn nodes_of(&self, attrs: &NodesAttribures) -> (found: Vec<Node>)
        requires
            self.well_formed(),
        ensures
            found.deep_view() == fresh_values(self.nodes@, attrs.cluster_id@),
    {
        let fresh = self.nodes.fresh(attrs.cluster_id.as_str());
        let mut found: Vec<Node> = Vec::new();
        let mut i: usize = 0;
        while i < fresh.len()
            invariant
                i <= fresh.len(),
                found.len() == i,
                forall|j: int| 0 <= j < i ==> (#[trigger] found[j])@ == fresh[j]@,
            decreases fresh.len() - i,
        {
            found.push(fresh[i].clone());
            i += 1;
        }
        assert(found.deep_view() =~= fresh.deep_view());
        found
    }

    /// The kinds of the nodes of `cluster` that are not stale, each once in
    /// the order first seen.
    pub fn nodes_kinds(&self, attrs: &NodesAttribures) -> (kinds: Vec<String>)
        requires
            self.well_formed(),
        ensures
            kinds.deep_view() == first_occurrences(
                node_kinds(fresh_values(self.nodes@, attrs.cluster_id@)),
            ),
    {
        let fresh = self.nodes.fresh(attrs.cluster_id.as_str());
        let mut kinds: Vec<String> = Vec::new();
        let mut i: usize = 0;
        while i < fresh.len()
            invariant
                i <= fresh.len(),
                kinds.len() == i,
                forall|j: int| 0 <= j < i ==> (#[trigger] kinds[j])@ == fresh[j]@.kind,
            decreases fresh.len() - i,
        {
            kinds.push(fresh[i].kind.clone());
            i += 1;
        }
        assert(kinds.deep_view() =~= node_kinds(fresh.deep_view()));
        distinct(&kinds)
    }
}

} // verus!
