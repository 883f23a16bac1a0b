//! What a refresh leaves in the store.
//!
//! A refresh first marks the records of its cluster stale and then writes
//! what it finds. What is not stale afterwards is what the refresh wrote.
use crate::aggregator::aggregated;
use crate::aggregator::lemma_aggregated_counts;
use crate::aggregator::node_ids;
use crate::models::agent::AgentView;
use crate::models::cluster::ClusterDiscoveryView;
use crate::models::datastore::NodeView;
use crate::store::table::distinct_keys;
use crate::store::table::fresh_values;
use crate::store::table::has_key;
use crate::store::table::index_of;
use crate::store::table::lemma_lookup_after_upsert;
use crate::store::table::lemma_staled_keeps_distinct;
use crate::store::table::lemma_upsert_keeps_distinct;
use crate::store::table::lookup;
use crate::store::table::pair_key;
use crate::store::table::staled;
use crate::store::table::upserted;
use crate::store::table::EntryView;
use vstd::prelude::*;

verus! {

/// The record of an agent that was persisted is the record that is read
/// back under the cluster and the host of the agent.
pub proof fn lemma_persisted_agent_is_read_back(
    agents: Seq<EntryView<AgentView>>,
    agent: AgentView,
)
    requires
        distinct_keys(agents),
    ensures
        lookup(
            upserted(agents, pair_key(agent.cluster_id, agent.host), agent),
            pair_key(agent.cluster_id, agent.host),
        ) == Some(
            EntryView { key: pair_key(agent.cluster_id, agent.host), value: agent, stale: false },
        ),
{
    let key = pair_key(agent.cluster_id, agent.host);
    lemma_lookup_after_upsert(agents, key, agent, key);
}

/// Every node is kept under its cluster and its identifier.
pub open spec fn keyed_by_identity(nodes: Seq<EntryView<NodeView>>) -> bool {
    forall|i: int|
        0 <= i < nodes.len() ==> (#[trigger] nodes[i]).key == pair_key(
            nodes[i].value.cluster_id,
            nodes[i].value.node_id,
        )
}

/// The table of nodes after each of `persisted` was written in turn.
pub open spec fn persisted_all(nodes: Seq<EntryView<NodeView>>, persisted: Seq<NodeView>) -> Seq<
    EntryView<NodeView>,
>
    decreases persisted.len(),
{
    if persisted.len() == 0 {
        nodes
    } else {
        upserted(
            persisted_all(nodes, persisted.drop_last()),
            pair_key(persisted.last().cluster_id, persisted.last().node_id),
            persisted.last(),
        )
    }
}

/// Whether a node called `node_id` of the cluster is in the table and not stale.
pub open spec fn has_fresh(
    nodes: Seq<EntryView<NodeView>>,
    cluster_id: Seq<char>,
    node_id: Seq<char>,
) -> bool {
    exists|i: int|
        0 <= i < nodes.len() && (#[trigger] nodes[i]).key.cluster_id == cluster_id
            && !nodes[i].stale && nodes[i].value.node_id == node_id
}

/// The identifiers of the nodes of a cluster that are not stale are those of
/// the records of the cluster that are not stale.
pub proof fn lemma_fresh_ids(
    nodes: Seq<EntryView<NodeView>>,
    cluster_id: Seq<char>,
    node_id: Seq<char>,
)
    ensures
        node_ids(fresh_values(nodes, cluster_id)).to_set().contains(node_id) == has_fresh(
            nodes,
            cluster_id,
            node_id,
        ),
    decreases nodes.len(),
{
    let fresh = fresh_values(nodes, cluster_id);
    let ids = node_ids(fresh);
    if nodes.len() == 0 {
        assert(!ids.to_set().contains(node_id));
    } else {
        let shorter = nodes.drop_last();
        lemma_fresh_ids(shorter, cluster_id, node_id);
        let rest = fresh_values(shorter, cluster_id);
        let last = nodes.last();
        if has_fresh(nodes, cluster_id, node_id) {
            let i = choose|i: int|
                0 <= i < nodes.len() && (#[trigger] nodes[i]).key.cluster_id == cluster_id
                    && !nodes[i].stale && nodes[i].value.node_id == node_id;
            if i < shorter.len() {
                assert(shorter[i] == nodes[i]);
                assert(has_fresh(shorter, cluster_id, node_id));
                let k = choose|k: int|
                    0 <= k < node_ids(rest).len() && node_ids(rest)[k] == node_id;
                assert(ids[k] == node_id);
            } else {
                assert(fresh == rest.push(last.value));
                assert(ids[rest.len() as int] == node_id);
            }
            assert(ids.to_set().contains(node_id));
        }
        if ids.to_set().contains(node_id) {
            let k = choose|k: int| 0 <= k < ids.len() && ids[k] == node_id;
            if k < rest.len() {
                assert(node_ids(rest)[k] == node_id);
                assert(node_ids(rest).to_set().contains(node_id));
                let i = choose|i: int|
                    0 <= i < shorter.len() && (#[trigger] shorter[i]).key.cluster_id == cluster_id
                        && !shorter[i].stale && shorter[i].value.node_id == node_id;
                assert(nodes[i] == shorter[i]);
            } else {
                assert(nodes[nodes.len() - 1] == last);
            }
            assert(has_fresh(nodes, cluster_id, node_id));
        }
    }
}

/// After the nodes `persisted` of the cluster were written over a table in
/// which the cluster is stale, the nodes of the cluster that are not stale
/// are those that were written.
pub proof fn lemma_fresh_after_refresh(
    nodes: Seq<EntryView<NodeView>>,
    cluster_id: Seq<char>,
    persisted: Seq<NodeView>,
    node_id: Seq<char>,
)
    requires
        distinct_keys(nodes),
        keyed_by_identity(nodes),
        forall|k: int| 0 <= k < persisted.len() ==> (#[trigger] persisted[k]).cluster_id == cluster_id,
    ensures
        distinct_keys(persisted_all(staled(nodes, cluster_id), persisted)),
        keyed_by_identity(persisted_all(staled(nodes, cluster_id), persisted)),
        has_fresh(persisted_all(staled(nodes, cluster_id), persisted), cluster_id, node_id)
            == node_ids(persisted).to_set().contains(node_id),
    decreases persisted.len(),
{
    let start = staled(nodes, cluster_id);
    let table = persisted_all(start, persisted);
    if persisted.len() == 0 {
        lemma_staled_keeps_distinct(nodes, cluster_id);
        assert forall|i: int| 0 <= i < start.len() implies (#[trigger] start[i]).key == pair_key(
            start[i].value.cluster_id,
            start[i].value.node_id,
        ) by {
            assert(start[i].key == nodes[i].key);
            assert(start[i].value == nodes[i].value);
        }
        assert(!has_fresh(start, cluster_id, node_id));
        assert(!node_ids(persisted).to_set().contains(node_id));
    } else {
        let shorter = persisted.drop_last();
        let node = persisted.last();
        assert(persisted[persisted.len() - 1] == node);
        assert forall|k: int| 0 <= k < shorter.len() implies (#[trigger] shorter[k]).cluster_id
            == cluster_id by {
            assert(shorter[k] == persisted[k]);
        }
        lemma_fresh_after_refresh(nodes, cluster_id, shorter, node_id);
        let before = persisted_all(start, shorter);
        let key = pair_key(node.cluster_id, node.node_id);
        lemma_upsert_keeps_distinct(before, key, node);
        let at = if has_key(before, key) {
            index_of(before, key)
        } else {
            before.len() as int
        };
        assert(table[at] == EntryView { key, value: node, stale: false });
        assert forall|i: int| 0 <= i < table.len() implies (#[trigger] table[i]).key == pair_key(
            table[i].value.cluster_id,
            table[i].value.node_id,
        ) by {
            if i != at {
                assert(table[i] == before[i]);
            }
        }
        // The identifiers written so far, and the one written now.
        assert(node_ids(persisted).to_set().contains(node_id) == (node_ids(
            shorter,
        ).to_set().contains(node_id) || node.node_id == node_id)) by {
            let ids = node_ids(persisted);
            let ids_before = node_ids(shorter);
            if ids.to_set().contains(node_id) {
                let k = choose|k: int| 0 <= k < ids.len() && ids[k] == node_id;
                if k < shorter.len() {
                    assert(ids_before[k] == node_id);
                }
            }
            if ids_before.to_set().contains(node_id) {
                let k = choose|k: int| 0 <= k < ids_before.len() && ids_before[k] == node_id;
                assert(ids[k] == node_id);
            }
            if node.node_id == node_id {
                assert(ids[persisted.len() - 1] == node_id);
            }
        }
        if has_fresh(table, cluster_id, node_id) {
            let i = choose|i: int|
                0 <= i < table.len() && (#[trigger] table[i]).key.cluster_id == cluster_id
                    && !table[i].stale && table[i].value.node_id == node_id;
            if i != at {
                assert(table[i] == before[i]);
                assert(has_fresh(before, cluster_id, node_id));
            }
        }
        if has_fresh(before, cluster_id, node_id) {
            let i = choose|i: int|
                0 <= i < before.len() && (#[trigger] before[i]).key.cluster_id == cluster_id
                    && !before[i].stale && before[i].value.node_id == node_id;
            if i != at {
                assert(table[i] == before[i]);
            } else {
                assert(before[at].key == key);
                assert(node.node_id == node_id);
            }
            assert(has_fresh(table, cluster_id, node_id));
        }
        if node.node_id == node_id {
            assert(has_fresh(table, cluster_id, node_id));
        }
    }
}

/// After a refresh, the number of nodes in the metadata of the cluster is
/// the number of distinct nodes that the refresh persisted.
///
/// The refresh marks the cluster stale, persists the nodes `persisted` that
/// the agents of the cluster report, and aggregates the nodes of the cluster
/// that are not stale. The number is kept in 32 bits, so it is only as many
/// nodes as those hold that the law speaks of.
pub proof fn lemma_meta_counts_persisted_nodes(
    nodes: Seq<EntryView<NodeView>>,
    discovery: ClusterDiscoveryView,
    persisted: Seq<NodeView>,
)
    requires
        distinct_keys(nodes),
        keyed_by_identity(nodes),
        forall|k: int|
            0 <= k < persisted.len() ==> (#[trigger] persisted[k]).cluster_id
                == discovery.cluster_id,
        node_ids(persisted).to_set().len() <= i32::MAX,
    ensures
        aggregated(
            discovery,
            fresh_values(
                persisted_all(staled(nodes, discovery.cluster_id), persisted),
                discovery.cluster_id,
            ),
        ).nodes == node_ids(persisted).to_set().len(),
{
    let cluster_id = discovery.cluster_id;
    let table = persisted_all(staled(nodes, cluster_id), persisted);
    let fresh = fresh_values(table, cluster_id);
    assert forall|node_id: Seq<char>|
        node_ids(fresh).to_set().contains(node_id) == node_ids(persisted).to_set().contains(
            node_id,
        ) by {
        lemma_fresh_ids(table, cluster_id, node_id);
        lemma_fresh_after_refresh(nodes, cluster_id, persisted, node_id);
    }
    assert(node_ids(fresh).to_set() =~= node_ids(persisted).to_set());
    lemma_aggregated_counts(discovery, fresh);
}

} // verus!
