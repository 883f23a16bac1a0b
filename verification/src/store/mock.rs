//! An in-memory primary store.
//!
//! It keeps every model in a table by its natural key and can be told to fail
//! one kind of operation, to exercise the callers' handling of store errors.
use crate::models::agent::Agent;
use crate::models::agent::AgentInfo;
use crate::models::agent::AgentInfoView;
use crate::models::agent::AgentView;
use crate::models::cluster::ClusterDiscovery;
use crate::models::cluster::ClusterDiscoveryView;
use crate::models::cluster::ClusterMeta;
use crate::models::cluster::ClusterMetaView;
use crate::models::datastore::Node;
use crate::models::datastore::NodeView;
use crate::models::datastore::Shard;
use crate::models::datastore::ShardView;
use crate::models::events::Event;
use crate::models::events::EventView;
use crate::store::error::Error;
use crate::store::error::ErrorKind;
use crate::store::table::cluster_key;
use crate::store::table::lookup;
use crate::store::table::pair_key;
use crate::store::table::staled;
use crate::store::table::triple_key;
use crate::store::table::upserted;
use crate::store::table::EntryView;
use crate::store::table::RecordKey;
use crate::store::table::Table;
use crate::text::is_substring;
use crate::text::str_contains;
use vstd::prelude::*;

verus! {

/// The operations of the store that can be told to fail.
#[derive(Clone, Copy, Debug, PartialEq, Eq, Structural)]
pub enum StoreOp {
    Agent,
    AgentInfo,
    ClusterDiscovery,
    ClusterMeta,
    FindClusters,
    MarkStale,
    Node,
    PersistAgent,
    PersistAgentInfo,
    PersistDiscovery,
    PersistClusterMeta,
    PersistEvent,
    PersistNode,
    PersistShard,
    Shard,
    TopClusters,
}

/// What holds of the outcome of a read of the record under `key`: it fails
/// exactly when the operation was told to fail, and else gives the record.
pub open spec fn read_outcome<V: DeepView>(
    failing: bool,
    entries: Seq<EntryView<V::V>>,
    key: crate::store::table::RecordKeyView,
    outcome: core::result::Result<Option<V>, Error>,
) -> bool {
    match outcome {
        Ok(found) => !failing && found.deep_view() == match lookup(entries, key) {
            Some(entry) => Some(entry.value),
            None => None,
        },
        Err(error) => failing && error.spec_kind() == ErrorKind::MongoDBOperation("findOne"),
    }
}

/// The metadata records, in the order kept, whose cluster identifier holds `search`.
pub open spec fn matching_clusters(entries: Seq<EntryView<ClusterMetaView>>, search: Seq<char>)
    -> Seq<ClusterMetaView>
    decreases entries.len(),
{
    if entries.len() == 0 {
        Seq::empty()
    } else {
        let rest = matching_clusters(entries.drop_last(), search);
        if is_substring(search, entries.last().value.cluster_id) {
            rest.push(entries.last().value)
        } else {
            rest
        }
    }
}

/// `sorted` with `meta` put in behind every record that has at most as many nodes.
pub open spec fn insert_by_nodes(sorted: Seq<ClusterMetaView>, meta: ClusterMetaView) -> Seq<
    ClusterMetaView,
>
    decreases sorted.len(),
{
    if sorted.len() == 0 {
        seq![meta]
    } else if sorted.last().nodes <= meta.nodes {
        sorted.push(meta)
    } else {
        insert_by_nodes(sorted.drop_last(), meta).push(sorted.last())
    }
}

/// The metadata records ordered by their number of nodes, fewest first;
/// records with the same number keep the order in which they are kept.
pub open spec fn by_nodes(entries: Seq<EntryView<ClusterMetaView>>) -> Seq<ClusterMetaView>
    decreases entries.len(),
{
    if entries.len() == 0 {
        Seq::empty()
    } else {
        insert_by_nodes(by_nodes(entries.drop_last()), entries.last().value)
    }
}

/// An in-memory primary store.
pub struct MockStore {
    pub agents: Table<Agent>,
    pub agents_info: Table<AgentInfo>,
    pub clusters_meta: Table<ClusterMeta>,
    pub discoveries: Table<ClusterDiscovery>,
    pub nodes: Table<Node>,
    pub shards: Table<Shard>,
    pub events: Vec<Event>,
    pub failing: Option<StoreOp>,
}

/// What a `MockStore` holds: the records of each table in the order kept,
/// the events in the order persisted, and the operation told to fail.
pub struct MockStoreView {
    pub agents: Seq<EntryView<AgentView>>,
    pub agents_info: Seq<EntryView<AgentInfoView>>,
    pub clusters_meta: Seq<EntryView<ClusterMetaView>>,
    pub discoveries: Seq<EntryView<ClusterDiscoveryView>>,
    pub nodes: Seq<EntryView<NodeView>>,
    pub shards: Seq<EntryView<ShardView>>,
    pub events: Seq<EventView>,
    pub failing: Option<StoreOp>,
}

impl View for MockStore {
    type V = MockStoreView;

    open spec fn view(&self) -> MockStoreView {
        MockStoreView {
            agents: self.agents@,
            agents_info: self.agents_info@,
            clusters_meta: self.clusters_meta@,
            discoveries: self.discoveries@,
            nodes: self.nodes@,
            shards: self.shards@,
            events: self.events.deep_view(),
            failing: self.failing,
        }
    }
}

/// What holds of the outcome of a write: it fails exactly when the operation
/// was told to fail, and then the store is as before; else the store is `written`.
pub open spec fn write_outcome(
    failing: bool,
    operation: &'static str,
    before: MockStoreView,
    written: MockStoreView,
    after: MockStoreView,
    outcome: core::result::Result<(), Error>,
) -> bool {
    match outcome {
        Ok(_) => !failing && after == written,
        Err(error) => failing && after == before && error.spec_kind()
            == ErrorKind::MongoDBOperation(operation),
    }
}

impl MockStore {
    /// Every table is well formed, so none holds two records for one key.
    pub open spec fn well_formed(&self) -> bool {
        &&& self.agents.well_formed()
        &&& self.agents_info.well_formed()
        &&& self.clusters_meta.well_formed()
        &&& self.discoveries.well_formed()
        &&& self.nodes.well_formed()
        &&& self.shards.well_formed()
    }

    /// Whether the operation `op` was told to fail.
    pub open spec fn fails(&self, op: StoreOp) -> bool {
        self.failing == Some(op)
    }

    /// Creates a new, empty, store in which no operation fails.
    pub fn new() -> (store: MockStore)
        ensures
            store.well_formed(),
            store@ == (MockStoreView {
                agents: Seq::empty(),
                agents_info: Seq::empty(),
                clusters_meta: Seq::empty(),
                discoveries: Seq::empty(),
                nodes: Seq::empty(),
                shards: Seq::empty(),
                events: Seq::empty(),
                failing: None,
            }),
    {
        let events: Vec<Event> = Vec::new();
        assert(events.deep_view() =~= Seq::<EventView>::empty());
        MockStore {
            agents: Table::new(),
            agents_info: Table::new(),
            clusters_meta: Table::new(),
            discoveries: Table::new(),
            nodes: Table::new(),
            shards: Table::new(),
            events,
            failing: None,
        }
    }

    /// From now on the operation `op`, and no other, fails.
    pub fn fail_on(&mut self, op: StoreOp)
        requires
            old(self).well_formed(),
        ensures
            final(self).well_formed(),
            final(self)@ == (MockStoreView { failing: Some(op), ..old(self)@ }),
    {
        self.failing = Some(op);
    }

    fn is_failing(&self, op: StoreOp) -> (failing: bool)
        ensures
            failing == self.fails(op),
    {
        match self.failing {
            Some(failing) => failing == op,
            None => false,
        }
    }

    /// The record of the agent at `host` in `cluster`.
    pub fn agent(&self, cluster: &str, host: &str) -> (outcome: core::result::Result<
        Option<Agent>,
        Error,
    >)
        requires
            self.well_formed(),
        ensures
            read_outcome(
                self.fails(StoreOp::Agent),
                self.agents@,
                pair_key(cluster@, host@),
                outcome,
            ),
    {
        if self.is_failing(StoreOp::Agent) {
            return Err(Error::new(ErrorKind::MongoDBOperation("findOne")));
        }
        let key = RecordKey::pair(cluster, host);
        Ok(
            match self.agents.get(&key) {
                Some(agent) => Some(agent.clone()),
                None => None,
            },
        )
    }

    /// The record of the build of the agent at `host` in `cluster`.
    pub fn agent_info(&self, cluster: &str, host: &str) -> (outcome: core::result::Result<
        Option<AgentInfo>,
        Error,
    >)
        requires
            self.well_formed(),
        ensures
            read_outcome(
                self.fails(StoreOp::AgentInfo),
                self.agents_info@,
                pair_key(cluster@, host@),
                outcome,
            ),
    {
        if self.is_failing(StoreOp::AgentInfo) {
            return Err(Error::new(ErrorKind::MongoDBOperation("findOne")));
        }
        let key = RecordKey::pair(cluster, host);
        Ok(
            match self.agents_info.get(&key) {
                Some(info) => Some(info.clone()),
                None => None,
            },
        )
    }

    /// The discovery record of `cluster`.
    pub fn cluster_discovery(&self, cluster: &str) -> (outcome: core::result::Result<
        Option<ClusterDiscovery>,
        Error,
    >)
        requires
            self.well_formed(),
        ensures
            read_outcome(
                self.fails(StoreOp::ClusterDiscovery),
                self.discoveries@,
                cluster_key(cluster@),
                outcome,
            ),
    {
        if self.is_failing(StoreOp::ClusterDiscovery) {
            return Err(Error::new(ErrorKind::MongoDBOperation("findOne")));
        }
        let key = RecordKey::cluster(cluster);
        Ok(
            match self.discoveries.get(&key) {
                Some(discovery) => Some(discovery.clone()),
                None => None,
            },
        )
    }

    /// The aggregated metadata of `cluster`.
    pub fn cluster_meta(&self, cluster: &str) -> (outcome: core::result::Result<
        Option<ClusterMeta>,
        Error,
    >)
        requires
            self.well_formed(),
        ensures
            read_outcome(
                self.fails(StoreOp::ClusterMeta),
                self.clusters_meta@,
                cluster_key(cluster@),
                outcome,
            ),
    {
        if self.is_failing(StoreOp::ClusterMeta) {
            return Err(Error::new(ErrorKind::MongoDBOperation("findOne")));
        }
        let key = RecordKey::cluster(cluster);
        Ok(
            match self.clusters_meta.get(&key) {
                Some(meta) => Some(meta.clone()),
                None => None,
            },
        )
    }

    /// The record of the node `name` in `cluster`.
    pub fn node(&self, cluster: &str, name: &str) -> (outcome: core::result::Result<
        Option<Node>,
        Error,
    >)
        requires
            self.well_formed(),
        ensures
            read_outcome(
                self.fails(StoreOp::Node),
                self.nodes@,
                pair_key(cluster@, name@),
                outcome,
            ),
    {
        if self.is_failing(StoreOp::Node) {
            return Err(Error::new(ErrorKind::MongoDBOperation("findOne")));
        }
        let key = RecordKey::pair(cluster, name);
        Ok(
            match self.nodes.get(&key) {
                Some(node) => Some(node.clone()),
                None => None,
            },
        )
    }

    /// The record of the shard `id` on `node` in `cluster`.
    pub fn shard(&self, cluster: &str, node: &str, id: &str) -> (outcome: core::result::Result<
        Option<Shard>,
        Error,
    >)
        requires
            self.well_formed(),
        ensures
            read_outcome(
                self.fails(StoreOp::Shard),
                self.shards@,
                triple_key(cluster@, node@, id@),
                outcome,
            ),
    {
        if self.is_failing(StoreOp::Shard) {
            return Err(Error::new(ErrorKind::MongoDBOperation("findOne")));
        }
        let key = RecordKey::triple(cluster, node, id);
        Ok(
            match self.shards.get(&key) {
                Some(shard) => Some(shard.clone()),
                None => None,
            },
        )
    }

    /// The metadata of up to `limit` clusters whose identifier holds `search`,
    /// in the order in which they are kept.
    pub fn find_clusters(&self, search: &str, limit: u8) -> (outcome: core::result::Result<
        Vec<ClusterMeta>,
        Error,
    >)
        requires
            self.well_formed(),
        ensures
            match outcome {
                Ok(found) => {
                    let all = matching_clusters(self.clusters_meta@, search@);
                    &&& !self.fails(StoreOp::FindClusters)
                    &&& found.deep_view() == if all.len() <= limit {
                        all
                    } else {
                        all.take(limit as int)
                    }
                },
                Err(error) => self.fails(StoreOp::FindClusters) && error.spec_kind()
                    == ErrorKind::MongoDBOperation("find"),
            },
    {
        if self.is_failing(StoreOp::FindClusters) {
            return Err(Error::new(ErrorKind::MongoDBOperation("find")));
        }
        let mut found: Vec<ClusterMeta> = Vec::new();
        let mut i: usize = 0;
        let ghost entries = self.clusters_meta@;
        while i < self.clusters_meta.len() && found.len() < limit as usize
            invariant
                self.well_formed(),
                entries == self.clusters_meta@,
                i <= entries.len(),
                found.len() <= limit,
                found.deep_view() == matching_clusters(entries.take(i as int), search@),
            decreases entries.len() - i,
        {
            let meta = self.clusters_meta.value_at(i);
            proof {
                assert(entries.take(i + 1).drop_last() =~= entries.take(i as int));
                assert(entries.take(i + 1).last() == entries[i as int]);
            }
            if str_contains(meta.cluster_id.as_str(), search) {
                let ghost before = found.deep_view();
                found.push(meta.clone());
                assert(found.deep_view() =~= before.push(meta@));
            }
            i += 1;
        }
        proof {
            let all = matching_clusters(entries, search@);
            lemma_matching_prefix(entries, search@, i as int);
            assert(entries.take(entries.len() as int) =~= entries);
            if i < entries.len() {
                assert(found.len() == limit);
                assert(found.deep_view() =~= all.take(limit as int));
            } else {
                assert(found.deep_view() == all);
                if all.len() > limit {
                    assert(all.len() == limit);
                }
            }
        }
        Ok(found)
    }

    /// The metadata of every cluster ordered by the number of nodes, fewest first.
    pub fn top_clusters(&self) -> (outcome: core::result::Result<Vec<ClusterMeta>, Error>)
        requires
            self.well_formed(),
        ensures
            match outcome {
                Ok(found) => !self.fails(StoreOp::TopClusters) && found.deep_view() == by_nodes(
                    self.clusters_meta@,
                ),
                Err(error) => self.fails(StoreOp::TopClusters) && error.spec_kind()
                    == ErrorKind::MongoDBOperation("find"),
            },
    {
        if self.is_failing(StoreOp::TopClusters) {
            return Err(Error::new(ErrorKind::MongoDBOperation("find")));
        }
        let mut sorted: Vec<ClusterMeta> = Vec::new();
        let mut i: usize = 0;
        let ghost entries = self.clusters_meta@;
        while i < self.clusters_meta.len()
            invariant
                self.well_formed(),
                entries == self.clusters_meta@,
                i <= entries.len(),
                sorted.deep_view() == by_nodes(entries.take(i as int)),
            decreases entries.len() - i,
        {
            let meta = self.clusters_meta.value_at(i).clone();
            proof {
                assert(entries.take(i + 1).drop_last() =~= entries.take(i as int));
                assert(entries.take(i + 1).last() == entries[i as int]);
            }
            insert_sorted(&mut sorted, meta);
            i += 1;
        }
        assert(entries.take(entries.len() as int) =~= entries);
        Ok(sorted)
    }

    /// Mark the agents' builds, the nodes and the shards of `cluster` stale.
    pub fn mark_stale(&mut self, cluster: &str) -> (outcome: core::result::Result<(), Error>)
        requires
            old(self).well_formed(),
        ensures
            final(self).well_formed(),
            write_outcome(
                old(self).fails(StoreOp::MarkStale),
                "updateMany",
                old(self)@,
                MockStoreView {
                    agents_info: staled(old(self)@.agents_info, cluster@),
                    nodes: staled(old(self)@.nodes, cluster@),
                    shards: staled(old(self)@.shards, cluster@),
                    ..old(self)@
                },
                final(self)@,
                outcome,
            ),
    {
        if self.is_failing(StoreOp::MarkStale) {
            return Err(Error::new(ErrorKind::MongoDBOperation("updateMany")));
        }
        let cluster = cluster.to_owned();
        self.agents_info.mark_stale(&cluster);
        self.nodes.mark_stale(&cluster);
        self.shards.mark_stale(&cluster);
        Ok(())
    }

    /// Write the record of an agent under its cluster and host.
    pub fn persist_agent(&mut self, agent: Agent) -> (outcome: core::result::Result<(), Error>)
        requires
            old(self).well_formed(),
        ensures
            final(self).well_formed(),
            write_outcome(
                old(self).fails(StoreOp::PersistAgent),
                "replaceOne",
                old(self)@,
                MockStoreView {
                    agents: upserted(
                        old(self)@.agents,
                        pair_key(agent@.cluster_id, agent@.host),
                        agent@,
                    ),
                    ..old(self)@
                },
                final(self)@,
                outcome,
            ),
    {
        if self.is_failing(StoreOp::PersistAgent) {
            return Err(Error::new(ErrorKind::MongoDBOperation("replaceOne")));
        }
        let key = RecordKey::pair(agent.cluster_id.as_str(), agent.host.as_str());
        self.agents.upsert(key, agent);
        Ok(())
    }

    /// Write the record of the build of an agent under its cluster and host.
    pub fn persist_agent_info(&mut self, agent: AgentInfo) -> (outcome: core::result::Result<
        (),
        Error,
    >)
        requires
            old(self).well_formed(),
        ensures
            final(self).well_formed(),
            write_outcome(
                old(self).fails(StoreOp::PersistAgentInfo),
                "replaceOne",
                old(self)@,
                MockStoreView {
                    agents_info: upserted(
                        old(self)@.agents_info,
                        pair_key(agent@.cluster_id, agent@.host),
                        agent@,
                    ),
                    ..old(self)@
                },
                final(self)@,
                outcome,
            ),
    {
        if self.is_failing(StoreOp::PersistAgentInfo) {
            return Err(Error::new(ErrorKind::MongoDBOperation("replaceOne")));
        }
        let key = RecordKey::pair(agent.cluster_id.as_str(), agent.host.as_str());
        self.agents_info.upsert(key, agent);
        Ok(())
    }

    /// Write the discovery record of a cluster under the cluster's identifier.
    pub fn persist_discovery(&mut self, cluster: ClusterDiscovery) -> (outcome:
        core::result::Result<(), Error>)
        requires
            old(self).well_formed(),
        ensures
            final(self).well_formed(),
            write_outcome(
                old(self).fails(StoreOp::PersistDiscovery),
                "replaceOne",
                old(self)@,
                MockStoreView {
                    discoveries: upserted(
                        old(self)@.discoveries,
                        cluster_key(cluster@.cluster_id),
                        cluster@,
                    ),
                    ..old(self)@
                },
                final(self)@,
                outcome,
            ),
    {
        if self.is_failing(StoreOp::PersistDiscovery) {
            return Err(Error::new(ErrorKind::MongoDBOperation("replaceOne")));
        }
        let key = RecordKey::cluster(cluster.cluster_id.as_str());
        self.discoveries.upsert(key, cluster);
        Ok(())
    }

    /// Write the metadata of a cluster under the cluster's identifier.
    pub fn persist_cluster_meta(&mut self, meta: ClusterMeta) -> (outcome: core::result::Result<
        (),
        Error,
    >)
        requires
            old(self).well_formed(),
        ensures
            final(self).well_formed(),
            write_outcome(
                old(self).fails(StoreOp::PersistClusterMeta),
                "replaceOne",
                old(self)@,
                MockStoreView {
                    clusters_meta: upserted(
                        old(self)@.clusters_meta,
                        cluster_key(meta@.cluster_id),
                        meta@,
                    ),
                    ..old(self)@
                },
                final(self)@,
                outcome,
            ),
    {
        if self.is_failing(StoreOp::PersistClusterMeta) {
            return Err(Error::new(ErrorKind::MongoDBOperation("replaceOne")));
        }
        let key = RecordKey::cluster(meta.cluster_id.as_str());
        self.clusters_meta.upsert(key, meta);
        Ok(())
    }

    /// Append an event to the events that the store keeps.
    pub fn persist_event(&mut self, event: Event) -> (outcome: core::result::Result<(), Error>)
        requires
            old(self).well_formed(),
        ensures
            final(self).well_formed(),
            write_outcome(
                old(self).fails(StoreOp::PersistEvent),
                "insertOne",
                old(self)@,
                MockStoreView { events: old(self)@.events.push(event@), ..old(self)@ },
                final(self)@,
                outcome,
            ),
    {
        if self.is_failing(StoreOp::PersistEvent) {
            return Err(Error::new(ErrorKind::MongoDBOperation("insertOne")));
        }
        let ghost before = self.events.deep_view();
        let ghost shown = event@;
        self.events.push(event);
        assert(self.events.deep_view() =~= before.push(shown));
        Ok(())
    }

    /// Write the record of a node under its cluster and identifier.
    pub fn persist_node(&mut self, node: Node) -> (outcome: core::result::Result<(), Error>)
        requires
            old(self).well_formed(),
        ensures
            final(self).well_formed(),
            write_outcome(
                old(self).fails(StoreOp::PersistNode),
                "replaceOne",
                old(self)@,
                MockStoreView {
                    nodes: upserted(
                        old(self)@.nodes,
                        pair_key(node@.cluster_id, node@.node_id),
                        node@,
                    ),
                    ..old(self)@
                },
                final(self)@,
                outcome,
            ),
    {
        if self.is_failing(StoreOp::PersistNode) {
            return Err(Error::new(ErrorKind::MongoDBOperation("replaceOne")));
        }
        let key = RecordKey::pair(node.cluster_id.as_str(), node.node_id.as_str());
        self.nodes.upsert(key, node);
        Ok(())
    }

    /// Write the record of a shard under its cluster, node and identifier.
    pub fn persist_shard(&mut self, shard: Shard) -> (outcome: core::result::Result<(), Error>)
        requires
            old(self).well_formed(),
        ensures
            final(self).well_formed(),
            write_outcome(
                old(self).fails(StoreOp::PersistShard),
                "replaceOne",
                old(self)@,
                MockStoreView {
                    shards: upserted(
                        old(self)@.shards,
                        triple_key(shard@.cluster_id, shard@.node_id, shard@.shard_id),
                        shard@,
                    ),
                    ..old(self)@
                },
                final(self)@,
                outcome,
            ),
    {
        if self.is_failing(StoreOp::PersistShard) {
            return Err(Error::new(ErrorKind::MongoDBOperation("replaceOne")));
        }
        let key = RecordKey::triple(
            shard.cluster_id.as_str(),
            shard.node_id.as_str(),
            shard.shard_id.as_str(),
        );
        self.shards.upsert(key, shard);
        Ok(())
    }
}

/// A primary store for tests of what uses the store.
pub struct StoreMock {
    pub state: MockStore,
}

impl StoreMock {
    /// A store that holds nothing.
    pub fn new() -> (mock: StoreMock)
        ensures
            mock.state.well_formed(),
            mock.state@ == (MockStoreView {
                agents: Seq::empty(),
                agents_info: Seq::empty(),
                clusters_meta: Seq::empty(),
                discoveries: Seq::empty(),
                nodes: Seq::empty(),
                shards: Seq::empty(),
                events: Seq::empty(),
                failing: None,
            }),
    {
        StoreMock { state: MockStore::new() }
    }

    /// The metadata of every cluster ordered by the number of nodes, most first.
    pub fn top_clusters(&self) -> (outcome: core::result::Result<Vec<ClusterMeta>, Error>)
        requires
            self.state.well_formed(),
        ensures
            match outcome {
                Ok(found) => !self.state.fails(StoreOp::TopClusters) && found.deep_view()
                    == by_nodes(self.state.clusters_meta@).reverse(),
                Err(error) => self.state.fails(StoreOp::TopClusters) && error.spec_kind()
                    == ErrorKind::MongoDBOperation("find"),
            },
    {
        let ascending = match self.state.top_clusters() {
            Ok(found) => found,
            Err(error) => {
                return Err(error);
            },
        };
        let ghost all = ascending.deep_view();
        let mut found: Vec<ClusterMeta> = Vec::new();
        let mut k: usize = 0;
        while k < ascending.len()
            invariant
                k <= ascending.len(),
                all == ascending.deep_view(),
                found.len() == k,
                forall|j: int| 0 <= j < k ==> (#[trigger] found[j])@ == all[all.len() - 1 - j],
            decreases ascending.len() - k,
        {
            let at = ascending.len() - 1 - k;
            assert(all[at as int] == ascending[at as int]@);
            found.push(ascending[at].clone());
            k += 1;
        }
        assert(found.deep_view() =~= all.reverse());
        Ok(found)
    }
}

/// The records that match within a prefix of the table are a prefix of
/// those that match within the whole table.
pub proof fn lemma_matching_prefix(
    entries: Seq<EntryView<ClusterMetaView>>,
    search: Seq<char>,
    i: int,
)
    requires
        0 <= i <= entries.len(),
    ensures
        matching_clusters(entries.take(i), search).len() <= matching_clusters(
            entries,
            search,
        ).len(),
        matching_clusters(entries.take(i), search) == matching_clusters(entries, search).take(
            matching_clusters(entries.take(i), search).len() as int,
        ),
    decreases entries.len(),
{
    if i == entries.len() {
        assert(entries.take(i) =~= entries);
        assert(matching_clusters(entries, search).take(
            matching_clusters(entries, search).len() as int,
        ) =~= matching_clusters(entries, search));
    } else {
        let shorter = entries.drop_last();
        assert(shorter.take(i) =~= entries.take(i));
        lemma_matching_prefix(shorter, search, i);
        let part = matching_clusters(entries.take(i), search);
        let rest = matching_clusters(shorter, search);
        let all = matching_clusters(entries, search);
        assert(part =~= all.take(part.len() as int));
    }
}

/// Put `meta` into `sorted` behind every record that has at most as many nodes.
fn insert_sorted(sorted: &mut Vec<ClusterMeta>, meta: ClusterMeta)
    ensures
        final(sorted).deep_view() == insert_by_nodes(old(sorted).deep_view(), meta@),
{
    let ghost before = sorted.deep_view();
    let mut at: usize = sorted.len();
    proof {
        assert(before.take(at as int) =~= before);
        assert(insert_by_nodes(before, meta@) + before.skip(at as int) =~= insert_by_nodes(
            before,
            meta@,
        ));
    }
    while at > 0 && sorted[at - 1].nodes > meta.nodes
        invariant
            at <= sorted.len(),
            sorted.deep_view() == before,
            insert_by_nodes(before, meta@) == insert_by_nodes(before.take(at as int), meta@)
                + before.skip(at as int),
        decreases at,
    {
        proof {
            let head = before.take(at as int);
            assert(head.last() == before[at - 1]);
            assert(head.drop_last() =~= before.take(at - 1));
            assert(insert_by_nodes(head, meta@) == insert_by_nodes(
                before.take(at - 1),
                meta@,
            ).push(before[at - 1]));
            assert(insert_by_nodes(before.take(at - 1), meta@).push(before[at - 1]) + before.skip(
                at as int,
            ) =~= insert_by_nodes(before.take(at - 1), meta@) + before.skip(at - 1));
        }
        at -= 1;
    }
    proof {
        let head = before.take(at as int);
        if at > 0 {
            assert(head.last() == before[at - 1]);
        }
        assert(insert_by_nodes(head, meta@) =~= head.push(meta@));
    }
    sorted.insert(at, meta);
    assert(sorted.deep_view() =~= before.take(at as int).push(meta@) + before.skip(at as int));
}

} // verus!
