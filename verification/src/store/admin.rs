//! Administration of the primary store: walking over everything it holds.
use crate::models::agent::Agent;
use crate::models::agent::AgentInfo;
use crate::models::cluster::ClusterDiscovery;
use crate::models::cluster::ClusterMeta;
use crate::models::datastore::Node;
use crate::models::datastore::Shard;
use crate::models::events::Event;
use crate::store::mock::MockStore;
use crate::store::mock::MockStoreView;
use crate::store::table::EntryView;
use vstd::prelude::*;

verus! {

/// What every record of a table holds, stale or not, in the order kept.
pub open spec fn all_values<T>(entries: Seq<EntryView<T>>) -> Seq<T> {
    Seq::new(entries.len(), |i: int| entries[i].value)
}

/// Data validation operations.
pub struct Data {
    data: MockStore,
}

impl Data {
    /// What the store holds.
    pub closed spec fn store(&self) -> MockStoreView {
        self.data@
    }

    /// The store is well formed.
    pub closed spec fn well_formed(&self) -> bool {
        self.data.well_formed()
    }

    /// The data validation operations on `data`.
    pub fn new(data: MockStore) -> (out: Data)
        requires
            data.well_formed(),
        ensures
            out.well_formed(),
            out.store() == data@,
    {
        Data { data }
    }

    /// Iterate over all agents in the store.
    pub fn agents(&self) -> (found: Vec<Agent>)
        requires
            self.well_formed(),
        ensures
            found.deep_view() == all_values(self.store().agents),
    {
        let mut found: Vec<Agent> = Vec::new();
        let mut i: usize = 0;
        while i < self.data.agents.len()
            invariant
                self.well_formed(),
                i <= self.data.agents@.len(),
                found.len() == i,
                forall|j: int| 0 <= j < i ==> (#[trigger] found[j])@ == self.data.agents@[j].value,
            decreases self.data.agents@.len() - i,
        {
            found.push(self.data.agents.value_at(i).clone());
            i += 1;
        }
        assert(found.deep_view() =~= all_values(self.store().agents));
        found
    }

    /// Iterate over all agents info in the store.
    pub fn agents_info(&self) -> (found: Vec<AgentInfo>)
        requires
            self.well_formed(),
        ensures
            found.deep_view() == all_values(self.store().agents_info),
    {
        let mut found: Vec<AgentInfo> = Vec::new();
        let mut i: usize = 0;
        while i < self.data.agents_info.len()
            invariant
                self.well_formed(),
                i <= self.data.agents_info@.len(),
                found.len() == i,
                forall|j: int|
                    0 <= j < i ==> (#[trigger] found[j])@ == self.data.agents_info@[j].value,
            decreases self.data.agents_info@.len() - i,
        {
            found.push(self.data.agents_info.value_at(i).clone());
            i += 1;
        }
        assert(found.deep_view() =~= all_values(self.store().agents_info));
        found
    }

    /// Iterate over all cluster discoveries in the store.
    pub fn cluster_discoveries(&self) -> (found: Vec<ClusterDiscovery>)
        requires
            self.well_formed(),
        ensures
            found.deep_view() == all_values(self.store().discoveries),
    {
        let mut found: Vec<ClusterDiscovery> = Vec::new();
        let mut i: usize = 0;
        while i < self.data.discoveries.len()
            invariant
                self.well_formed(),
                i <= self.data.discoveries@.len(),
                found.len() == i,
                forall|j: int|
                    0 <= j < i ==> (#[trigger] found[j])@ == self.data.discoveries@[j].value,
            decreases self.data.discoveries@.len() - i,
        {
            found.push(self.data.discoveries.value_at(i).clone());
            i += 1;
        }
        assert(found.deep_view() =~= all_values(self.store().discoveries));
        found
    }

    /// Iterate over all cluster metadata in the store.
    pub fn clusters_meta(&self) -> (found: Vec<ClusterMeta>)
        requires
            self.well_formed(),
        ensures
            found.deep_view() == all_values(self.store().clusters_meta),
    {
        let mut found: Vec<ClusterMeta> = Vec::new();
        let mut i: usize = 0;
        while i < self.data.clusters_meta.len()
            invariant
                self.well_formed(),
                i <= self.data.clusters_meta@.len(),
                found.len() == i,
                forall|j: int|
                    0 <= j < i ==> (#[trigger] found[j])@ == self.data.clusters_meta@[j].value,
            decreases self.data.clusters_meta@.len() - i,
        {
            found.push(self.data.clusters_meta.value_at(i).clone());
            i += 1;
        }
        assert(found.deep_view() =~= all_values(self.store().clusters_meta));
        found
    }

    /// Iterate over all events in the store.
    pub fn events(&self) -> (found: Vec<Event>)
        ensures
            found.deep_view() == self.store().events,
    {
        let mut found: Vec<Event> = Vec::new();
        let mut i: usize = 0;
        while i < self.data.events.len()
            invariant
                i <= self.data.events.len(),
                found.len() == i,
                forall|j: int| 0 <= j < i ==> (#[trigger] found[j])@ == self.data.events[j]@,
            decreases self.data.events.len() - i,
        {
            found.push(self.data.events[i].clone());
            i += 1;
        }
        assert(found.deep_view() =~= self.data.events.deep_view());
        found
    }

    /// Iterate over all nodes in the store.
    pub fn nodes(&self) -> (found: Vec<Node>)
        requires
            self.well_formed(),
        ensures
            found.deep_view() == all_values(self.store().nodes),
    {
        let mut found: Vec<Node> = Vec::new();
        let mut i: usize = 0;
        while i < self.data.nodes.len()
            invariant
                self.well_formed(),
                i <= self.data.nodes@.len(),
                found.len() == i,
                forall|j: int| 0 <= j < i ==> (#[trigger] found[j])@ == self.data.nodes@[j].value,
            decreases self.data.nodes@.len() - i,
        {
            found.push(self.data.nodes.value_at(i).clone());
            i += 1;
        }
        assert(found.deep_view() =~= all_values(self.store().nodes));
        found
    }

    /// Iterate over all shards in the store.
    pub fn shards(&self) -> (found: Vec<Shard>)
        requires
            self.well_formed(),
        ensures
            found.deep_view() == all_values(self.store().shards),
    {
        let mut found: Vec<Shard> = Vec::new();
        let mut i: usize = 0;
        while i < self.data.shards.len()
            invariant
                self.well_formed(),
                i <= self.data.shards@.len(),
                found.len() == i,
                forall|j: int| 0 <= j < i ==> (#[trigger] found[j])@ == self.data.shards@[j].value,
            decreases self.data.shards@.len() - i,
        {
            found.push(self.data.shards.value_at(i).clone());
            i += 1;
        }
        assert(found.deep_view() =~= all_values(self.store().shards));
        found
    }
}

} // verus!
