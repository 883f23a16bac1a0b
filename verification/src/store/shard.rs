//! Operations on one shard.
use crate::models::datastore::Shard as ShardModel;
use crate::store::error::Error;
use crate::store::mock::read_outcome;
use crate::store::mock::MockStore;
use crate::store::mock::StoreOp;
use crate::store::table::triple_key;
use vstd::prelude::*;

verus! {

/// Attributes attached to all shard operations.
#[derive(Debug, PartialEq, Eq)]
pub struct ShardAttribures {
    pub cluster_id: String,
    pub node_id: String,
    pub shard_id: String,
}

/// Operate on the shard identified by the provided cluster_id, node_id, shard_id.
pub struct Shard {
    attrs: ShardAttribures,
}

impl Shard {
    /// The key of the shard that the operations are about.
    pub closed spec fn key(&self) -> crate::store::table::RecordKeyView {
        triple_key(self.attrs.cluster_id@, self.attrs.node_id@, self.attrs.shard_id@)
    }

    /// The operations on the shard that `attrs` names.
    pub fn new(attrs: ShardAttribures) -> (shard: Shard)
        ensures
            shard.key() == triple_key(attrs.cluster_id@, attrs.node_id@, attrs.shard_id@),
    {
        Shard { attrs }
    }

    /// Query the `Shard` record, if any is stored.
    pub fn get(&self, store: &MockStore) -> (outcome: core::result::Result<
        Option<ShardModel>,
        Error,
    >)
        requires
            store.well_formed(),
        ensures
            read_outcome(store.fails(StoreOp::Shard), store.shards@, self.key(), outcome),
    {
        store.shard(
            self.attrs.cluster_id.as_str(),
            self.attrs.node_id.as_str(),
            self.attrs.shard_id.as_str(),
        )
    }
}

} // verus!
