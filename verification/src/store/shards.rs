//! Operations on all the shards of a cluster.
use crate::models::datastore::Shard;
use crate::models::datastore::ShardRoleView;
use crate::models::datastore::ShardView;
use crate::store::error::Error;
use crate::store::error::ErrorKind;
use crate::store::mock::MockStore;
use crate::store::table::fresh_values;
use crate::text::distinct;
use crate::text::lemma_first_occurrences;
use vstd::prelude::*;

verus! {

/// Attributes attached to all operations on the shards of a cluster.
#[derive(Debug, PartialEq, Eq)]
pub struct ShardsAttribures {
    pub cluster_id: String,
}

/// How many shards a cluster has, and how many of them have a primary. A
/// shard held by several nodes counts once.
#[derive(Clone, Copy, Debug, PartialEq, Eq, Structural)]
pub struct ShardsCounts {
    pub shards: u64,
    pub primaries: u64,
}

/// The identifier of each of `shards`, in order.
pub open spec fn shard_ids(shards: Seq<ShardView>) -> Seq<Seq<char>>
    decreases shards.len(),
{
    if shards.len() == 0 {
        Seq::empty()
    } else {
        shard_ids(shards.drop_last()).push(shards.last().shard_id)
    }
}

/// The identifier of each of `shards` for which the node is the primary, in order.
pub open spec fn primary_ids(shards: Seq<ShardView>) -> Seq<Seq<char>>
    decreases shards.len(),
{
    if shards.len() == 0 {
        Seq::empty()
    } else {
        let rest = primary_ids(shards.drop_last());
        if shards.last().role == ShardRoleView::Primary {
            rest.push(shards.last().shard_id)
        } else {
            rest
        }
    }
}

/// The number of distinct shards among `shards`.
pub open spec fn shards_count(shards: Seq<ShardView>) -> nat {
    shard_ids(shards).to_set().len()
}

/// The number of distinct shards among `shards` that have at least one primary.
pub open spec fn primaries_count(shards: Seq<ShardView>) -> nat {
    primary_ids(shards).to_set().len()
}

/// Count the distinct shards among `shards`, and those with a primary.
pub fn count_shards(shards: &Vec<&Shard>) -> (counts: ShardsCounts)
    ensures
        counts.shards == shards_count(shards.deep_view()),
        counts.primaries == primaries_count(shards.deep_view()),
{
    let mut ids: Vec<String> = Vec::new();
    let mut primaries: Vec<String> = Vec::new();
    let mut i: usize = 0;
    let ghost all = shards.deep_view();
    assert(all.take(0) =~= Seq::<ShardView>::empty());
    assert(ids.deep_view() =~= Seq::<Seq<char>>::empty());
    assert(primaries.deep_view() =~= Seq::<Seq<char>>::empty());
    while i < shards.len()
        invariant
            i <= shards.len(),
            all == shards.deep_view(),
            ids.deep_view() == shard_ids(all.take(i as int)),
            primaries.deep_view() == primary_ids(all.take(i as int)),
        decreases shards.len() - i,
    {
        proof {
            assert(all.take(i + 1).drop_last() =~= all.take(i as int));
            assert(all.take(i + 1).last() == shards[i as int]@);
        }
        let shard = shards[i];
        let ghost ids_before = ids.deep_view();
        ids.push(shard.shard_id.clone());
        assert(ids.deep_view() =~= ids_before.push(shard@.shard_id));
        if shard.role.is_primary() {
            let ghost primaries_before = primaries.deep_view();
            primaries.push(shard.shard_id.clone());
            assert(primaries.deep_view() =~= primaries_before.push(shard@.shard_id));
        }
        i += 1;
    }
    assert(all.take(shards.len() as int) =~= all);
    let distinct_ids = distinct(&ids);
    let distinct_primaries = distinct(&primaries);
    proof {
        lemma_first_occurrences(ids.deep_view());
        lemma_first_occurrences(primaries.deep_view());
    }
    ShardsCounts { shards: distinct_ids.len() as u64, primaries: distinct_primaries.len() as u64 }
}

/// There are never more shards with a primary than there are shards.
pub proof fn lemma_primaries_within_shards(shards: Seq<ShardView>)
    ensures
        primaries_count(shards) <= shards_count(shards),
        primary_ids(shards).to_set().subset_of(shard_ids(shards).to_set()),
    decreases shards.len(),
{
    broadcast use vstd::seq_lib::seq_to_set_is_finite;

    if shards.len() == 0 {
        assert(primary_ids(shards).to_set() =~= shard_ids(shards).to_set());
    } else {
        let shorter = shards.drop_last();
        lemma_primaries_within_shards(shorter);
        shard_ids(shorter).lemma_push_to_set_commute(shards.last().shard_id);
        if shards.last().role == ShardRoleView::Primary {
            primary_ids(shorter).lemma_push_to_set_commute(shards.last().shard_id);
        }
        assert(primary_ids(shards).to_set().subset_of(shard_ids(shards).to_set()));
    }
    vstd::set_lib::lemma_len_subset(primary_ids(shards).to_set(), shard_ids(shards).to_set());
}

/// What the store answers when asked for the counts of a cluster: the rows
/// that came back, each either read or unreadable.
///
/// No row means that the cluster has no shards. One row holds the counts. An
/// unreadable first row is a cursor error, and a second row means that the
/// counts of the cluster were found twice.
pub fn counts_from_rows(
    rows: &Vec<core::result::Result<ShardsCounts, String>>,
    attrs: &ShardsAttribures,
) -> (outcome: core::result::Result<ShardsCounts, Error>)
    ensures
        match outcome {
            Ok(counts) => {
                ||| rows@.len() == 0 && counts == (ShardsCounts { shards: 0, primaries: 0 })
                ||| rows@.len() == 1 && rows@[0] == Ok::<ShardsCounts, String>(counts)
            },
            Err(error) => {
                ||| {
                    &&& rows@.len() > 0
                    &&& rows@[0] matches Err(cause)
                    &&& error.spec_kind() == ErrorKind::MongoDBCursor("aggregate")
                    &&& error.spec_cause() == Some(cause@)
                }
                ||| {
                    &&& rows@.len() > 1
                    &&& rows@[0] is Ok
                    &&& error.spec_kind() matches ErrorKind::DuplicateRecord(model, id)
                    &&& model@ == "ShardsCounts"@
                    &&& id@ == attrs.cluster_id@
                }
            },
        },
{
    if rows.len() == 0 {
        return Ok(ShardsCounts { shards: 0, primaries: 0 });
    }
    let counts = match &rows[0] {
        Ok(counts) => *counts,
        Err(cause) => {
            return Err(Error::caused_by(ErrorKind::MongoDBCursor("aggregate"), cause.as_str()));
        },
    };
    if rows.len() > 1 {
        return Err(
            Error::new(ErrorKind::DuplicateRecord("ShardsCounts", attrs.cluster_id.clone())),
        );
    }
    Ok(counts)
}

impl MockStore {
    /// The shards of `cluster` that are not stale, in the order kept.
    pub fn shards(&self, cluster: &str) -> (found: Vec<Shard>)
        requires
            self.well_formed(),
        ensures
            found.deep_view() == fresh_values(self.shards@, cluster@),
    {
        let fresh = self.shards.fresh(cluster);
        let mut found: Vec<Shard> = Vec::new();
        let mut i: usize = 0;
        while i < fresh.len()
            invariant
                i <= fresh.len(),
                found.len() == i,
                forall|j: int| 0 <= j < i ==> found[j]@ == fresh[j]@,
            decreases fresh.len() - i,
        {
            found.push(fresh[i].clone());
            i += 1;
        }
        assert(found.deep_view() =~= fresh.deep_view());
        found
    }

    /// How many shards `cluster` has among the records that are not stale,
    /// and how many of them have a primary.
    pub fn shards_counts(&self, attrs: &ShardsAttribures) -> (counts: ShardsCounts)
        requires
            self.well_formed(),
        ensures
            counts.shards == shards_count(fresh_values(self.shards@, attrs.cluster_id@)),
            counts.primaries == primaries_count(fresh_values(self.shards@, attrs.cluster_id@)),
    {
        let fresh = self.shards.fresh(attrs.cluster_id.as_str());
        count_shards(&fresh)
    }
}

} // verus!
