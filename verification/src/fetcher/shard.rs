//! What to do with a shard that an agent reported.
use crate::clock::Timestamp;
use crate::models::datastore::shard_of;
use crate::models::datastore::Shard;
use crate::models::datastore::WireShard;
use crate::models::datastore::ShardView;
use crate::models::events::Event;
use crate::models::events::EventPayloadView;
use crate::models::events::EventView;
use vstd::prelude::*;

verus! {

/// What to do with a reported shard: the event to emit first, if any, and
/// whether to persist the shard after that.
pub struct ShardPlan {
    pub event: Option<Event>,
    pub persist: bool,
}

/// What a `ShardPlan` holds.
pub struct ShardPlanView {
    pub event: Option<EventView>,
    pub persist: bool,
}

impl View for ShardPlan {
    type V = ShardPlanView;

    open spec fn view(&self) -> ShardPlanView {
        ShardPlanView { event: self.event.deep_view(), persist: self.persist }
    }
}

/// What to do with `shard` given the record `existing` that the store holds
/// under its key, at the instant `now`.
///
/// A shard that is not in the store is new: an event says so and the shard is
/// persisted. A shard that is in the store with the same values is left
/// alone. Where a stable attribute differs an event says so and the shard is
/// persisted. Where only the commit offset or the lag moved the shard is
/// persisted and no event is emitted.
pub open spec fn shard_plan(shard: ShardView, existing: Option<ShardView>, now: Timestamp)
    -> ShardPlanView {
    match existing {
        None => ShardPlanView {
            event: Some(
                EventView { payload: EventPayloadView::ShardAllocationNew(shard), timestamp: now },
            ),
            persist: true,
        },
        Some(old) => if shard == old {
            ShardPlanView { event: None, persist: false }
        } else if shard.stable_differs(old) {
            ShardPlanView {
                event: Some(
                    EventView {
                        payload: EventPayloadView::ShardAllocationChanged {
                            before: old,
                            after: shard,
                        },
                        timestamp: now,
                    },
                ),
                persist: true,
            }
        } else {
            ShardPlanView { event: None, persist: true }
        },
    }
}

/// Checks if a shard has changed since the last fetch.
///
/// Because the data of a shard includes the commit offset and the lag, which
/// are expected to move, only the stable attributes are compared.
pub fn shard_changed(shard: &Shard, old: &Shard) -> (changed: bool)
    ensures
        changed == shard@.stable_differs(old@),
{
    // Easy case: they are the same.
    if shard.same(old) {
        return false;
    }
    // Check if the "stable" attributes have changed.
    shard.cluster_id != old.cluster_id || shard.shard_id != old.shard_id || shard.node_id
        != old.node_id || !shard.role.same(&old.role)
}

/// What to do with a shard that the store holds no record of.
pub fn process_shard_new(shard: &Shard, now: Timestamp) -> (plan: ShardPlan)
    ensures
        plan@ == shard_plan(shard@, None, now),
{
    let event = Event::builder().timestamp(now).shard().shard_allocation_new(shard.clone());
    ShardPlan { event: Some(event), persist: true }
}

/// What to do with a shard that the store holds the record `old` of.
pub fn process_shard_existing(shard: &Shard, old: Shard, now: Timestamp) -> (plan: ShardPlan)
    ensures
        plan@ == shard_plan(shard@, Some(old@), now),
{
    // If the shard is the same (including offset and lag) exit now.
    if shard.same(&old) {
        return ShardPlan { event: None, persist: false };
    }
    // If anything other then offset or lag changed emit and event.
    if shard_changed(shard, &old) {
        let event = Event::builder().timestamp(now).shard().allocation_changed(old, shard.clone());
        return ShardPlan { event: Some(event), persist: true };
    }
    // Persist the model so the latest offset and lag information are available.
    ShardPlan { event: None, persist: true }
}

/// What to do with `shard` given the record `existing` that the store holds
/// under its key, at the instant `now`.
pub fn process_shard(shard: &Shard, existing: Option<Shard>, now: Timestamp) -> (plan: ShardPlan)
    ensures
        plan@ == shard_plan(shard@, existing.deep_view(), now),
{
    match existing {
        None => process_shard_new(shard, now),
        Some(old) => process_shard_existing(shard, old, now),
    }
}

/// Subset of fetcher logic that deals specifically with shards.
pub struct ShardFetcher {}

impl ShardFetcher {
    /// The logic that deals with shards.
    pub fn new() -> ShardFetcher {
        ShardFetcher {  }
    }

    /// The records of the shards that the agent of `node` in `cluster` reported.
    pub fn process_shards(&self, cluster: &str, node: &str, shards: Vec<WireShard>) -> (records:
        Vec<Shard>)
        ensures
            records.deep_view() == Seq::new(
                shards.deep_view().len(),
                |i: int| shard_of(cluster@, node@, shards.deep_view()[i]),
            ),
    {
        let mut records: Vec<Shard> = Vec::new();
        let mut i: usize = 0;
        while i < shards.len()
            invariant
                i <= shards.len(),
                records.len() == i,
                forall|j: int|
                    0 <= j < i ==> (#[trigger] records[j])@ == shard_of(
                        cluster@,
                        node@,
                        shards[j]@,
                    ),
            decreases shards.len() - i,
        {
            records.push(Shard::new(cluster, node, shards[i].clone()));
            i += 1;
        }
        assert(records.deep_view() =~= Seq::new(
            shards.deep_view().len(),
            |i: int| shard_of(cluster@, node@, shards.deep_view()[i]),
        ));
        records
    }

    /// What to do with `shard` given the record `existing` that the store
    /// holds under its key, at the instant `now`.
    pub fn process_shard(&self, shard: &Shard, existing: Option<Shard>, now: Timestamp) -> (plan:
        ShardPlan)
        ensures
            plan@ == shard_plan(shard@, existing.deep_view(), now),
    {
        process_shard(shard, existing, now)
    }
}

/// A shard whose stable attributes are as the store holds them never gives
/// rise to an event, whatever its commit offset and lag.
pub proof fn lemma_stable_shard_emits_nothing(shard: ShardView, old: ShardView, now: Timestamp)
    requires
        !shard.stable_differs(old),
    ensures
        shard_plan(shard, Some(old), now).event is None,
{
}

/// A shard that was just persisted and is reported again unchanged gives rise
/// to no event and to no write.
pub proof fn lemma_same_shard_is_skipped(shard: ShardView, now: Timestamp)
    ensures
        shard_plan(shard, Some(shard), now) == (ShardPlanView { event: None, persist: false }),
{
}

/// An event about a shard is emitted exactly when the shard is new or one of
/// its stable attributes changed, and whenever an event is emitted the shard
/// is persisted too.
pub proof fn lemma_shard_events(shard: ShardView, existing: Option<ShardView>, now: Timestamp)
    ensures
        shard_plan(shard, existing, now).event is Some <==> (existing is None || shard.stable_differs(
            existing->Some_0,
        )),
        shard_plan(shard, existing, now).event is Some ==> shard_plan(shard, existing, now).persist,
        shard_plan(shard, existing, now).event matches Some(event) ==> event.timestamp == now,
{
}

} // verus!
