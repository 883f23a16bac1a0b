//! Events of the shard family.
use crate::clock::Timestamp;
use crate::models::datastore::Shard;
use crate::models::events::builder::EventBuilder;
use crate::models::events::Event;
use crate::models::events::EventPayload;
use crate::models::events::EventPayloadView;
use vstd::prelude::*;

verus! {

/// Builds events of the shard family.
pub struct ShardBuilder {
    builder: EventBuilder,
}

impl ShardBuilder {
    /// The instant the built event will carry, if one was set.
    pub closed spec fn at(&self) -> Option<Timestamp> {
        self.builder.at()
    }

    /// A builder of shard events on top of `builder`.
    pub fn builder(builder: EventBuilder) -> (out: ShardBuilder)
        ensures
            out.at() == builder.at(),
    {
        ShardBuilder { builder }
    }

    /// The event for a shard seen on a node for the first time.
    pub fn shard_allocation_new(self, shard: Shard) -> (event: Event)
        ensures
            event@.payload == EventPayloadView::ShardAllocationNew(shard@),
            self.at() matches Some(timestamp) ==> event@.timestamp == timestamp,
    {
        let data = EventPayload::ShardAllocationNew(shard);
        self.builder.build(data)
    }

    /// The event for a shard whose stable attributes changed.
    pub fn allocation_changed(self, before: Shard, after: Shard) -> (event: Event)
        ensures
            event@.payload == (EventPayloadView::ShardAllocationChanged {
                before: before@,
                after: after@,
            }),
            self.at() matches Some(timestamp) ==> event@.timestamp == timestamp,
    {
        let data = EventPayload::ShardAllocationChanged { before, after };
        self.builder.build(data)
    }
}

} // verus!
