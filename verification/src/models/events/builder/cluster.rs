//! Events of the cluster family.
use crate::clock::Timestamp;
use crate::models::cluster::ClusterDiscovery;
use crate::models::events::builder::EventBuilder;
use crate::models::events::Event;
use crate::models::events::EventPayload;
use crate::models::events::EventPayloadView;
use vstd::prelude::*;

verus! {

/// Builds events of the cluster family.
pub struct ClusterBuilder {
    builder: EventBuilder,
}

impl ClusterBuilder {
    /// The instant the built event will carry, if one was set.
    pub closed spec fn at(&self) -> Option<Timestamp> {
        self.builder.at()
    }

    /// A builder of cluster events on top of `builder`.
    pub fn new_builder(builder: EventBuilder) -> (out: ClusterBuilder)
        ensures
            out.at() == builder.at(),
    {
        ClusterBuilder { builder }
    }

    /// The event for a cluster discovered for the first time.
    pub fn new(self, discovery: ClusterDiscovery) -> (event: Event)
        ensures
            event@.payload == EventPayloadView::ClusterNew(discovery@),
            self.at() matches Some(timestamp) ==> event@.timestamp == timestamp,
    {
        let data = EventPayload::ClusterNew(discovery);
        self.builder.build(data)
    }

    /// The event for a discovery record that changed.
    pub fn changed(self, before: ClusterDiscovery, after: ClusterDiscovery) -> (event: Event)
        ensures
            event@.payload == (EventPayloadView::ClusterChanged { before: before@, after: after@ }),
            self.at() matches Some(timestamp) ==> event@.timestamp == timestamp,
    {
        let data = EventPayload::ClusterChanged { before, after };
        self.builder.build(data)
    }
}

} // verus!
