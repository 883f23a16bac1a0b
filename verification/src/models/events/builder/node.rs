//! Events of the node family.
use crate::clock::Timestamp;
use crate::models::datastore::Node;
use crate::models::events::builder::EventBuilder;
use crate::models::events::Event;
use crate::models::events::EventPayload;
use crate::models::events::EventPayloadView;
use vstd::prelude::*;

verus! {

/// Builds events of the node family.
pub struct NodeBuilder {
    builder: EventBuilder,
}

impl NodeBuilder {
    /// The instant the built event will carry, if one was set.
    pub closed spec fn at(&self) -> Option<Timestamp> {
        self.builder.at()
    }

    /// A builder of node events on top of `builder`.
    pub fn builder(builder: EventBuilder) -> (out: NodeBuilder)
        ensures
            out.at() == builder.at(),
    {
        NodeBuilder { builder }
    }

    /// The event for a node seen for the first time.
    pub fn new_node(self, node: Node) -> (event: Event)
        ensures
            event@.payload == EventPayloadView::NodeNew(node@),
            self.at() matches Some(timestamp) ==> event@.timestamp == timestamp,
    {
        let data = EventPayload::NodeNew(node);
        self.builder.build(data)
    }

    /// The event for a node whose identity changed.
    pub fn changed(self, before: Node, after: Node) -> (event: Event)
        ensures
            event@.payload == (EventPayloadView::NodeChanged { before: before@, after: after@ }),
            self.at() matches Some(timestamp) ==> event@.timestamp == timestamp,
    {
        let data = EventPayload::NodeChanged { before, after };
        self.builder.build(data)
    }
}

} // verus!
