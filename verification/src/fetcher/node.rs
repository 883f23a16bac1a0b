//! What to do with the identity that the node behind an agent reported.
use crate::clock::Timestamp;
use crate::models::datastore::Node;
use crate::models::datastore::NodeView;
use crate::models::events::Event;
use crate::models::events::EventPayloadView;
use crate::models::events::EventView;
use vstd::prelude::*;

verus! {

/// The event to emit before `node` is persisted, given the record `existing`
/// that the store holds under its key: one for a node that is new, one for a
/// node that differs from its record, none for a node that is as recorded.
pub open spec fn node_event(node: NodeView, existing: Option<NodeView>, now: Timestamp) -> Option<
    EventView,
> {
    match existing {
        None => Some(EventView { payload: EventPayloadView::NodeNew(node), timestamp: now }),
        Some(old) => if node == old {
            None
        } else {
            Some(
                EventView {
                    payload: EventPayloadView::NodeChanged { before: old, after: node },
                    timestamp: now,
                },
            )
        },
    }
}

/// The event to emit before `node` is persisted, if any. The node itself is
/// persisted in every case.
pub fn process_node(node: &Node, existing: Option<Node>, now: Timestamp) -> (event: Option<Event>)
    ensures
        event.deep_view() == node_event(node@, existing.deep_view(), now),
{
    match existing {
        None => Some(Event::builder().timestamp(now).node().new_node(node.clone())),
        Some(old) => {
            if node.same(&old) {
                None
            } else {
                Some(Event::builder().timestamp(now).node().changed(old, node.clone()))
            }
        },
    }
}

} // verus!
