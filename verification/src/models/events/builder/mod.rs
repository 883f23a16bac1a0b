//! Builders of events, one for each family.
use crate::clock::now;
use crate::clock::Timestamp;
use crate::models::events::Event;
use crate::models::events::EventPayload;
use crate::models::events::EventView;
use vstd::prelude::*;

pub mod agent;
pub mod cluster;
pub mod node;
pub mod shard;
pub mod snapshot;

verus! {

/// Builds events. An event gets the instant that `timestamp` set, or else the
/// reading of the wall clock at the moment it is built.
pub struct EventBuilder {
    timestamp: Option<Timestamp>,
}

impl EventBuilder {
    /// The instant the built event will carry, if one was set.
    pub closed spec fn at(&self) -> Option<Timestamp> {
        self.timestamp
    }

    /// A builder with no instant set.
    pub fn new() -> (out: EventBuilder)
        ensures
            out.at() == None::<Timestamp>,
    {
        EventBuilder { timestamp: None }
    }

    /// Specialise the builder into a builder of agent events.
    pub fn agent(self) -> (out: agent::AgentBuilder)
        ensures
            out.at() == self.at(),
    {
        agent::AgentBuilder::builder(self)
    }

    /// Specialise the builder into a builder of cluster events.
    pub fn cluster(self) -> (out: cluster::ClusterBuilder)
        ensures
            out.at() == self.at(),
    {
        cluster::ClusterBuilder::new_builder(self)
    }

    /// Specialise the builder into a builder of node events.
    pub fn node(self) -> (out: node::NodeBuilder)
        ensures
            out.at() == self.at(),
    {
        node::NodeBuilder::builder(self)
    }

    /// Specialise the builder into a builder of shard events.
    pub fn shard(self) -> (out: shard::ShardBuilder)
        ensures
            out.at() == self.at(),
    {
        shard::ShardBuilder::builder(self)
    }

    /// Specialise the builder into a builder of snapshot events.
    pub fn snapshot(self) -> (out: snapshot::SnapshotBuilder)
        ensures
            out.at() == self.at(),
    {
        snapshot::SnapshotBuilder::builder(self)
    }

    /// Set the instant at which the event occurred.
    pub fn timestamp(self, timestamp: Timestamp) -> (out: EventBuilder)
        ensures
            out.at() == Some(timestamp),
    {
        EventBuilder { timestamp: Some(timestamp) }
    }

    /// The event with payload `data`, given the reading `clock` of the wall
    /// clock: it carries the instant that was set, or else `clock`.
    pub fn stamped(self, data: EventPayload, clock: Timestamp) -> (event: Event)
        ensures
            event@ == (EventView {
                payload: data@,
                timestamp: match self.at() {
                    Some(timestamp) => timestamp,
                    None => clock,
                },
            }),
    {
        let timestamp = match self.timestamp {
            Some(timestamp) => timestamp,
            None => clock,
        };
        Event { payload: data, timestamp }
    }

    /// The event with payload `data`. Where no instant was set the wall clock
    /// is read, and the event carries whatever it showed.
    pub fn build(self, data: EventPayload) -> (event: Event)
        ensures
            event@.payload == data@,
            self.at() matches Some(timestamp) ==> event@.timestamp == timestamp,
    {
        match self.timestamp {
            Some(timestamp) => self.stamped(data, timestamp),
            None => {
                let clock = now();
                self.stamped(data, clock)
            },
        }
    }
}

} // verus!
