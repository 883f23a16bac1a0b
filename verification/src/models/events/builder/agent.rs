//! Events of the agent family.
use crate::clock::Timestamp;
use crate::models::agent::Agent;
use crate::models::events::builder::EventBuilder;
use crate::models::events::Event;
use crate::models::events::EventPayload;
use crate::models::events::EventPayloadView;
use vstd::prelude::*;

verus! {

/// Builds events of the agent family.
pub struct AgentBuilder {
    builder: EventBuilder,
}

impl AgentBuilder {
    /// The instant the built event will carry, if one was set.
    pub closed spec fn at(&self) -> Option<Timestamp> {
        self.builder.at()
    }

    /// A builder of agent events on top of `builder`.
    pub fn builder(builder: EventBuilder) -> (out: AgentBuilder)
        ensures
            out.at() == builder.at(),
    {
        AgentBuilder { builder }
    }

    /// The event for an agent seen for the first time.
    pub fn new_agent(self, agent: Agent) -> (event: Event)
        ensures
            event@.payload == EventPayloadView::AgentNew(agent@),
            self.at() matches Some(timestamp) ==> event@.timestamp == timestamp,
    {
        let data = EventPayload::AgentNew(agent);
        self.builder.build(data)
    }
}

} // verus!
