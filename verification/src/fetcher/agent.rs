//! What can go wrong when an agent is asked something, and what that says
//! about the agent.
use crate::fetcher::error::Error;
use crate::fetcher::error::ErrorKind;
use crate::fetcher::error::ErrorKindView;
use crate::fetcher::error::ErrorView;
use vstd::prelude::*;

verus! {

/// Why asking an agent failed. Each variant holds the text of the failure.
#[derive(Debug, PartialEq, Eq)]
pub enum AgentFailure {
    /// No connection to the agent could be set up, so the agent was never asked.
    Connect(String),
    /// The agent was asked, but the call failed on the way, or what the agent
    /// sent is missing or cannot be understood.
    Invalid(String),
    /// The agent answered that its node cannot be reached.
    Datastore(String),
}

/// What an `AgentFailure` holds.
pub enum AgentFailureView {
    Connect(Seq<char>),
    Invalid(Seq<char>),
    Datastore(Seq<char>),
}

impl View for AgentFailure {
    type V = AgentFailureView;

    open spec fn view(&self) -> AgentFailureView {
        match self {
            AgentFailure::Connect(cause) => AgentFailureView::Connect(cause@),
            AgentFailure::Invalid(cause) => AgentFailureView::Invalid(cause@),
            AgentFailure::Datastore(cause) => AgentFailureView::Datastore(cause@),
        }
    }
}

impl DeepView for AgentFailure {
    type V = AgentFailureView;

    open spec fn deep_view(&self) -> AgentFailureView {
        self@
    }
}

impl Clone for AgentFailure {
    fn clone(&self) -> (out: Self)
        ensures
            out@ == self@,
    {
        match self {
            AgentFailure::Connect(cause) => AgentFailure::Connect(cause.clone()),
            AgentFailure::Invalid(cause) => AgentFailure::Invalid(cause.clone()),
            AgentFailure::Datastore(cause) => AgentFailure::Datastore(cause.clone()),
        }
    }
}

/// The error that stands for the failure of asking the agent at `agent` for `what`.
pub open spec fn classified(failure: AgentFailureView, what: Seq<char>, agent: Seq<char>)
    -> ErrorView {
    match failure {
        AgentFailureView::Connect(cause) => ErrorView {
            kind: ErrorKindView::AgentConnect(agent),
            cause: Some(cause),
        },
        AgentFailureView::Invalid(cause) => ErrorView {
            kind: ErrorKindView::AgentDown(what, agent),
            cause: Some(cause),
        },
        AgentFailureView::Datastore(cause) => ErrorView {
            kind: ErrorKindView::DatastoreDown(what, agent),
            cause: Some(cause),
        },
    }
}

/// The error that stands for the failure of asking the agent at `agent` for
/// `what`: an agent that cannot be connected to, an agent that is down, or a
/// node that is down.
pub fn classify(failure: &AgentFailure, what: &'static str, agent: &str) -> (error: Error)
    ensures
        error@ == classified(failure@, what@, agent@),
        error@.kind.is_remote(),
{
    match failure {
        AgentFailure::Connect(cause) => Error::caused_by(
            ErrorKind::AgentConnect(agent.to_owned()),
            cause.as_str(),
        ),
        AgentFailure::Invalid(cause) => Error::caused_by(
            ErrorKind::AgentDown(what, agent.to_owned()),
            cause.as_str(),
        ),
        AgentFailure::Datastore(cause) => Error::caused_by(
            ErrorKind::DatastoreDown(what, agent.to_owned()),
            cause.as_str(),
        ),
    }
}

} // verus!
