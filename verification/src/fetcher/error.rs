//! Errors of the cluster fetcher.
//!
//! Errors that come from an agent or from the node behind it are recorded on
//! the agent and the refresh goes on. Errors of the control plane itself stop
//! the refresh.
use crate::models::agent::AgentStatus;
use crate::models::agent::AgentStatusView;
use crate::text::clone_opt_string;
use crate::text::concat2;
use crate::text::concat3;
use vstd::prelude::*;
use vstd::string::*;

verus! {

/// Every kind of error the fetcher reports.
#[derive(Debug, PartialEq, Eq)]
pub enum ErrorKind {
    /// The agent cannot be reached: its address.
    AgentConnect(String),
    /// The agent answered, but not with what was asked of it: what was asked,
    /// and the agent's address.
    AgentDown(&'static str, String),
    /// The agent answered that its node cannot be reached: what was asked,
    /// and the agent's address.
    DatastoreDown(&'static str, String),
    /// A node reports another display name than its cluster has: the expected
    /// name, the reported name, and the node.
    ClusterDisplayNameDoesNotMatch(String, String, String),
    /// A node reports another cluster than the one it was discovered in: the
    /// expected identifier, the reported identifier, and the node.
    ClusterIdDoesNotMatch(String, String, String),
    /// An event could not be emitted: the kind of event.
    EventEmit(&'static str),
    /// The primary store could not be read: what was asked of it.
    PrimaryStoreRead(&'static str),
    /// The primary store could not be written: what was to be written.
    PrimaryStoreWrite(&'static str),
    /// The view store could not be read: what was asked of it.
    ViewStoreRead(&'static str),
    /// The view store could not be written: what was to be written.
    ViewStoreWrite(&'static str),
}

/// What an `ErrorKind` holds.
pub enum ErrorKindView {
    AgentConnect(Seq<char>),
    AgentDown(Seq<char>, Seq<char>),
    DatastoreDown(Seq<char>, Seq<char>),
    ClusterDisplayNameDoesNotMatch(Seq<char>, Seq<char>, Seq<char>),
    ClusterIdDoesNotMatch(Seq<char>, Seq<char>, Seq<char>),
    EventEmit(Seq<char>),
    PrimaryStoreRead(Seq<char>),
    PrimaryStoreWrite(Seq<char>),
    ViewStoreRead(Seq<char>),
    ViewStoreWrite(Seq<char>),
}

impl ErrorKindView {
    /// The name of the kind.
    pub open spec fn name(self) -> Seq<char> {
        match self {
            ErrorKindView::AgentConnect(_) => "AgentConnect"@,
            ErrorKindView::AgentDown(_, _) => "AgentDown"@,
            ErrorKindView::DatastoreDown(_, _) => "DatastoreDown"@,
            ErrorKindView::ClusterDisplayNameDoesNotMatch(
                _,
                _,
                _,
            ) => "ClusterDisplayNameDoesNotMatch"@,
            ErrorKindView::ClusterIdDoesNotMatch(_, _, _) => "ClusterIdDoesNotMatch"@,
            ErrorKindView::EventEmit(_) => "EventEmit"@,
            ErrorKindView::PrimaryStoreRead(_) => "PrimaryStoreRead"@,
            ErrorKindView::PrimaryStoreWrite(_) => "PrimaryStoreWrite"@,
            ErrorKindView::ViewStoreRead(_) => "ViewStoreRead"@,
            ErrorKindView::ViewStoreWrite(_) => "ViewStoreWrite"@,
        }
    }

    /// The text that describes the error to a person.
    pub open spec fn message(self) -> Seq<char> {
        match self {
            ErrorKindView::AgentConnect(agent) => "error connecting to agent "@ + agent,
            ErrorKindView::AgentDown(what, agent) => "error fetching/sending "@ + what
                + " from/to agent "@ + agent,
            ErrorKindView::DatastoreDown(what, agent) => "error fetching/sending "@ + what
                + " from/to agent "@ + agent,
            ErrorKindView::ClusterDisplayNameDoesNotMatch(expected, found, node) =>
                "expected cluster display name '"@ + expected + "' but found '"@ + found
                    + "' for node with ID '"@ + node + "'"@,
            ErrorKindView::ClusterIdDoesNotMatch(expected, found, node) =>
                "expected cluster ID '"@ + expected + "' but found '"@ + found
                    + "' for node with ID '"@ + node + "'"@,
            ErrorKindView::EventEmit(kind) => "error emitting "@ + kind + " event"@,
            ErrorKindView::PrimaryStoreRead(what) => "error fetching "@ + what
                + " from the primary store"@,
            ErrorKindView::PrimaryStoreWrite(what) => "error persisting "@ + what
                + " to the primary store"@,
            ErrorKindView::ViewStoreRead(what) => "error fetching "@ + what
                + " from the view store"@,
            ErrorKindView::ViewStoreWrite(what) => "error persisting "@ + what
                + " to the view store"@,
        }
    }

    /// Whether the error is one of the agent or of its node, and not one of
    /// the control plane.
    pub open spec fn is_remote(self) -> bool {
        match self {
            ErrorKindView::AgentConnect(_) => true,
            ErrorKindView::AgentDown(_, _) => true,
            ErrorKindView::DatastoreDown(_, _) => true,
            ErrorKindView::ClusterDisplayNameDoesNotMatch(_, _, _) => true,
            ErrorKindView::ClusterIdDoesNotMatch(_, _, _) => true,
            _ => false,
        }
    }
}

impl View for ErrorKind {
    type V = ErrorKindView;

    open spec fn view(&self) -> ErrorKindView {
        match self {
            ErrorKind::AgentConnect(agent) => ErrorKindView::AgentConnect(agent@),
            ErrorKind::AgentDown(what, agent) => ErrorKindView::AgentDown(what@, agent@),
            ErrorKind::DatastoreDown(what, agent) => ErrorKindView::DatastoreDown(what@, agent@),
            ErrorKind::ClusterDisplayNameDoesNotMatch(
                expected,
                found,
                node,
            ) => ErrorKindView::ClusterDisplayNameDoesNotMatch(expected@, found@, node@),
            ErrorKind::ClusterIdDoesNotMatch(
                expected,
                found,
                node,
            ) => ErrorKindView::ClusterIdDoesNotMatch(expected@, found@, node@),
            ErrorKind::EventEmit(kind) => ErrorKindView::EventEmit(kind@),
            ErrorKind::PrimaryStoreRead(what) => ErrorKindView::PrimaryStoreRead(what@),
            ErrorKind::PrimaryStoreWrite(what) => ErrorKindView::PrimaryStoreWrite(what@),
            ErrorKind::ViewStoreRead(what) => ErrorKindView::ViewStoreRead(what@),
            ErrorKind::ViewStoreWrite(what) => ErrorKindView::ViewStoreWrite(what@),
        }
    }
}

impl Clone for ErrorKind {
    fn clone(&self) -> (out: Self)
        ensures
            out@ == self@,
    {
        match self {
            ErrorKind::AgentConnect(agent) => ErrorKind::AgentConnect(agent.clone()),
            ErrorKind::AgentDown(what, agent) => ErrorKind::AgentDown(*what, agent.clone()),
            ErrorKind::DatastoreDown(what, agent) => ErrorKind::DatastoreDown(*what, agent.clone()),
            ErrorKind::ClusterDisplayNameDoesNotMatch(
                expected,
                found,
                node,
            ) => ErrorKind::ClusterDisplayNameDoesNotMatch(
                expected.clone(),
                found.clone(),
                node.clone(),
            ),
            ErrorKind::ClusterIdDoesNotMatch(
                expected,
                found,
                node,
            ) => ErrorKind::ClusterIdDoesNotMatch(expected.clone(), found.clone(), node.clone()),
            ErrorKind::EventEmit(kind) => ErrorKind::EventEmit(*kind),
            ErrorKind::PrimaryStoreRead(what) => ErrorKind::PrimaryStoreRead(*what),
            ErrorKind::PrimaryStoreWrite(what) => ErrorKind::PrimaryStoreWrite(*what),
            ErrorKind::ViewStoreRead(what) => ErrorKind::ViewStoreRead(*what),
            ErrorKind::ViewStoreWrite(what) => ErrorKind::ViewStoreWrite(*what),
        }
    }
}

/// The text that says what was expected, what was found, and on which node.
fn mismatch(head: &str, expected: &String, found: &String, node: &String) -> (text: String)
    ensures
        text@ == head@ + expected@ + "' but found '"@ + found@ + "' for node with ID '"@ + node@
            + "'"@,
{
    let mut text = head.to_owned();
    text.append(expected.as_str());
    text.append("' but found '");
    text.append(found.as_str());
    text.append("' for node with ID '");
    text.append(node.as_str());
    text.append("'");
    text
}

/// The text that says what was asked of which agent.
fn phrase(head: &str, what: &str, middle: &str, agent: &str) -> (text: String)
    ensures
        text@ == head@ + what@ + middle@ + agent@,
{
    let mut text = head.to_owned();
    text.append(what);
    text.append(middle);
    text.append(agent);
    text
}

impl ErrorKind {
    /// The name of the kind.
    pub fn kind_name(&self) -> (name: Option<&'static str>)
        ensures
            name matches Some(text) && text@ == self@.name(),
    {
        let name = match self {
            ErrorKind::AgentConnect(_) => "AgentConnect",
            ErrorKind::AgentDown(_, _) => "AgentDown",
            ErrorKind::DatastoreDown(_, _) => "DatastoreDown",
            ErrorKind::ClusterDisplayNameDoesNotMatch(_, _, _) => "ClusterDisplayNameDoesNotMatch",
            ErrorKind::ClusterIdDoesNotMatch(_, _, _) => "ClusterIdDoesNotMatch",
            ErrorKind::EventEmit(_) => "EventEmit",
            ErrorKind::PrimaryStoreRead(_) => "PrimaryStoreRead",
            ErrorKind::PrimaryStoreWrite(_) => "PrimaryStoreWrite",
            ErrorKind::ViewStoreRead(_) => "ViewStoreRead",
            ErrorKind::ViewStoreWrite(_) => "ViewStoreWrite",
        };
        Some(name)
    }

    /// The text that describes the error to a person.
    pub fn message(&self) -> (text: String)
        ensures
            text@ == self@.message(),
    {
        match self {
            ErrorKind::AgentConnect(agent) => concat2("error connecting to agent ", agent.as_str()),
            ErrorKind::AgentDown(what, agent) => phrase(
                "error fetching/sending ",
                what,
                " from/to agent ",
                agent.as_str(),
            ),
            ErrorKind::DatastoreDown(what, agent) => phrase(
                "error fetching/sending ",
                what,
                " from/to agent ",
                agent.as_str(),
            ),
            ErrorKind::ClusterDisplayNameDoesNotMatch(expected, found, node) => mismatch(
                "expected cluster display name '",
                expected,
                found,
                node,
            ),
            ErrorKind::ClusterIdDoesNotMatch(expected, found, node) => mismatch(
                "expected cluster ID '",
                expected,
                found,
                node,
            ),
            ErrorKind::EventEmit(kind) => concat3("error emitting ", kind, " event"),
            ErrorKind::PrimaryStoreRead(what) => concat3("error fetching ", what, " from the primary store"),
            ErrorKind::PrimaryStoreWrite(what) => concat3("error persisting ", what, " to the primary store"),
            ErrorKind::ViewStoreRead(what) => concat3("error fetching ", what, " from the view store"),
            ErrorKind::ViewStoreWrite(what) => concat3("error persisting ", what, " to the view store"),
        }
    }
}

/// An error of the fetcher: its kind, and the text of what caused it where
/// something did.
#[derive(Debug, PartialEq, Eq)]
pub struct Error {
    kind: ErrorKind,
    cause: Option<String>,
}

/// What an `Error` holds.
pub struct ErrorView {
    pub kind: ErrorKindView,
    pub cause: Option<Seq<char>>,
}

impl ErrorView {
    /// The text that describes the error and, where one is known, its cause.
    pub open spec fn display(self) -> Seq<char> {
        match self.cause {
            Some(cause) => self.kind.message() + ": "@ + cause,
            None => self.kind.message(),
        }
    }

    /// The status that the error gives the agent it is about. An error of the
    /// control plane itself says nothing about the agent.
    pub open spec fn agent_status(self) -> Option<AgentStatusView> {
        match self.kind {
            ErrorKindView::AgentConnect(_) => Some(AgentStatusView::AgentDown(self.display())),
            ErrorKindView::AgentDown(_, _) => Some(AgentStatusView::AgentDown(self.display())),
            ErrorKindView::ClusterDisplayNameDoesNotMatch(_, _, _) => Some(
                AgentStatusView::AgentDown(self.display()),
            ),
            ErrorKindView::ClusterIdDoesNotMatch(_, _, _) => Some(
                AgentStatusView::AgentDown(self.display()),
            ),
            ErrorKindView::DatastoreDown(_, _) => Some(AgentStatusView::NodeDown(self.display())),
            _ => None,
        }
    }
}

impl View for Error {
    type V = ErrorView;

    closed spec fn view(&self) -> ErrorView {
        ErrorView { kind: self.kind@, cause: self.cause.deep_view() }
    }
}

impl DeepView for Error {
    type V = ErrorView;

    open spec fn deep_view(&self) -> ErrorView {
        self@
    }
}

impl Clone for Error {
    fn clone(&self) -> (out: Self)
        ensures
            out@ == self@,
    {
        Error { kind: self.kind.clone(), cause: clone_opt_string(&self.cause) }
    }
}

impl Error {
    /// An error of the given kind with no known cause.
    pub fn new(kind: ErrorKind) -> (error: Error)
        ensures
            error@ == (ErrorView { kind: kind@, cause: None }),
    {
        Error { kind, cause: None }
    }

    /// An error of the given kind caused by what `cause` describes.
    pub fn caused_by(kind: ErrorKind, cause: &str) -> (error: Error)
        ensures
            error@ == (ErrorView { kind: kind@, cause: Some(cause@) }),
    {
        Error { kind, cause: Some(cause.to_owned()) }
    }

    /// Return more information about this error.
    pub fn kind(&self) -> (kind: &ErrorKind)
        ensures
            kind@ == self@.kind,
    {
        &self.kind
    }

    /// The name of the kind of this error.
    pub fn name(&self) -> (name: Option<&'static str>)
        ensures
            name matches Some(text) && text@ == self@.kind.name(),
    {
        self.kind.kind_name()
    }

    /// The text that describes the error and, where one is known, its cause.
    pub fn display(&self) -> (text: String)
        ensures
            text@ == self@.display(),
    {
        let mut text = self.kind.message();
        match &self.cause {
            Some(cause) => {
                text.append(": ");
                text.append(cause.as_str());
            },
            None => {},
        }
        text
    }

    /// Return the `AgentStatus` based on the reported error.
    ///
    /// `None` is returned if the error is with the control plane itself.
    pub fn agent_status(&self) -> (status: Option<AgentStatus>)
        ensures
            status.deep_view() == self@.agent_status(),
            status is Some == self@.kind.is_remote(),
    {
        match self.kind {
            ErrorKind::AgentConnect(_)
            | ErrorKind::AgentDown(_, _)
            | ErrorKind::ClusterDisplayNameDoesNotMatch(_, _, _)
            | ErrorKind::ClusterIdDoesNotMatch(_, _, _) => {
                let message = self.display();
                Some(AgentStatus::AgentDown(message))
            },
            ErrorKind::DatastoreDown(_, _) => {
                let message = self.display();
                Some(AgentStatus::NodeDown(message))
            },
            _ => None,
        }
    }
}

} // verus!
