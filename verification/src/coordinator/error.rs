//! Errors of the coordinator.
use crate::coordinator::node_id::NodeId;
use crate::coordinator::node_id::NodeIdView;
use crate::text::clone_opt_string;
use vstd::prelude::*;

verus! {

/// Every kind of error the coordinator reports.
#[derive(Debug, PartialEq, Eq)]
pub enum ErrorKind {
    /// An operation on the consensus store failed for now: the operation.
    Backend(&'static str),
    /// What the consensus store holds could not be decoded: what was read.
    Decode(&'static str),
    /// The lock is held by another owner: the lock and its owner.
    LockHeld(String, NodeId),
    /// No lock of this name is held.
    LockNotFound(String),
    /// A background thread could not be started: the thread.
    SpawnThread(&'static str),
    /// The operation is not available: the operation.
    Unimplemented(&'static str),
}

/// What an `ErrorKind` holds.
pub enum ErrorKindView {
    Backend(Seq<char>),
    Decode(Seq<char>),
    LockHeld(Seq<char>, NodeIdView),
    LockNotFound(Seq<char>),
    SpawnThread(Seq<char>),
    Unimplemented(Seq<char>),
}

impl ErrorKindView {
    /// The name of the kind.
    pub open spec fn name(self) -> Seq<char> {
        match self {
            ErrorKindView::Backend(_) => "Backend"@,
            ErrorKindView::Decode(_) => "Decode"@,
            ErrorKindView::LockHeld(_, _) => "LockHeld"@,
            ErrorKindView::LockNotFound(_) => "LockNotFound"@,
            ErrorKindView::SpawnThread(_) => "SpawnThread"@,
            ErrorKindView::Unimplemented(_) => "Unimplemented"@,
        }
    }
}

impl View for ErrorKind {
    type V = ErrorKindView;

    open spec fn view(&self) -> ErrorKindView {
        match self {
            ErrorKind::Backend(operation) => ErrorKindView::Backend(operation@),
            ErrorKind::Decode(what) => ErrorKindView::Decode(what@),
            ErrorKind::LockHeld(lock, owner) => ErrorKindView::LockHeld(lock@, owner@),
            ErrorKind::LockNotFound(lock) => ErrorKindView::LockNotFound(lock@),
            ErrorKind::SpawnThread(thread) => ErrorKindView::SpawnThread(thread@),
            ErrorKind::Unimplemented(operation) => ErrorKindView::Unimplemented(operation@),
        }
    }
}

impl ErrorKind {
    /// The name of the kind.
    pub fn kind_name(&self) -> (name: Option<&'static str>)
        ensures
            name matches Some(text) && text@ == self@.name(),
    {
        let name = match self {
            ErrorKind::Backend(_) => "Backend",
            ErrorKind::Decode(_) => "Decode",
            ErrorKind::LockHeld(_, _) => "LockHeld",
            ErrorKind::LockNotFound(_) => "LockNotFound",
            ErrorKind::SpawnThread(_) => "SpawnThread",
            ErrorKind::Unimplemented(_) => "Unimplemented",
        };
        Some(name)
    }
}

/// An error of the coordinator: its kind, and the text of what caused it
/// where something did.
#[derive(Debug, PartialEq, Eq)]
pub struct Error {
    kind: ErrorKind,
    cause: Option<String>,
}

/// What an `Error` holds.
pub struct ErrorView {
    pub kind: ErrorKindView,
    pub cause: Option<Seq<char>>,
}

impl ErrorView {
    /// The text that describes the error: the name of its kind and, where
    /// one is known, its cause.
    pub open spec fn display(self) -> Seq<char> {
        match self.cause {
            Some(cause) => self.kind.name() + ": "@ + cause,
            None => self.kind.name(),
        }
    }
}

impl View for Error {
    type V = ErrorView;

    closed spec fn view(&self) -> ErrorView {
        ErrorView { kind: self.kind@, cause: self.cause.deep_view() }
    }
}

impl DeepView for Error {
    type V = ErrorView;

    open spec fn deep_view(&self) -> ErrorView {
        self@
    }
}

impl Error {
    /// An error of the given kind with no known cause.
    pub fn new(kind: ErrorKind) -> (error: Error)
        ensures
            error@ == (ErrorView { kind: kind@, cause: None }),
    {
        Error { kind, cause: None }
    }

    /// An error of the given kind caused by what `cause` describes.
    pub fn caused_by(kind: ErrorKind, cause: &str) -> (error: Error)
        ensures
            error@ == (ErrorView { kind: kind@, cause: Some(cause@) }),
    {
        Error { kind, cause: Some(cause.to_owned()) }
    }

    /// The kind of the error.
    pub fn kind(&self) -> (kind: &ErrorKind)
        ensures
            kind@ == self@.kind,
    {
        &self.kind
    }

    /// The text that describes the error.
    pub fn display(&self) -> (text: String)
        ensures
            text@ == self@.display(),
    {
        let name = match self.kind.kind_name() {
            Some(name) => name,
            None => "",
        };
        match &self.cause {
            Some(cause) => crate::text::concat3(name, ": ", cause.as_str()),
            None => name.to_owned(),
        }
    }

    /// The text of what caused the error, where something did.
    pub fn cause(&self) -> (cause: Option<String>)
        ensures
            cause.deep_view() == self@.cause,
    {
        clone_opt_string(&self.cause)
    }
}

} // verus!
