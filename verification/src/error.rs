//! Errors of the control plane itself.
use crate::text::clone_opt_string;
use vstd::prelude::*;

verus! {

/// Every kind of error the control plane reports.
#[derive(Debug, PartialEq, Eq)]
pub enum ErrorKind {
    /// A client could not be initialised: the client.
    ClientInit(&'static str),
    /// The metadata of a cluster could not be aggregated.
    ClusterAggregation,
    /// The state of a cluster could not be refreshed.
    ClusterRefresh,
    /// A component was started twice: the component.
    ComponentAlreadyRunning(&'static str),
    /// The configuration could not be loaded.
    ConfigLoad,
    /// The other processes could not be coordinated with.
    Coordination,
    /// Something could not be decoded: what, and into which model.
    Deserialize(&'static str, &'static str),
    /// An interface could not be initialised: the interface.
    InterfaceInit(&'static str),
    /// A model is missing: the kind of model and its identifier.
    ModelNotFound(&'static str, String),
    /// The primary store could not be queried: what was asked of it.
    PrimaryStoreQuery(&'static str),
    /// A model could not be persisted to the primary store: the model.
    PrimaryStorePersist(&'static str),
    /// A thread could not be started: the thread.
    SpawnThread(&'static str),
    /// The worker of a queue could not be registered: the queue.
    TaskWorkerRegistration(String),
}

/// What an `ErrorKind` holds.
pub enum ErrorKindView {
    ClientInit(Seq<char>),
    ClusterAggregation,
    ClusterRefresh,
    ComponentAlreadyRunning(Seq<char>),
    ConfigLoad,
    Coordination,
    Deserialize(Seq<char>, Seq<char>),
    InterfaceInit(Seq<char>),
    ModelNotFound(Seq<char>, Seq<char>),
    PrimaryStoreQuery(Seq<char>),
    PrimaryStorePersist(Seq<char>),
    SpawnThread(Seq<char>),
    TaskWorkerRegistration(Seq<char>),
}

impl ErrorKindView {
    /// The name of the kind.
    pub open spec fn name(self) -> Seq<char> {
        match self {
            ErrorKindView::ClientInit(_) => "ClientInit"@,
            ErrorKindView::ClusterAggregation => "ClusterAggregation"@,
            ErrorKindView::ClusterRefresh => "ClusterRefresh"@,
            ErrorKindView::ComponentAlreadyRunning(_) => "ComponentAlreadyRunning"@,
            ErrorKindView::ConfigLoad => "ConfigLoad"@,
            ErrorKindView::Coordination => "Coordination"@,
            ErrorKindView::Deserialize(_, _) => "Deserialize"@,
            ErrorKindView::InterfaceInit(_) => "InterfaceInit"@,
            ErrorKindView::ModelNotFound(_, _) => "ModelNotFound"@,
            ErrorKindView::PrimaryStoreQuery(_) => "PrimaryStoreQuery"@,
            ErrorKindView::PrimaryStorePersist(_) => "PrimaryStorePersist"@,
            ErrorKindView::SpawnThread(_) => "SpawnThread"@,
            ErrorKindView::TaskWorkerRegistration(_) => "TaskWorkerRegistration"@,
        }
    }

    /// Whether the process cannot go on after the error.
    pub open spec fn is_fatal(self) -> bool {
        self is TaskWorkerRegistration || self is ComponentAlreadyRunning
    }
}

impl View for ErrorKind {
    type V = ErrorKindView;

    open spec fn view(&self) -> ErrorKindView {
        match self {
            ErrorKind::ClientInit(client) => ErrorKindView::ClientInit(client@),
            ErrorKind::ClusterAggregation => ErrorKindView::ClusterAggregation,
            ErrorKind::ClusterRefresh => ErrorKindView::ClusterRefresh,
            ErrorKind::ComponentAlreadyRunning(name) => ErrorKindView::ComponentAlreadyRunning(
                name@,
            ),
            ErrorKind::ConfigLoad => ErrorKindView::ConfigLoad,
            ErrorKind::Coordination => ErrorKindView::Coordination,
            ErrorKind::Deserialize(what, into) => ErrorKindView::Deserialize(what@, into@),
            ErrorKind::InterfaceInit(name) => ErrorKindView::InterfaceInit(name@),
            ErrorKind::ModelNotFound(model, id) => ErrorKindView::ModelNotFound(model@, id@),
            ErrorKind::PrimaryStoreQuery(what) => ErrorKindView::PrimaryStoreQuery(what@),
            ErrorKind::PrimaryStorePersist(model) => ErrorKindView::PrimaryStorePersist(model@),
            ErrorKind::SpawnThread(thread) => ErrorKindView::SpawnThread(thread@),
            ErrorKind::TaskWorkerRegistration(queue) => ErrorKindView::TaskWorkerRegistration(
                queue@,
            ),
        }
    }
}

impl ErrorKind {
    /// The name of the kind.
    pub fn kind_name(&self) -> (name: Option<&'static str>)
        ensures
            name matches Some(text) && text@ == self@.name(),
    {
        let name = match self {
            ErrorKind::ClientInit(_) => "ClientInit",
            ErrorKind::ClusterAggregation => "ClusterAggregation",
            ErrorKind::ClusterRefresh => "ClusterRefresh",
            ErrorKind::ComponentAlreadyRunning(_) => "ComponentAlreadyRunning",
            ErrorKind::ConfigLoad => "ConfigLoad",
            ErrorKind::Coordination => "Coordination",
            ErrorKind::Deserialize(_, _) => "Deserialize",
            ErrorKind::InterfaceInit(_) => "InterfaceInit",
            ErrorKind::ModelNotFound(_, _) => "ModelNotFound",
            ErrorKind::PrimaryStoreQuery(_) => "PrimaryStoreQuery",
            ErrorKind::PrimaryStorePersist(_) => "PrimaryStorePersist",
            ErrorKind::SpawnThread(_) => "SpawnThread",
            ErrorKind::TaskWorkerRegistration(_) => "TaskWorkerRegistration",
        };
        Some(name)
    }

    /// Whether the process cannot go on after the error.
    pub fn is_fatal(&self) -> (fatal: bool)
        ensures
            fatal == self@.is_fatal(),
    {
        match self {
            ErrorKind::TaskWorkerRegistration(_) => true,
            ErrorKind::ComponentAlreadyRunning(_) => true,
            _ => false,
        }
    }
}

/// An error of the control plane: its kind, and the text of what caused it
/// where something did.
#[derive(Debug, PartialEq, Eq)]
pub struct Error {
    kind: ErrorKind,
    cause: Option<String>,
}

/// What an `Error` holds.
pub struct ErrorView {
    pub kind: ErrorKindView,
    pub cause: Option<Seq<char>>,
}

impl View for Error {
    type V = ErrorView;

    closed spec fn view(&self) -> ErrorView {
        ErrorView { kind: self.kind@, cause: self.cause.deep_view() }
    }
}

impl DeepView for Error {
    type V = ErrorView;

    open spec fn deep_view(&self) -> ErrorView {
        self@
    }
}

impl Error {
    /// An error of the given kind with no known cause.
    pub fn new(kind: ErrorKind) -> (error: Error)
        ensures
            error@ == (ErrorView { kind: kind@, cause: None }),
    {
        Error { kind, cause: None }
    }

    /// An error of the given kind caused by what `cause` describes.
    pub fn caused_by(kind: ErrorKind, cause: &str) -> (error: Error)
        ensures
            error@ == (ErrorView { kind: kind@, cause: Some(cause@) }),
    {
        Error { kind, cause: Some(cause.to_owned()) }
    }

    /// The kind of the error.
    pub fn kind(&self) -> (kind: &ErrorKind)
        ensures
            kind@ == self@.kind,
    {
        &self.kind
    }

    /// The text of what caused the error, where something did.
    pub fn cause(&self) -> (cause: Option<String>)
        ensures
            cause.deep_view() == self@.cause,
    {
        clone_opt_string(&self.cause)
    }
}

} // verus!
