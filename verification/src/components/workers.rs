//! The workers component: which queues this node consumes.
use crate::error::Error;
use crate::error::ErrorKind;
use crate::error::ErrorKindView;
use crate::error::ErrorView;
use crate::tasks::queues::ReplicanteQueues;
use crate::tasks::queues::TaskQueue;
use vstd::prelude::*;

verus! {

/// Task workers enabling configuration.
#[derive(Clone, Copy, Debug, PartialEq, Eq, Structural)]
pub struct TaskWorkers {
    /// Whether the queues that have no setting of their own are consumed.
    pub default: bool,
    /// Whether the queue of cluster refreshes is consumed.
    pub cluster_refresh: Option<bool>,
}

impl Default for TaskWorkers {
    fn default() -> (config: TaskWorkers)
        ensures
            config == (TaskWorkers { default: true, cluster_refresh: None }),
    {
        TaskWorkers { default: true, cluster_refresh: None }
    }
}

impl TaskWorkers {
    /// Whether this node consumes the queue of cluster refreshes.
    pub fn cluster_refresh(&self) -> (enabled: bool)
        ensures
            enabled == match self.cluster_refresh {
                Some(enabled) => enabled,
                None => self.default,
            },
    {
        match self.cluster_refresh {
            Some(enabled) => enabled,
            None => self.default,
        }
    }
}

/// What to do about the worker of one queue.
#[derive(Debug, PartialEq, Eq)]
pub enum WorkerSetup {
    /// The queue is consumed: its handler is to be registered.
    Register,
    /// The queue is not consumed.
    Skip,
}

/// Decide whether the worker of `queue` is to be registered. The flag that
/// reports whether the queue is consumed is set to match.
pub fn configure_worker(queue: ReplicanteQueues, enabled: bool) -> (setup: (WorkerSetup, bool))
    ensures
        setup.1 == enabled,
        setup.0 == if enabled {
            WorkerSetup::Register
        } else {
            WorkerSetup::Skip
        },
{
    if enabled {
        (WorkerSetup::Register, true)
    } else {
        (WorkerSetup::Skip, false)
    }
}

/// The error for a worker that could not be registered, which is fatal.
pub fn registration_failed(queue: ReplicanteQueues, cause: &str) -> (error: Error)
    ensures
        error@ == (ErrorView {
            kind: ErrorKindView::TaskWorkerRegistration(queue.spec_name()),
            cause: Some(cause@),
        }),
        error@.kind.is_fatal(),
{
    Error::caused_by(ErrorKind::TaskWorkerRegistration(queue.name()), cause)
}

/// Whether the workers are only configured or already running.
#[derive(Clone, Copy, Debug, PartialEq, Eq, Structural)]
pub enum State {
    Configured,
    Started,
}

/// The workers of this node.
pub struct Workers {
    state: State,
    cluster_refresh: bool,
}

impl Workers {
    /// Whether the workers are only configured or already running.
    pub closed spec fn state(&self) -> State {
        self.state
    }

    /// Whether the queue of cluster refreshes is consumed.
    pub closed spec fn consumes_cluster_refresh(&self) -> bool {
        self.cluster_refresh
    }

    /// Configure the task workers to be run later.
    ///
    /// The tasks that are processed by this node are defined in the configuration.
    pub fn new(config: TaskWorkers) -> (workers: Workers)
        ensures
            workers.state() == State::Configured,
            workers.consumes_cluster_refresh() == match config.cluster_refresh {
                Some(enabled) => enabled,
                None => config.default,
            },
    {
        Workers { state: State::Configured, cluster_refresh: config.cluster_refresh() }
    }

    /// The queues that this node consumes.
    pub fn queues(&self) -> (queues: Vec<ReplicanteQueues>)
        ensures
            queues@ == if self.consumes_cluster_refresh() {
                seq![ReplicanteQueues::ClusterRefresh]
            } else {
                Seq::<ReplicanteQueues>::empty()
            },
    {
        let mut queues: Vec<ReplicanteQueues> = Vec::new();
        if self.cluster_refresh {
            queues.push(ReplicanteQueues::ClusterRefresh);
        }
        queues
    }

    /// Start the workers. Workers that are running already cannot be started
    /// again: that is a misuse, and fatal.
    pub fn run(&mut self) -> (result: core::result::Result<(), Error>)
        ensures
            final(self).state() == State::Started,
            final(self).consumes_cluster_refresh() == old(self).consumes_cluster_refresh(),
            match result {
                Ok(_) => old(self).state() == State::Configured,
                Err(error) => old(self).state() == State::Started && error@ == (ErrorView {
                    kind: ErrorKindView::ComponentAlreadyRunning("workers"@),
                    cause: None,
                }),
            },
    {
        match self.state {
            State::Configured => {
                self.state = State::Started;
                Ok(())
            },
            State::Started => Err(Error::new(ErrorKind::ComponentAlreadyRunning("workers"))),
        }
    }
}

} // verus!
