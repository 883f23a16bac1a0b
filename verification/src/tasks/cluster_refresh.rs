//! The handler of cluster refresh tasks.
//!
//! A refresh decodes its task, takes the lock of the cluster, fetches the
//! state of every agent, aggregates the metadata of the cluster, releases the
//! lock and acknowledges the task:
//!
//! ```text
//! PENDING -> LOCK_REQUEST -> FETCHING -> AGGREGATING -> RELEASE -> DONE
//!                 |             |             |
//!                 v             v             v
//!               SKIP         PARTIAL       PARTIAL
//! ```
//!
//! A lock that is held by someone else is no error: the refresh is skipped
//! and the task succeeds. A lock that is lost on the way is no error either:
//! the refresh stops where it is and the task succeeds. Any error of the
//! control plane fails the task, which the queue then tries again.
use crate::clock::Timestamp;
use crate::coordinator::error::Error as CoordinatorError;
use crate::coordinator::error::ErrorKind as CoordinatorErrorKind;
use crate::coordinator::error::ErrorKindView as CoordinatorErrorKindView;
use crate::coordinator::error::ErrorView as CoordinatorErrorView;
use crate::coordinator::node_id::NodeId;
use crate::coordinator::node_id::NodeIdView;
use crate::error::Error;
use crate::error::ErrorKind;
use crate::error::ErrorKindView;
use crate::error::ErrorView;
use crate::fetcher::fetch::Outcome;
use crate::fetcher::fetch::OutcomeView;
use crate::models::cluster::ClusterDiscovery;
use crate::models::cluster::ClusterDiscoveryView;
use crate::models::tasks::ClusterRefreshPayload;
use crate::models::tasks::ClusterRefreshPayloadView;
use crate::text::concat2;
use crate::text::result_view;
use vstd::prelude::*;

verus! {

/// How a task is acknowledged.
#[derive(Clone, Copy, Debug, PartialEq, Eq, Structural)]
pub enum TaskAck {
    /// The task is done and is not delivered again.
    Success,
    /// The task failed and is tried again, as often as its queue allows.
    Fail,
    /// The task can never succeed and is not tried again.
    Drop,
}

/// What the handler asks for.
#[derive(Debug, PartialEq, Eq)]
pub enum Request {
    /// Decode the payload of the task.
    Deserialize,
    /// Try to acquire the lock `lock`.
    Acquire { lock: String },
    /// Fetch the state of the agents of the cluster, under the refresh `refresh_id`.
    Fetch { cluster: ClusterDiscovery, refresh_id: i64 },
    /// Aggregate the metadata of the cluster.
    Aggregate { cluster: ClusterDiscovery },
    /// Emit the events that describe the state of the cluster after the refresh.
    Snapshot { cluster: ClusterDiscovery },
    /// Release the lock `lock`.
    Release { lock: String },
}

/// What a `Request` holds.
pub enum RequestView {
    Deserialize,
    Acquire { lock: Seq<char> },
    Fetch { cluster: ClusterDiscoveryView, refresh_id: i64 },
    Aggregate { cluster: ClusterDiscoveryView },
    Snapshot { cluster: ClusterDiscoveryView },
    Release { lock: Seq<char> },
}

impl View for Request {
    type V = RequestView;

    open spec fn view(&self) -> RequestView {
        match self {
            Request::Deserialize => RequestView::Deserialize,
            Request::Acquire { lock } => RequestView::Acquire { lock: lock@ },
            Request::Fetch { cluster, refresh_id } => RequestView::Fetch {
                cluster: cluster@,
                refresh_id: *refresh_id,
            },
            Request::Aggregate { cluster } => RequestView::Aggregate { cluster: cluster@ },
            Request::Snapshot { cluster } => RequestView::Snapshot { cluster: cluster@ },
            Request::Release { lock } => RequestView::Release { lock: lock@ },
        }
    }
}

impl DeepView for Request {
    type V = RequestView;

    open spec fn deep_view(&self) -> RequestView {
        self@
    }
}

/// What the handler is answered.
#[derive(Debug, PartialEq, Eq)]
pub enum Event {
    /// The payload of the task, or the text that says why it cannot be decoded.
    Deserialized(core::result::Result<ClusterRefreshPayload, String>),
    /// The outcome of the attempt to acquire the lock.
    Acquired(core::result::Result<(), CoordinatorError>),
    /// How the fetch ended.
    Fetched(Outcome),
    /// How the aggregation ended.
    Aggregated(Outcome),
    /// The outcome of emitting the snapshot, with the text of what failed.
    Snapshotted(core::result::Result<(), String>),
    /// The outcome of the attempt to release the lock.
    Released(core::result::Result<(), CoordinatorError>),
}

/// What an `Event` holds.
pub enum EventView {
    Deserialized(core::result::Result<ClusterRefreshPayloadView, Seq<char>>),
    Acquired(core::result::Result<(), CoordinatorErrorView>),
    Fetched(OutcomeView),
    Aggregated(OutcomeView),
    Snapshotted(core::result::Result<(), Seq<char>>),
    Released(core::result::Result<(), CoordinatorErrorView>),
}

impl View for Event {
    type V = EventView;

    open spec fn view(&self) -> EventView {
        match self {
            Event::Deserialized(outcome) => EventView::Deserialized(result_view(*outcome)),
            Event::Acquired(outcome) => EventView::Acquired(
                match outcome {
                    Ok(_) => Ok(()),
                    Err(error) => Err(error@),
                },
            ),
            Event::Fetched(outcome) => EventView::Fetched(outcome@),
            Event::Aggregated(outcome) => EventView::Aggregated(outcome@),
            Event::Snapshotted(outcome) => EventView::Snapshotted(
                match outcome {
                    Ok(_) => Ok(()),
                    Err(cause) => Err(cause@),
                },
            ),
            Event::Released(outcome) => EventView::Released(
                match outcome {
                    Ok(_) => Ok(()),
                    Err(error) => Err(error@),
                },
            ),
        }
    }
}

impl DeepView for Event {
    type V = EventView;

    open spec fn deep_view(&self) -> EventView {
        self@
    }
}

/// Where the handling of a task stands.
pub enum Phase {
    /// The task was received and its payload is to be decoded.
    Pending,
    /// The lock of the cluster was asked for.
    LockRequest(ClusterRefreshPayload),
    /// Another refresh of the cluster holds the lock, as the node `owner`:
    /// this one is skipped. The task succeeds.
    Skip { owner: NodeId },
    /// The agents of the cluster are fetched.
    Fetching(ClusterRefreshPayload),
    /// The metadata of the cluster is aggregated.
    Aggregating(ClusterRefreshPayload),
    /// The snapshot of the cluster is emitted.
    Snapshotting(ClusterRefreshPayload),
    /// The lock of the cluster is released.
    Release(ClusterRefreshPayload),
    /// The refresh ran to its end. The task succeeds.
    Done,
    /// The lock was lost on the way and the refresh stopped. The task succeeds.
    Partial,
    /// An error of the control plane stopped the refresh. The task fails, or
    /// is dropped where it can never succeed.
    Fail(Error, TaskAck),
}

/// What a `Phase` holds.
pub enum PhaseView {
    Pending,
    LockRequest(ClusterRefreshPayloadView),
    Skip { owner: NodeIdView },
    Fetching(ClusterRefreshPayloadView),
    Aggregating(ClusterRefreshPayloadView),
    Snapshotting(ClusterRefreshPayloadView),
    Release(ClusterRefreshPayloadView),
    Done,
    Partial,
    Fail(ErrorView, TaskAck),
}

impl View for Phase {
    type V = PhaseView;

    open spec fn view(&self) -> PhaseView {
        match self {
            Phase::Pending => PhaseView::Pending,
            Phase::LockRequest(payload) => PhaseView::LockRequest(payload@),
            Phase::Skip { owner } => PhaseView::Skip { owner: owner@ },
            Phase::Fetching(payload) => PhaseView::Fetching(payload@),
            Phase::Aggregating(payload) => PhaseView::Aggregating(payload@),
            Phase::Snapshotting(payload) => PhaseView::Snapshotting(payload@),
            Phase::Release(payload) => PhaseView::Release(payload@),
            Phase::Done => PhaseView::Done,
            Phase::Partial => PhaseView::Partial,
            Phase::Fail(error, ack) => PhaseView::Fail(error@, *ack),
        }
    }
}

/// The name of the lock that guards the refresh of the cluster `cluster_id`.
pub open spec fn lock_name(cluster_id: Seq<char>) -> Seq<char> {
    "cluster_refresh/"@ + cluster_id
}

/// The handling of one task.
pub struct Handler {
    phase: Phase,
    refresh_id: i64,
}

/// What a `Handler` holds: where it stands, and the identifier of the
/// refresh, which is the second in which the lock was acquired.
pub struct HandlerView {
    pub phase: PhaseView,
    pub refresh_id: i64,
}

impl HandlerView {
    /// The handling at another phase.
    pub open spec fn at(self, phase: PhaseView) -> HandlerView {
        HandlerView { phase, ..self }
    }

    /// The handling stopped by an error that the queue may get over by
    /// trying the task again.
    pub open spec fn failed(self, kind: ErrorKindView, cause: Seq<char>) -> HandlerView {
        self.at(PhaseView::Fail(ErrorView { kind, cause: Some(cause) }, TaskAck::Fail))
    }

    /// How the task is acknowledged, once the handling has ended.
    pub open spec fn ack(self) -> Option<TaskAck> {
        match self.phase {
            PhaseView::Skip { .. } => Some(TaskAck::Success),
            PhaseView::Done => Some(TaskAck::Success),
            PhaseView::Partial => Some(TaskAck::Success),
            PhaseView::Fail(_, ack) => Some(ack),
            _ => None,
        }
    }

    /// Whether this refresh holds the lock of its cluster as far as it
    /// knows: from the moment the lock was acquired until it is released or
    /// the refresh stops.
    pub open spec fn in_refresh(self) -> bool {
        match self.phase {
            PhaseView::Fetching(_) => true,
            PhaseView::Aggregating(_) => true,
            PhaseView::Snapshotting(_) => true,
            PhaseView::Release(_) => true,
            _ => false,
        }
    }

    /// What the handler asks for next; nothing once the handling has ended.
    pub open spec fn request(self) -> Option<RequestView> {
        match self.phase {
            PhaseView::Pending => Some(RequestView::Deserialize),
            PhaseView::LockRequest(payload) => Some(
                RequestView::Acquire { lock: lock_name(payload.cluster.cluster_id) },
            ),
            PhaseView::Fetching(payload) => Some(
                RequestView::Fetch { cluster: payload.cluster, refresh_id: self.refresh_id },
            ),
            PhaseView::Aggregating(payload) => Some(
                RequestView::Aggregate { cluster: payload.cluster },
            ),
            PhaseView::Snapshotting(payload) => Some(
                RequestView::Snapshot { cluster: payload.cluster },
            ),
            PhaseView::Release(payload) => Some(
                RequestView::Release { lock: lock_name(payload.cluster.cluster_id) },
            ),
            _ => None,
        }
    }

    /// The handling after the answer `event` arrived at the instant `now`.
    /// An answer of another kind than the handler waits for is ignored.
    pub open spec fn advance(self, event: EventView, now: Timestamp) -> HandlerView {
        match (self.phase, event) {
            (PhaseView::Pending, EventView::Deserialized(Ok(payload))) => self.at(
                PhaseView::LockRequest(payload),
            ),
            (PhaseView::Pending, EventView::Deserialized(Err(cause))) => self.at(
                PhaseView::Fail(
                    ErrorView {
                        kind: ErrorKindView::Deserialize(
                            "task payload"@,
                            "ClusterRefreshPayload"@,
                        ),
                        cause: Some(cause),
                    },
                    TaskAck::Drop,
                ),
            ),
            (PhaseView::LockRequest(payload), EventView::Acquired(Ok(_))) => HandlerView {
                phase: PhaseView::Fetching(payload),
                refresh_id: now.secs,
            },
            (PhaseView::LockRequest(_), EventView::Acquired(Err(error))) => match error.kind {
                CoordinatorErrorKindView::LockHeld(_, owner) => self.at(PhaseView::Skip { owner }),
                kind => self.failed(ErrorKindView::Coordination, kind.name()),
            },
            (PhaseView::Fetching(payload), EventView::Fetched(outcome)) => match outcome {
                OutcomeView::Completed => self.at(PhaseView::Aggregating(payload)),
                OutcomeView::LockLost => self.at(PhaseView::Partial),
                OutcomeView::Failed(error) => self.failed(
                    ErrorKindView::ClusterRefresh,
                    error.display(),
                ),
            },
            (PhaseView::Aggregating(payload), EventView::Aggregated(outcome)) => match outcome {
                OutcomeView::Completed => if payload.snapshot {
                    self.at(PhaseView::Snapshotting(payload))
                } else {
                    self.at(PhaseView::Release(payload))
                },
                OutcomeView::LockLost => self.at(PhaseView::Partial),
                OutcomeView::Failed(error) => self.failed(
                    ErrorKindView::ClusterAggregation,
                    error.display(),
                ),
            },
            (PhaseView::Snapshotting(payload), EventView::Snapshotted(Ok(_))) => self.at(
                PhaseView::Release(payload),
            ),
            (PhaseView::Snapshotting(_), EventView::Snapshotted(Err(cause))) => self.failed(
                ErrorKindView::ClusterRefresh,
                cause,
            ),
            (PhaseView::Release(_), EventView::Released(Ok(_))) => self.at(PhaseView::Done),
            (PhaseView::Release(_), EventView::Released(Err(error))) => self.failed(
                ErrorKindView::Coordination,
                error.kind.name(),
            ),
            _ => self,
        }
    }
}

impl View for Handler {
    type V = HandlerView;

    closed spec fn view(&self) -> HandlerView {
        HandlerView { phase: self.phase@, refresh_id: self.refresh_id }
    }
}

fn failed(refresh_id: i64, kind: ErrorKind, cause: &str) -> (next: Handler)
    ensures
        next@ == (HandlerView {
            phase: PhaseView::Fail(ErrorView { kind: kind@, cause: Some(cause@) }, TaskAck::Fail),
            refresh_id,
        }),
{
    Handler { phase: Phase::Fail(Error::caused_by(kind, cause), TaskAck::Fail), refresh_id }
}

fn coordination_failed(refresh_id: i64, error: &CoordinatorError) -> (next: Handler)
    ensures
        next@ == (HandlerView {
            phase: PhaseView::Fail(
                ErrorView { kind: ErrorKindView::Coordination, cause: Some(error@.kind.name()) },
                TaskAck::Fail,
            ),
            refresh_id,
        }),
{
    match error.kind().kind_name() {
        Some(name) => failed(refresh_id, ErrorKind::Coordination, name),
        None => failed(refresh_id, ErrorKind::Coordination, ""),
    }
}

impl Handler {
    /// The handling of a task that was just received.
    pub fn new() -> (handler: Handler)
        ensures
            handler@ == (HandlerView { phase: PhaseView::Pending, refresh_id: 0 }),
    {
        Handler { phase: Phase::Pending, refresh_id: 0 }
    }

    /// How the task is acknowledged, once the handling has ended.
    pub fn ack(&self) -> (ack: Option<TaskAck>)
        ensures
            ack == self@.ack(),
            ack is Some == self@.request().is_none(),
    {
        match &self.phase {
            Phase::Skip { .. } => Some(TaskAck::Success),
            Phase::Done => Some(TaskAck::Success),
            Phase::Partial => Some(TaskAck::Success),
            Phase::Fail(_, ack) => Some(*ack),
            _ => None,
        }
    }

    /// Whether the refresh was skipped because another one holds the lock.
    /// Each skipped refresh counts once in the number of refreshes that found
    /// their cluster locked.
    pub fn is_skipped(&self) -> (skipped: bool)
        ensures
            skipped == self@.phase is Skip,
    {
        match &self.phase {
            Phase::Skip { .. } => true,
            _ => false,
        }
    }

    /// The kind of the error that stopped the refresh, if one did.
    pub fn error(&self) -> (error: Option<&Error>)
        ensures
            match error {
                Some(error) => self@.phase matches PhaseView::Fail(shown, _) && shown == error@,
                None => !(self@.phase is Fail),
            },
    {
        match &self.phase {
            Phase::Fail(error, _) => Some(error),
            _ => None,
        }
    }

    /// What the handler asks for next; nothing once the handling has ended.
    pub fn request(&self) -> (request: Option<Request>)
        ensures
            request.deep_view() == self@.request(),
    {
        match &self.phase {
            Phase::Pending => Some(Request::Deserialize),
            Phase::LockRequest(payload) => Some(
                Request::Acquire {
                    lock: concat2("cluster_refresh/", payload.cluster.cluster_id.as_str()),
                },
            ),
            Phase::Fetching(payload) => Some(
                Request::Fetch { cluster: payload.cluster.clone(), refresh_id: self.refresh_id },
            ),
            Phase::Aggregating(payload) => Some(
                Request::Aggregate { cluster: payload.cluster.clone() },
            ),
            Phase::Snapshotting(payload) => Some(
                Request::Snapshot { cluster: payload.cluster.clone() },
            ),
            Phase::Release(payload) => Some(
                Request::Release {
                    lock: concat2("cluster_refresh/", payload.cluster.cluster_id.as_str()),
                },
            ),
            _ => None,
        }
    }

    /// Take the answer `event`, which arrived at the instant `now`, and move
    /// on. An answer of another kind than the handler waits for is ignored.
    pub fn handle(self, event: Event, now: Timestamp) -> (next: Handler)
        ensures
            next@ == self@.advance(event@, now),
    {
        let Handler { phase, refresh_id } = self;
        match (phase, event) {
            (Phase::Pending, Event::Deserialized(Ok(payload))) => Handler {
                phase: Phase::LockRequest(payload),
                refresh_id,
            },
            (Phase::Pending, Event::Deserialized(Err(cause))) => Handler {
                phase: Phase::Fail(
                    Error::caused_by(
                        ErrorKind::Deserialize("task payload", "ClusterRefreshPayload"),
                        cause.as_str(),
                    ),
                    TaskAck::Drop,
                ),
                refresh_id,
            },
            (Phase::LockRequest(payload), Event::Acquired(Ok(_))) => Handler {
                phase: Phase::Fetching(payload),
                refresh_id: now.unix_seconds(),
            },
            (Phase::LockRequest(_), Event::Acquired(Err(error))) => {
                match error.kind() {
                    CoordinatorErrorKind::LockHeld(_, owner) => Handler {
                        phase: Phase::Skip { owner: owner.clone() },
                        refresh_id,
                    },
                    _ => coordination_failed(refresh_id, &error),
                }
            },
            (Phase::Fetching(payload), Event::Fetched(outcome)) => match outcome {
                Outcome::Completed => Handler { phase: Phase::Aggregating(payload), refresh_id },
                Outcome::LockLost => Handler { phase: Phase::Partial, refresh_id },
                Outcome::Failed(error) => failed(
                    refresh_id,
                    ErrorKind::ClusterRefresh,
                    error.display().as_str(),
                ),
            },
            (Phase::Aggregating(payload), Event::Aggregated(outcome)) => match outcome {
                Outcome::Completed => {
                    if payload.snapshot {
                        Handler { phase: Phase::Snapshotting(payload), refresh_id }
                    } else {
                        Handler { phase: Phase::Release(payload), refresh_id }
                    }
                },
                Outcome::LockLost => Handler { phase: Phase::Partial, refresh_id },
                Outcome::Failed(error) => failed(
                    refresh_id,
                    ErrorKind::ClusterAggregation,
                    error.display().as_str(),
                ),
            },
            (Phase::Snapshotting(payload), Event::Snapshotted(Ok(_))) => Handler {
                phase: Phase::Release(payload),
                refresh_id,
            },
            (Phase::Snapshotting(_), Event::Snapshotted(Err(cause))) => failed(
                refresh_id,
                ErrorKind::ClusterRefresh,
                cause.as_str(),
            ),
            (Phase::Release(_), Event::Released(Ok(_))) => Handler {
                phase: Phase::Done,
                refresh_id,
            },
            (Phase::Release(_), Event::Released(Err(error))) => coordination_failed(
                refresh_id,
                &error,
            ),
            (phase, _) => Handler { phase, refresh_id },
        }
    }
}

} // verus!
