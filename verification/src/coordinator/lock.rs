//! Named locks that never block: a lock is acquired at once or the caller is
//! told who holds it. There is no queue of waiters.
use crate::coordinator::error::Error;
use crate::coordinator::error::ErrorKind;
use crate::coordinator::error::ErrorKindView;
use crate::coordinator::error::ErrorView;
use crate::coordinator::node_id::NodeId;
use crate::coordinator::node_id::NodeIdView;
use vstd::prelude::*;

verus! {

/// What the coordinator keeps for a lock that is held: its name and its owner.
#[derive(Debug, PartialEq, Eq)]
pub struct NBLockInfo {
    pub name: String,
    pub owner: NodeId,
}

/// What an `NBLockInfo` holds.
pub struct NBLockInfoView {
    pub name: Seq<char>,
    pub owner: NodeIdView,
}

impl View for NBLockInfo {
    type V = NBLockInfoView;

    open spec fn view(&self) -> NBLockInfoView {
        NBLockInfoView { name: self.name@, owner: self.owner@ }
    }
}

impl DeepView for NBLockInfo {
    type V = NBLockInfoView;

    open spec fn deep_view(&self) -> NBLockInfoView {
        self@
    }
}

impl Clone for NBLockInfo {
    fn clone(&self) -> (out: Self)
        ensures
            out@ == self@,
    {
        NBLockInfo { name: self.name.clone(), owner: self.owner.clone() }
    }
}

/// Tells whether a lock is still held by the owner that acquired it.
///
/// The watcher starts out saying that the lock is held. Once it has seen the
/// lock lost it says so for good: it never goes back to saying that the lock
/// is held.
#[derive(Clone, Copy, Debug, PartialEq, Eq, Structural)]
pub struct NonBlockingLockWatcher {
    pub held: bool,
}

impl NonBlockingLockWatcher {
    /// A watcher of a lock that was just acquired.
    pub fn new() -> (watcher: NonBlockingLockWatcher)
        ensures
            watcher.held,
    {
        NonBlockingLockWatcher { held: true }
    }

    /// Whether the lock is still held. Never blocks.
    pub fn inspect(&self) -> (held: bool)
        ensures
            held == self.held,
    {
        self.held
    }

    /// Take note of what the session says of the lock right now.
    pub fn observe(&mut self, still_held: bool)
        ensures
            final(self).held == (old(self).held && still_held),
    {
        self.held = self.held && still_held;
    }
}

/// What a watcher says after it took note of `readings`, one after the other.
pub open spec fn watched(watcher: NonBlockingLockWatcher, readings: Seq<bool>)
    -> NonBlockingLockWatcher
    decreases readings.len(),
{
    if readings.len() == 0 {
        watcher
    } else {
        let before = watched(watcher, readings.drop_last());
        NonBlockingLockWatcher { held: before.held && readings.last() }
    }
}

/// A watcher goes from `true` to `false` and never back: if it says that the
/// lock is held after some readings, it said so after every shorter run of them.
pub proof fn lemma_watcher_monotonic(
    watcher: NonBlockingLockWatcher,
    readings: Seq<bool>,
    earlier: int,
)
    requires
        0 <= earlier <= readings.len(),
    ensures
        watched(watcher, readings).held ==> watched(watcher, readings.take(earlier)).held,
        !watched(watcher, readings.take(earlier)).held ==> !watched(watcher, readings).held,
    decreases readings.len(),
{
    if earlier == readings.len() {
        assert(readings.take(earlier) =~= readings);
    } else {
        assert(readings.drop_last().take(earlier) =~= readings.take(earlier));
        lemma_watcher_monotonic(watcher, readings.drop_last(), earlier);
    }
}

/// What the consensus store answered when asked to create the node of a lock.
#[derive(Debug, PartialEq, Eq)]
pub enum CreateOutcome {
    /// The node was created: the lock is acquired.
    Created,
    /// The node exists: the lock is held, by the owner that the node names.
    Exists(NBLockInfo),
    /// The operation failed; the text says how.
    Failed(String),
}

/// What the consensus store answered when asked to delete the node of a lock.
#[derive(Debug, PartialEq, Eq)]
pub enum DeleteOutcome {
    /// The node was deleted.
    Deleted,
    /// There was no such node.
    NoNode,
    /// The operation failed; the text says how.
    Failed(String),
}

/// The outcome of an operation as plain values, for contracts.
pub open spec fn outcome_view(outcome: core::result::Result<(), Error>) -> core::result::Result<
    (),
    ErrorView,
> {
    match outcome {
        Ok(_) => Ok(()),
        Err(error) => Err(error@),
    }
}

/// A named lock of one owner.
pub struct NonBlockingLock {
    name: String,
    owner: NodeId,
    acquired: bool,
}

/// What a `NonBlockingLock` holds.
pub struct NonBlockingLockView {
    pub name: Seq<char>,
    pub owner: NodeIdView,
    pub acquired: bool,
}

impl View for NonBlockingLock {
    type V = NonBlockingLockView;

    closed spec fn view(&self) -> NonBlockingLockView {
        NonBlockingLockView { name: self.name@, owner: self.owner@, acquired: self.acquired }
    }
}

impl NonBlockingLock {
    /// The lock `name` for `owner`, not acquired yet.
    pub fn new(name: String, owner: NodeId) -> (lock: NonBlockingLock)
        ensures
            lock@ == (NonBlockingLockView { name: name@, owner: owner@, acquired: false }),
    {
        NonBlockingLock { name, owner, acquired: false }
    }

    /// The name of the lock.
    pub fn name(&self) -> (name: &String)
        ensures
            name@ == self@.name,
    {
        &self.name
    }

    /// What the coordinator is to keep for this lock while it is held.
    pub fn info(&self) -> (info: NBLockInfo)
        ensures
            info@ == (NBLockInfoView { name: self@.name, owner: self@.owner }),
    {
        NBLockInfo { name: self.name.clone(), owner: self.owner.clone() }
    }

    /// Whether the lock was acquired and not released since.
    pub fn is_acquired(&self) -> (acquired: bool)
        ensures
            acquired == self@.acquired,
    {
        self.acquired
    }

    /// Take the answer to the attempt to acquire the lock: acquired, held by
    /// another owner, or failed for now.
    pub fn acquired(&mut self, outcome: CreateOutcome) -> (result: core::result::Result<(), Error>)
        ensures
            final(self)@ == (NonBlockingLockView {
                acquired: old(self)@.acquired || outcome is Created,
                ..old(self)@
            }),
            outcome_view(result) == match outcome {
                CreateOutcome::Created => Ok(()),
                CreateOutcome::Exists(info) => Err(
                    ErrorView {
                        kind: ErrorKindView::LockHeld(old(self)@.name, info@.owner),
                        cause: None,
                    },
                ),
                CreateOutcome::Failed(cause) => Err(
                    ErrorView { kind: ErrorKindView::Backend("lock acquire"@), cause: Some(cause@) },
                ),
            },
    {
        match outcome {
            CreateOutcome::Created => {
                self.acquired = true;
                Ok(())
            },
            CreateOutcome::Exists(info) => Err(
                Error::new(ErrorKind::LockHeld(self.name.clone(), info.owner)),
            ),
            CreateOutcome::Failed(cause) => Err(
                Error::caused_by(ErrorKind::Backend("lock acquire"), cause.as_str()),
            ),
        }
    }

    /// Take the answer to the attempt to release the lock. A lock that was
    /// gone already counts as released, so releasing twice succeeds twice.
    pub fn released(&mut self, outcome: DeleteOutcome) -> (result: core::result::Result<(), Error>)
        ensures
            final(self)@ == (NonBlockingLockView {
                acquired: old(self)@.acquired && outcome is Failed,
                ..old(self)@
            }),
            outcome_view(result) == match outcome {
                DeleteOutcome::Deleted => Ok(()),
                DeleteOutcome::NoNode => Ok(()),
                DeleteOutcome::Failed(cause) => Err(
                    ErrorView { kind: ErrorKindView::Backend("lock release"@), cause: Some(cause@) },
                ),
            },
    {
        match outcome {
            DeleteOutcome::Deleted => {
                self.acquired = false;
                Ok(())
            },
            DeleteOutcome::NoNode => {
                self.acquired = false;
                Ok(())
            },
            DeleteOutcome::Failed(cause) => Err(
                Error::caused_by(ErrorKind::Backend("lock release"), cause.as_str()),
            ),
        }
    }

    /// A watcher of this lock. It says that the lock is held exactly when the
    /// lock is acquired at this moment.
    pub fn watch(&self) -> (watcher: NonBlockingLockWatcher)
        ensures
            watcher.held == self@.acquired,
    {
        NonBlockingLockWatcher { held: self.acquired }
    }
}

} // verus!
