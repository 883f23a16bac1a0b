//! At most one refresh of a cluster at a time.
//!
//! Several handlers, on one node of the control plane or on several, may be
//! handed tasks for the same cluster. Each asks the coordinator for the lock
//! of the cluster before it touches anything, and the coordinator gives a
//! lock to one holder only. This module puts handlers and coordinator
//! together and shows that no two handlers are ever inside a refresh of the
//! same cluster, as long as no lock is lost: a handler whose session with
//! the coordinator ends goes on until it next reads its lock watcher, and
//! for that moment another handler can get the lock.
use crate::clock::Timestamp;
use crate::coordinator::error::ErrorKindView as CoordinatorErrorKindView;
use crate::coordinator::error::ErrorView as CoordinatorErrorView;
use crate::coordinator::lock::NBLockInfoView;
use crate::coordinator::mock::holder;
use crate::coordinator::mock::holds;
use crate::coordinator::mock::lemma_released;
use crate::coordinator::mock::lock_index;
use crate::coordinator::mock::released;
use crate::coordinator::mock::single_owner;
use crate::coordinator::node_id::NodeIdView;
use crate::tasks::cluster_refresh::lock_name;
use crate::tasks::cluster_refresh::EventView;
use crate::tasks::cluster_refresh::HandlerView;
use crate::tasks::cluster_refresh::PhaseView;
use crate::tasks::cluster_refresh::RequestView;
use vstd::prelude::*;

verus! {

/// Handlers and the coordinator they share.
pub struct System {
    /// The locks that the coordinator holds.
    pub locks: Seq<NBLockInfoView>,
    /// The handlers.
    pub handlers: Seq<HandlerView>,
    /// For each handler the node of the control plane that it runs on.
    pub nodes: Seq<NodeIdView>,
    /// For each lock that was given out, the handler it was given to last.
    pub given_to: Map<Seq<char>, int>,
}

/// The cluster that a handler is about, once it knows.
pub open spec fn cluster_of(handler: HandlerView) -> Option<Seq<char>> {
    match handler.phase {
        PhaseView::LockRequest(payload) => Some(payload.cluster.cluster_id),
        PhaseView::Fetching(payload) => Some(payload.cluster.cluster_id),
        PhaseView::Aggregating(payload) => Some(payload.cluster.cluster_id),
        PhaseView::Snapshotting(payload) => Some(payload.cluster.cluster_id),
        PhaseView::Release(payload) => Some(payload.cluster.cluster_id),
        _ => None,
    }
}

/// Whether the handler `i` is inside a refresh of the cluster `cluster_id`.
pub open spec fn refreshes(system: System, i: int, cluster_id: Seq<char>) -> bool {
    &&& 0 <= i < system.handlers.len()
    &&& system.handlers[i].in_refresh()
    &&& cluster_of(system.handlers[i]) == Some(cluster_id)
}

/// The system at its start: nothing is locked and every handler has just
/// received its task.
pub open spec fn initial(nodes: Seq<NodeIdView>) -> System {
    System {
        locks: Seq::empty(),
        handlers: Seq::new(nodes.len(), |i: int| HandlerView { phase: PhaseView::Pending, refresh_id: 0 }),
        nodes,
        given_to: Map::empty(),
    }
}

/// The system after the handler `i` took a step at the instant `now`.
///
/// Where the handler asks for its lock, or to release it, the coordinator
/// answers: the lock is given only if nobody holds it, and released only by
/// its holder. Where the handler asks for anything else the answer is
/// `event`, which can be anything but an answer of the coordinator.
pub open spec fn step(system: System, i: int, event: EventView, now: Timestamp) -> System {
    if 0 <= i < system.handlers.len() && i < system.nodes.len() {
        let handler = system.handlers[i];
        match handler.request() {
            Some(RequestView::Acquire { lock }) => if holds(system.locks, lock) {
                System {
                    handlers: system.handlers.update(
                        i,
                        handler.advance(
                            EventView::Acquired(
                                Err(
                                    CoordinatorErrorView {
                                        kind: CoordinatorErrorKindView::LockHeld(
                                            lock,
                                            holder(system.locks, lock),
                                        ),
                                        cause: None,
                                    },
                                ),
                            ),
                            now,
                        ),
                    ),
                    ..system
                }
            } else {
                System {
                    locks: system.locks.push(NBLockInfoView { name: lock, owner: system.nodes[i] }),
                    handlers: system.handlers.update(
                        i,
                        handler.advance(EventView::Acquired(Ok(())), now),
                    ),
                    given_to: system.given_to.insert(lock, i),
                    ..system
                }
            },
            Some(RequestView::Release { lock }) => System {
                locks: released(system.locks, lock, system.nodes[i].uuid),
                handlers: system.handlers.update(
                    i,
                    handler.advance(EventView::Released(Ok(())), now),
                ),
                ..system
            },
            Some(_) => if event is Acquired || event is Released {
                system
            } else {
                System { handlers: system.handlers.update(i, handler.advance(event, now)), ..system }
            },
            None => system,
        }
    } else {
        system
    }
}

/// The system after the steps of `schedule`, each of which names the handler
/// that takes it, the answer it gets where the coordinator is not asked, and
/// the instant.
pub open spec fn after(system: System, schedule: Seq<(int, EventView, Timestamp)>) -> System
    decreases schedule.len(),
{
    if schedule.len() == 0 {
        system
    } else {
        step(
            after(system, schedule.drop_last()),
            schedule.last().0,
            schedule.last().1,
            schedule.last().2,
        )
    }
}

/// What holds of the system at every moment: every lock has one owner, and
/// every handler that is inside a refresh holds the lock of its cluster and
/// is the handler that the lock was given to last.
pub open spec fn consistent(system: System) -> bool {
    &&& system.handlers.len() == system.nodes.len()
    &&& single_owner(system.locks)
    &&& forall|i: int|
        0 <= i < system.handlers.len() && (#[trigger] system.handlers[i]).in_refresh() ==> {
            let lock = lock_name(cluster_of(system.handlers[i])->Some_0);
            &&& cluster_of(system.handlers[i]) is Some
            &&& holds(system.locks, lock)
            &&& system.given_to.contains_key(lock)
            &&& system.given_to[lock] == i
        }
}

/// Every step keeps the system consistent.
pub proof fn lemma_step_consistent(system: System, i: int, event: EventView, now: Timestamp)
    requires
        consistent(system),
    ensures
        consistent(step(system, i, event, now)),
{
    let next = step(system, i, event, now);
    if 0 <= i < system.handlers.len() {
        let handler = system.handlers[i];
        match handler.request() {
            Some(RequestView::Acquire { lock }) => {
                if !holds(system.locks, lock) {
                    let pushed = system.locks.push(
                        NBLockInfoView { name: lock, owner: system.nodes[i] },
                    );
                    assert forall|a: int, b: int| 0 <= a < b < pushed.len() implies (
                    #[trigger] pushed[a]).name != (#[trigger] pushed[b]).name by {
                        if b == system.locks.len() {
                            assert(system.locks[a].name != lock);
                        } else {
                            assert(pushed[a] == system.locks[a]);
                            assert(pushed[b] == system.locks[b]);
                        }
                    }
                    assert(pushed[system.locks.len() as int].name == lock);
                    assert forall|j: int|
                        0 <= j < next.handlers.len() && (
                        #[trigger] next.handlers[j]).in_refresh() implies {
                        let wanted = lock_name(cluster_of(next.handlers[j])->Some_0);
                        &&& cluster_of(next.handlers[j]) is Some
                        &&& holds(next.locks, wanted)
                        &&& next.given_to.contains_key(wanted)
                        &&& next.given_to[wanted] == j
                    } by {
                        if j != i {
                            assert(next.handlers[j] == system.handlers[j]);
                            let wanted = lock_name(cluster_of(system.handlers[j])->Some_0);
                            assert(holds(system.locks, wanted));
                            let at = lock_index(system.locks, wanted);
                            assert(pushed[at] == system.locks[at]);
                            assert(wanted != lock);
                        }
                    }
                } else {
                    assert forall|j: int|
                        0 <= j < next.handlers.len() && (
                        #[trigger] next.handlers[j]).in_refresh() implies {
                        let wanted = lock_name(cluster_of(next.handlers[j])->Some_0);
                        &&& cluster_of(next.handlers[j]) is Some
                        &&& holds(next.locks, wanted)
                        &&& next.given_to.contains_key(wanted)
                        &&& next.given_to[wanted] == j
                    } by {
                        if j != i {
                            assert(next.handlers[j] == system.handlers[j]);
                        }
                    }
                }
            },
            Some(RequestView::Release { lock }) => {
                lemma_released(system.locks, lock, system.nodes[i].uuid);
                assert forall|j: int|
                    0 <= j < next.handlers.len() && (
                    #[trigger] next.handlers[j]).in_refresh() implies {
                    let wanted = lock_name(cluster_of(next.handlers[j])->Some_0);
                    &&& cluster_of(next.handlers[j]) is Some
                    &&& holds(next.locks, wanted)
                    &&& next.given_to.contains_key(wanted)
                    &&& next.given_to[wanted] == j
                } by {
                    if j != i {
                        assert(next.handlers[j] == system.handlers[j]);
                        let wanted = lock_name(cluster_of(system.handlers[j])->Some_0);
                        assert(system.given_to[wanted] == j);
                        assert(system.handlers[i].in_refresh());
                        assert(system.given_to[lock] == i);
                        assert(wanted != lock);
                    }
                }
            },
            Some(_) => {
                if !(event is Acquired || event is Released) {
                    assert forall|j: int|
                        0 <= j < next.handlers.len() && (
                        #[trigger] next.handlers[j]).in_refresh() implies {
                        let wanted = lock_name(cluster_of(next.handlers[j])->Some_0);
                        &&& cluster_of(next.handlers[j]) is Some
                        &&& holds(next.locks, wanted)
                        &&& next.given_to.contains_key(wanted)
                        &&& next.given_to[wanted] == j
                    } by {
                        if j != i {
                            assert(next.handlers[j] == system.handlers[j]);
                        } else {
                            assert(system.handlers[i].in_refresh());
                            assert(cluster_of(next.handlers[i]) == cluster_of(system.handlers[i]));
                        }
                    }
                }
            },
            None => {},
        }
    }
}

/// The system stays consistent however its handlers take their steps.
pub proof fn lemma_always_consistent(
    nodes: Seq<NodeIdView>,
    schedule: Seq<(int, EventView, Timestamp)>,
)
    ensures
        consistent(after(initial(nodes), schedule)),
    decreases schedule.len(),
{
    if schedule.len() > 0 {
        lemma_always_consistent(nodes, schedule.drop_last());
        lemma_step_consistent(
            after(initial(nodes), schedule.drop_last()),
            schedule.last().0,
            schedule.last().1,
            schedule.last().2,
        );
    }
}

/// A handler that finds the lock of its cluster free gets inside the refresh:
/// the first handler to take its steps, on a task that can be decoded, is
/// fetching after it decoded the task and asked for the lock.
pub proof fn lemma_first_handler_refreshes(
    nodes: Seq<NodeIdView>,
    payload: crate::models::tasks::ClusterRefreshPayloadView,
    now: Timestamp,
)
    requires
        nodes.len() > 0,
    ensures
        refreshes(
            after(
                initial(nodes),
                seq![
                    (0int, EventView::Deserialized(Ok(payload)), now),
                    (0int, EventView::Deserialized(Ok(payload)), now),
                ],
            ),
            0,
            payload.cluster.cluster_id,
        ),
{
    let first = (0int, EventView::Deserialized(Ok(payload)), now);
    let schedule = seq![first, first];
    assert(schedule.drop_last() =~= seq![first]);
    assert(seq![first].drop_last() =~= Seq::<(int, EventView, Timestamp)>::empty());
    assert(schedule.last() == first);
    assert(seq![first].last() == first);
    let start = initial(nodes);
    assert(after(start, Seq::<(int, EventView, Timestamp)>::empty()) == start);
    let decoded = after(start, seq![first]);
    assert(decoded == step(start, 0, first.1, now));
    assert(decoded.handlers[0].phase == PhaseView::LockRequest(payload));
    assert(!holds(decoded.locks, lock_name(payload.cluster.cluster_id)));
    assert(after(start, schedule) == step(decoded, 0, first.1, now));
}

/// However many handlers are handed tasks for the same cluster, on whichever
/// nodes and in whatever order they take their steps, at most one of them is
/// inside a refresh of the cluster at any time.
pub proof fn lemma_one_refresh_per_cluster(
    nodes: Seq<NodeIdView>,
    schedule: Seq<(int, EventView, Timestamp)>,
    cluster_id: Seq<char>,
    i: int,
    j: int,
)
    requires
        refreshes(after(initial(nodes), schedule), i, cluster_id),
        refreshes(after(initial(nodes), schedule), j, cluster_id),
    ensures
        i == j,
{
    lemma_always_consistent(nodes, schedule);
    let system = after(initial(nodes), schedule);
    assert(system.given_to[lock_name(cluster_id)] == i);
    assert(system.given_to[lock_name(cluster_id)] == j);
}

} // verus!
