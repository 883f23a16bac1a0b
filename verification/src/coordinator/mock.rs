//! An in-memory coordinator: the locks that are held and the nodes that are
//! registered, with the rules by which locks are acquired and released.
use crate::coordinator::error::Error;
use crate::coordinator::error::ErrorKind;
use crate::coordinator::error::ErrorKindView;
use crate::coordinator::error::ErrorView;
use crate::coordinator::lock::outcome_view;
use crate::coordinator::lock::NBLockInfo;
use crate::coordinator::lock::NBLockInfoView;
use crate::coordinator::node_id::NodeId;
use crate::coordinator::node_id::NodeIdView;
use vstd::prelude::*;

verus! {

/// Whether the lock `name` is held.
pub open spec fn holds(locks: Seq<NBLockInfoView>, name: Seq<char>) -> bool {
    exists|i: int| 0 <= i < locks.len() && (#[trigger] locks[i]).name == name
}

/// The position at which the lock `name` is kept, where it is held.
pub open spec fn lock_index(locks: Seq<NBLockInfoView>, name: Seq<char>) -> int {
    choose|i: int| 0 <= i < locks.len() && (#[trigger] locks[i]).name == name
}

/// The owner of the lock `name`, where it is held.
pub open spec fn holder(locks: Seq<NBLockInfoView>, name: Seq<char>) -> NodeIdView {
    locks[lock_index(locks, name)].owner
}

/// Whether the lock `name` is held by the node `uuid`.
pub open spec fn held_by(locks: Seq<NBLockInfoView>, name: Seq<char>, uuid: Seq<char>) -> bool {
    holds(locks, name) && holder(locks, name).uuid == uuid
}

/// Every lock that is held has exactly one owner: no name is kept twice.
pub open spec fn single_owner(locks: Seq<NBLockInfoView>) -> bool {
    forall|i: int, j: int|
        0 <= i < j < locks.len() ==> (#[trigger] locks[i]).name != (#[trigger] locks[j]).name
}

/// The locks after the node `uuid` released the lock `name`: the lock is gone
/// if that node held it, and nothing changes otherwise.
pub open spec fn released(locks: Seq<NBLockInfoView>, name: Seq<char>, uuid: Seq<char>) -> Seq<
    NBLockInfoView,
> {
    if held_by(locks, name, uuid) {
        locks.remove(lock_index(locks, name))
    } else {
        locks
    }
}

/// The locks that are not owned by the node `uuid`, in the order kept.
pub open spec fn without_owner(locks: Seq<NBLockInfoView>, uuid: Seq<char>) -> Seq<NBLockInfoView>
    decreases locks.len(),
{
    if locks.len() == 0 {
        Seq::empty()
    } else {
        let rest = without_owner(locks.drop_last(), uuid);
        if locks.last().owner.uuid == uuid {
            rest
        } else {
            rest.push(locks.last())
        }
    }
}

/// The nodes other than the node `uuid`, in the order kept.
pub open spec fn without_node(nodes: Seq<NodeIdView>, uuid: Seq<char>) -> Seq<NodeIdView>
    decreases nodes.len(),
{
    if nodes.len() == 0 {
        Seq::empty()
    } else {
        let rest = without_node(nodes.drop_last(), uuid);
        if nodes.last().uuid == uuid {
            rest
        } else {
            rest.push(nodes.last())
        }
    }
}

/// Where no name is kept twice the lock `name` stands at one position only.
pub proof fn lemma_lock_index_unique(locks: Seq<NBLockInfoView>, name: Seq<char>, i: int)
    requires
        single_owner(locks),
        0 <= i < locks.len(),
        locks[i].name == name,
    ensures
        holds(locks, name),
        lock_index(locks, name) == i,
        holder(locks, name) == locks[i].owner,
{
    let j = lock_index(locks, name);
    assert(0 <= j < locks.len() && locks[j].name == name);
    if j < i {
        assert(locks[j].name != locks[i].name);
    }
    if i < j {
        assert(locks[i].name != locks[j].name);
    }
}

/// Every lock left after a release has the owner it had before, and the
/// released lock is no longer held by the node that released it.
pub proof fn lemma_released(locks: Seq<NBLockInfoView>, name: Seq<char>, uuid: Seq<char>)
    requires
        single_owner(locks),
    ensures
        single_owner(released(locks, name, uuid)),
        !held_by(released(locks, name, uuid), name, uuid),
        released(released(locks, name, uuid), name, uuid) == released(locks, name, uuid),
        forall|other: Seq<char>|
            other != name ==> holds(released(locks, name, uuid), other) == holds(locks, other),
{
    let after = released(locks, name, uuid);
    if held_by(locks, name, uuid) {
        let at = lock_index(locks, name);
        assert(0 <= at < locks.len() && locks[at].name == name);
        assert forall|i: int, j: int| 0 <= i < j < after.len() implies (#[trigger] after[i]).name
            != (#[trigger] after[j]).name by {
            let oi = if i < at {
                i
            } else {
                i + 1
            };
            let oj = if j < at {
                j
            } else {
                j + 1
            };
            assert(after[i] == locks[oi]);
            assert(after[j] == locks[oj]);
        }
        if holds(after, name) {
            let k = lock_index(after, name);
            let ok = if k < at {
                k
            } else {
                k + 1
            };
            assert(after[k] == locks[ok]);
            if ok < at {
                assert(locks[ok].name != locks[at].name);
            } else {
                assert(locks[at].name != locks[ok].name);
            }
            assert(false);
        }
        assert forall|other: Seq<char>| other != name implies holds(after, other) == holds(
            locks,
            other,
        ) by {
            if holds(locks, other) {
                let k = lock_index(locks, other);
                assert(k != at);
                let nk = if k < at {
                    k
                } else {
                    k - 1
                };
                assert(after[nk] == locks[k]);
            }
            if holds(after, other) {
                let k = lock_index(after, other);
                let ok = if k < at {
                    k
                } else {
                    k + 1
                };
                assert(after[k] == locks[ok]);
            }
        }
    }
}

/// Releasing a lock twice is the same as releasing it once, for any locks
/// and whoever holds them.
pub proof fn lemma_release_twice(locks: Seq<NBLockInfoView>, name: Seq<char>, uuid: Seq<char>)
    requires
        single_owner(locks),
    ensures
        released(released(locks, name, uuid), name, uuid) == released(locks, name, uuid),
        !held_by(released(locks, name, uuid), name, uuid),
{
    lemma_released(locks, name, uuid);
}

/// An in-memory coordinator.
pub struct MockCoordinator {
    locks: Vec<NBLockInfo>,
    nodes: Vec<NodeId>,
}

/// What a `MockCoordinator` holds: the locks that are held and the nodes that
/// are registered, each in the order in which they came.
pub struct MockCoordinatorView {
    pub locks: Seq<NBLockInfoView>,
    pub nodes: Seq<NodeIdView>,
}

impl View for MockCoordinator {
    type V = MockCoordinatorView;

    closed spec fn view(&self) -> MockCoordinatorView {
        MockCoordinatorView { locks: self.locks.deep_view(), nodes: self.nodes.deep_view() }
    }
}

impl MockCoordinator {
    /// Every lock that is held has exactly one owner.
    pub open spec fn well_formed(&self) -> bool {
        single_owner(self@.locks)
    }

    /// A coordinator with no lock held and no node registered.
    pub fn new() -> (coordinator: MockCoordinator)
        ensures
            coordinator.well_formed(),
            coordinator@ == (MockCoordinatorView { locks: Seq::empty(), nodes: Seq::empty() }),
    {
        let coordinator = MockCoordinator { locks: Vec::new(), nodes: Vec::new() };
        assert(coordinator@.locks =~= Seq::empty());
        assert(coordinator@.nodes =~= Seq::empty());
        coordinator
    }

    fn position(&self, name: &str) -> (at: Option<usize>)
        requires
            self.well_formed(),
        ensures
            at is Some == holds(self@.locks, name@),
            at matches Some(i) ==> i < self.locks.len() && lock_index(self@.locks, name@) == i,
    {
        let mut i: usize = 0;
        while i < self.locks.len()
            invariant
                self.well_formed(),
                i <= self.locks.len(),
                forall|j: int| 0 <= j < i ==> (#[trigger] self@.locks[j]).name != name@,
            decreases self.locks.len() - i,
        {
            if crate::text::str_eq(self.locks[i].name.as_str(), name) {
                proof {
                    assert(self@.locks[i as int].name == name@);
                    lemma_lock_index_unique(self@.locks, name@, i as int);
                }
                return Some(i);
            }
            i += 1;
        }
        None
    }

    /// Register a node of the control plane.
    pub fn register_node(&mut self, node: NodeId)
        requires
            old(self).well_formed(),
        ensures
            final(self).well_formed(),
            final(self)@ == (MockCoordinatorView {
                nodes: old(self)@.nodes.push(node@),
                ..old(self)@
            }),
    {
        let ghost before = self.nodes.deep_view();
        let ghost shown = node@;
        self.nodes.push(node);
        assert(self.nodes.deep_view() =~= before.push(shown));
    }

    /// Try to acquire the lock `name` for `owner`. The lock is acquired if
    /// nobody holds it. If somebody does, `owner` itself included, the
    /// attempt fails at once and names the holder.
    pub fn acquire(&mut self, name: &str, owner: &NodeId) -> (result: core::result::Result<
        (),
        Error,
    >)
        requires
            old(self).well_formed(),
        ensures
            final(self).well_formed(),
            result is Ok == !holds(old(self)@.locks, name@),
            match result {
                Ok(_) => final(self)@ == (MockCoordinatorView {
                    locks: old(self)@.locks.push(NBLockInfoView { name: name@, owner: owner@ }),
                    ..old(self)@
                }),
                Err(error) => final(self)@ == old(self)@ && error@ == (ErrorView {
                    kind: ErrorKindView::LockHeld(name@, holder(old(self)@.locks, name@)),
                    cause: None,
                }),
            },
    {
        match self.position(name) {
            Some(i) => Err(
                Error::new(ErrorKind::LockHeld(name.to_owned(), self.locks[i].owner.clone())),
            ),
            None => {
                let ghost before = self.locks.deep_view();
                self.locks.push(NBLockInfo { name: name.to_owned(), owner: owner.clone() });
                proof {
                    let after = self.locks.deep_view();
                    assert(after =~= before.push(NBLockInfoView { name: name@, owner: owner@ }));
                    assert forall|i: int, j: int| 0 <= i < j < after.len() implies (
                    #[trigger] after[i]).name != (#[trigger] after[j]).name by {
                        if j == before.len() {
                            assert(before[i].name != name@);
                        } else {
                            assert(after[i] == before[i]);
                            assert(after[j] == before[j]);
                        }
                    }
                }
                Ok(())
            },
        }
    }

    /// Release the lock `name` for `owner`. The lock is removed if `owner`
    /// holds it; a lock that is not held, or held by another node, is left
    /// alone. Releasing always succeeds, so releasing twice succeeds twice.
    pub fn release(&mut self, name: &str, owner: &NodeId) -> (result: core::result::Result<
        (),
        Error,
    >)
        requires
            old(self).well_formed(),
        ensures
            final(self).well_formed(),
            result is Ok,
            final(self)@ == (MockCoordinatorView {
                locks: released(old(self)@.locks, name@, owner@.uuid),
                ..old(self)@
            }),
    {
        proof {
            lemma_released(self@.locks, name@, owner@.uuid);
        }
        match self.position(name) {
            Some(i) => {
                if self.locks[i].owner.same_node(owner) {
                    let ghost before = self.locks.deep_view();
                    self.locks.remove(i);
                    assert(self.locks.deep_view() =~= before.remove(i as int));
                }
            },
            None => {},
        }
        Ok(())
    }

    /// Whether `owner` holds the lock `name` right now.
    pub fn inspect(&self, name: &str, owner: &NodeId) -> (held: bool)
        requires
            self.well_formed(),
        ensures
            held == held_by(self@.locks, name@, owner@.uuid),
    {
        match self.position(name) {
            Some(i) => self.locks[i].owner.same_node(owner),
            None => false,
        }
    }

    /// The session of the node `owner` ended: its locks and its registration
    /// are gone.
    pub fn lose_session(&mut self, owner: &NodeId)
        requires
            old(self).well_formed(),
        ensures
            final(self).well_formed(),
            final(self)@ == (MockCoordinatorView {
                locks: without_owner(old(self)@.locks, owner@.uuid),
                nodes: without_node(old(self)@.nodes, owner@.uuid),
            }),
    {
        let ghost locks_before = self.locks.deep_view();
        let ghost nodes_before = self.nodes.deep_view();
        let mut locks: Vec<NBLockInfo> = Vec::new();
        let mut i: usize = 0;
        assert(locks_before.take(0) =~= Seq::<NBLockInfoView>::empty());
        assert(locks.deep_view() =~= Seq::<NBLockInfoView>::empty());
        while i < self.locks.len()
            invariant
                i <= self.locks.len(),
                locks_before == self.locks.deep_view(),
                locks.deep_view() == without_owner(locks_before.take(i as int), owner@.uuid),
            decreases self.locks.len() - i,
        {
            proof {
                assert(locks_before.take(i + 1).drop_last() =~= locks_before.take(i as int));
                assert(locks_before.take(i + 1).last() == self.locks[i as int]@);
            }
            if !self.locks[i].owner.same_node(owner) {
                let ghost kept = locks.deep_view();
                locks.push(self.locks[i].clone());
                assert(locks.deep_view() =~= kept.push(self.locks[i as int]@));
            }
            i += 1;
        }
        assert(locks_before.take(self.locks.len() as int) =~= locks_before);
        let mut nodes: Vec<NodeId> = Vec::new();
        let mut k: usize = 0;
        assert(nodes_before.take(0) =~= Seq::<NodeIdView>::empty());
        assert(nodes.deep_view() =~= Seq::<NodeIdView>::empty());
        while k < self.nodes.len()
            invariant
                k <= self.nodes.len(),
                nodes_before == self.nodes.deep_view(),
                nodes.deep_view() == without_node(nodes_before.take(k as int), owner@.uuid),
            decreases self.nodes.len() - k,
        {
            proof {
                assert(nodes_before.take(k + 1).drop_last() =~= nodes_before.take(k as int));
                assert(nodes_before.take(k + 1).last() == self.nodes[k as int]@);
            }
            if !self.nodes[k].same_node(owner) {
                let ghost kept = nodes.deep_view();
                nodes.push(self.nodes[k].clone());
                assert(nodes.deep_view() =~= kept.push(self.nodes[k as int]@));
            }
            k += 1;
        }
        assert(nodes_before.take(self.nodes.len() as int) =~= nodes_before);
        proof {
            lemma_without_owner_single(locks_before, owner@.uuid);
        }
        self.locks = locks;
        self.nodes = nodes;
    }

    /// The record of the lock `name`, if it is held.
    pub fn non_blocking_lock(&self, name: &str) -> (result: core::result::Result<
        NBLockInfo,
        Error,
    >)
        requires
            self.well_formed(),
        ensures
            match result {
                Ok(info) => holds(self@.locks, name@) && info@ == self@.locks[lock_index(
                    self@.locks,
                    name@,
                )],
                Err(error) => !holds(self@.locks, name@) && error@ == (ErrorView {
                    kind: ErrorKindView::LockNotFound(name@),
                    cause: None,
                }),
            },
    {
        match self.position(name) {
            Some(i) => Ok(self.locks[i].clone()),
            None => Err(Error::new(ErrorKind::LockNotFound(name.to_owned()))),
        }
    }

    /// The locks that are held, in the order in which they were acquired.
    pub fn non_blocking_locks(&self) -> (locks: Vec<NBLockInfo>)
        ensures
            locks.deep_view() == self@.locks,
    {
        let mut locks: Vec<NBLockInfo> = Vec::new();
        let mut i: usize = 0;
        while i < self.locks.len()
            invariant
                i <= self.locks.len(),
                locks.len() == i,
                forall|j: int| 0 <= j < i ==> locks[j]@ == self.locks[j]@,
            decreases self.locks.len() - i,
        {
            locks.push(self.locks[i].clone());
            i += 1;
        }
        assert(locks.deep_view() =~= self.locks.deep_view());
        locks
    }

    /// The nodes that are registered, in the order in which they registered.
    pub fn nodes(&self) -> (nodes: Vec<NodeId>)
        ensures
            nodes.deep_view() == self@.nodes,
    {
        let mut nodes: Vec<NodeId> = Vec::new();
        let mut i: usize = 0;
        while i < self.nodes.len()
            invariant
                i <= self.nodes.len(),
                nodes.len() == i,
                forall|j: int| 0 <= j < i ==> nodes[j]@ == self.nodes[j]@,
            decreases self.nodes.len() - i,
        {
            nodes.push(self.nodes[i].clone());
            i += 1;
        }
        assert(nodes.deep_view() =~= self.nodes.deep_view());
        nodes
    }

    /// Releasing a lock by decision of an administrator is not available: the
    /// operation is refused and nothing changes.
    pub fn force_release(&mut self, name: &str) -> (result: core::result::Result<(), Error>)
        ensures
            final(self)@ == old(self)@,
            outcome_view(result) == Err::<(), ErrorView>(
                ErrorView { kind: ErrorKindView::Unimplemented("force_release"@), cause: None },
            ),
    {
        Err(Error::new(ErrorKind::Unimplemented("force_release")))
    }
}

/// Dropping the locks of one node keeps the names of the others distinct,
/// and every lock that is left was held before.
pub proof fn lemma_without_owner_single(locks: Seq<NBLockInfoView>, uuid: Seq<char>)
    requires
        single_owner(locks),
    ensures
        single_owner(without_owner(locks, uuid)),
        forall|i: int|
            0 <= i < without_owner(locks, uuid).len() ==> locks.contains(
                #[trigger] without_owner(locks, uuid)[i],
            ) && without_owner(locks, uuid)[i].owner.uuid != uuid,
    decreases locks.len(),
{
    if locks.len() > 0 {
        let shorter = locks.drop_last();
        assert forall|i: int, j: int| 0 <= i < j < shorter.len() implies (
        #[trigger] shorter[i]).name != (#[trigger] shorter[j]).name by {
            assert(shorter[i] == locks[i]);
            assert(shorter[j] == locks[j]);
        }
        lemma_without_owner_single(shorter, uuid);
        let rest = without_owner(shorter, uuid);
        let after = without_owner(locks, uuid);
        assert forall|i: int| 0 <= i < after.len() implies locks.contains(#[trigger] after[i])
            && after[i].owner.uuid != uuid by {
            if i < rest.len() {
                assert(after[i] == rest[i]);
                assert(shorter.contains(rest[i]));
                let k = choose|k: int| 0 <= k < shorter.len() && shorter[k] == rest[i];
                assert(locks[k] == rest[i]);
            } else {
                assert(after[i] == locks.last());
                assert(locks[locks.len() - 1] == locks.last());
            }
        }
        assert forall|i: int, j: int| 0 <= i < j < after.len() implies (#[trigger] after[i]).name
            != (#[trigger] after[j]).name by {
            if j < rest.len() {
                assert(after[i] == rest[i]);
                assert(after[j] == rest[j]);
            } else {
                assert(after[j] == locks.last());
                assert(after[i] == rest[i]);
                assert(shorter.contains(rest[i]));
                let k = choose|k: int| 0 <= k < shorter.len() && shorter[k] == rest[i];
                assert(locks[k] == rest[i]);
                assert(locks[k].name != locks[locks.len() - 1].name);
            }
        }
    }
}

} // verus!
