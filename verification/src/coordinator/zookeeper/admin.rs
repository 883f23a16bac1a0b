//! Administration of what the coordinator keeps in the ensemble: walking over
//! the locks that are held and over the nodes that are registered.
//!
//! A walk first lists the prefixes below its root and the entries below each
//! prefix, and then reads the entries one by one, in the order in which they
//! were listed. An entry that is gone by the time it is read ended between
//! the listing and the read, and is passed over in silence.
use crate::coordinator::error::Error;
use crate::coordinator::error::ErrorKind;
use crate::coordinator::error::ErrorKindView;
use crate::coordinator::error::ErrorView;
use crate::coordinator::lock::NBLockInfo;
use crate::coordinator::node_id::NodeId;
use crate::coordinator::zookeeper::paths::child_path;
use crate::coordinator::zookeeper::paths::key_path;
use crate::coordinator::zookeeper::paths::path_from_key;
use crate::coordinator::zookeeper::paths::LOCKS_ROOT;
use crate::coordinator::zookeeper::paths::NODES_ROOT;
use crate::coordinator::zookeeper::ZkFailure;
use crate::coordinator::zookeeper::ZkFailureView;
use vstd::prelude::*;

verus! {

/// What a walk asks of the ensemble.
#[derive(Debug, PartialEq, Eq)]
pub enum Request {
    /// List the children of `path`.
    GetChildren { path: String },
    /// Read what is kept at `path`.
    GetData { path: String },
}

/// What a `Request` holds.
pub enum RequestView {
    GetChildren { path: Seq<char> },
    GetData { path: Seq<char> },
}

impl View for Request {
    type V = RequestView;

    open spec fn view(&self) -> RequestView {
        match self {
            Request::GetChildren { path } => RequestView::GetChildren { path: path@ },
            Request::GetData { path } => RequestView::GetData { path: path@ },
        }
    }
}

impl DeepView for Request {
    type V = RequestView;

    open spec fn deep_view(&self) -> RequestView {
        self@
    }
}

/// What came of reading an entry and decoding what it holds.
#[derive(Debug, PartialEq, Eq)]
pub enum ReadOutcome<T> {
    /// The entry was read and decoded.
    Found(T),
    /// The entry was read but cannot be decoded; the text says why.
    Undecodable(String),
    /// The entry could not be read.
    Failed(ZkFailure),
}

/// Where a walk stands.
#[derive(Clone, Copy, Debug, PartialEq, Eq, Structural)]
pub enum Stage {
    /// Nothing is listed yet.
    Idle,
    /// The prefixes are listed and the entries below them are being listed.
    Listing,
    /// Everything is listed and the entries are being read.
    Reading,
}

/// The texts by which a walk names what failed.
#[derive(Clone, Copy, Debug, PartialEq, Eq)]
pub struct Labels {
    pub list: &'static str,
    pub read: &'static str,
    pub decode: &'static str,
}

/// A walk over the entries below a root.
pub struct Scan {
    root: &'static str,
    labels: Labels,
    stage: Stage,
    prefixes: Vec<String>,
    prefix_index: usize,
    paths: Vec<String>,
    path_index: usize,
}

/// What a `Scan` holds: the root, how failures are named, where the walk
/// stands, the prefixes with the position of the one being listed, and the
/// paths of the entries with the position of the one to read next.
pub struct ScanView {
    pub root: Seq<char>,
    pub list_label: Seq<char>,
    pub read_label: Seq<char>,
    pub decode_label: Seq<char>,
    pub stage: Stage,
    pub prefixes: Seq<Seq<char>>,
    pub prefix_index: int,
    pub paths: Seq<Seq<char>>,
    pub path_index: int,
}

/// The paths of the entries called `children` below the prefix at `parent`.
pub open spec fn children_paths(parent: Seq<char>, children: Seq<Seq<char>>) -> Seq<Seq<char>> {
    Seq::new(children.len(), |i: int| parent + "/"@ + children[i])
}

impl ScanView {
    /// The state is one that a walk can reach.
    pub open spec fn well_formed(self) -> bool {
        &&& 0 <= self.prefix_index
        &&& 0 <= self.path_index <= self.paths.len()
        &&& self.stage == Stage::Listing ==> self.prefix_index < self.prefixes.len()
    }

    /// The walk with nothing listed.
    pub open spec fn idle(self) -> ScanView {
        ScanView {
            stage: Stage::Idle,
            prefixes: Seq::empty(),
            prefix_index: 0,
            paths: Seq::empty(),
            path_index: 0,
            ..self
        }
    }

    /// The path of the prefix being listed.
    pub open spec fn prefix_path(self) -> Seq<char> {
        self.root + "/"@ + self.prefixes[self.prefix_index]
    }

    /// What the walk asks for next; nothing once every entry was read.
    pub open spec fn request(self) -> Option<RequestView> {
        match self.stage {
            Stage::Idle => Some(RequestView::GetChildren { path: self.root }),
            Stage::Listing => Some(RequestView::GetChildren { path: self.prefix_path() }),
            Stage::Reading => if self.path_index < self.paths.len() {
                Some(RequestView::GetData { path: self.paths[self.path_index] })
            } else {
                None
            },
        }
    }

    /// The error that stands for the failure of a listing.
    pub open spec fn list_error(self, failure: ZkFailureView) -> ErrorView {
        ErrorView { kind: ErrorKindView::Backend(self.list_label), cause: Some(failure.text()) }
    }

    /// The walk after the answer to a listing. A listing that fails throws
    /// away what was listed so far, so that the walk starts over when it is
    /// asked again. An answer that the walk does not wait for is ignored.
    pub open spec fn listed(self, outcome: core::result::Result<Seq<Seq<char>>, ZkFailureView>)
        -> ScanView {
        match (self.stage, outcome) {
            (Stage::Idle, Ok(prefixes)) => if prefixes.len() == 0 {
                ScanView { stage: Stage::Reading, ..self.idle() }
            } else {
                ScanView { stage: Stage::Listing, prefixes, ..self.idle() }
            },
            (Stage::Listing, Ok(children)) => {
                let paths = self.paths + children_paths(self.prefix_path(), children);
                if self.prefix_index + 1 < self.prefixes.len() {
                    ScanView { paths, prefix_index: self.prefix_index + 1, ..self }
                } else {
                    ScanView {
                        paths,
                        prefix_index: self.prefix_index + 1,
                        stage: Stage::Reading,
                        ..self
                    }
                }
            },
            (Stage::Reading, _) => self,
            (_, Err(_)) => self.idle(),
        }
    }

    /// The error that the answer to a listing gives rise to, if any.
    pub open spec fn listed_error(
        self,
        outcome: core::result::Result<Seq<Seq<char>>, ZkFailureView>,
    ) -> Option<ErrorView> {
        match (self.stage, outcome) {
            (Stage::Reading, _) => None,
            (_, Err(failure)) => Some(self.list_error(failure)),
            _ => None,
        }
    }

    /// Whether the walk waits for the answer to a read.
    pub open spec fn reads(self) -> bool {
        self.stage == Stage::Reading && self.path_index < self.paths.len()
    }

    /// The walk after the answer to a read: on to the next entry.
    pub open spec fn after_read(self) -> ScanView {
        if self.reads() {
            ScanView { path_index: self.path_index + 1, ..self }
        } else {
            self
        }
    }
}

impl View for Scan {
    type V = ScanView;

    closed spec fn view(&self) -> ScanView {
        ScanView {
            root: self.root@,
            list_label: self.labels.list@,
            read_label: self.labels.read@,
            decode_label: self.labels.decode@,
            stage: self.stage,
            prefixes: self.prefixes.deep_view(),
            prefix_index: self.prefix_index as int,
            paths: self.paths.deep_view(),
            path_index: self.path_index as int,
        }
    }
}

/// What holds of the item that a walk yields for the answer `outcome` to a read.
pub open spec fn yielded<T>(
    scan: ScanView,
    outcome: ReadOutcome<T>,
    item: Option<core::result::Result<T, Error>>,
) -> bool {
    if !scan.reads() {
        item is None
    } else {
        match outcome {
            ReadOutcome::Found(value) => item == Some(Ok::<T, Error>(value)),
            ReadOutcome::Failed(ZkFailure::NoNode) => item is None,
            ReadOutcome::Failed(failure) => item matches Some(Err(error)) && error@ == (ErrorView {
                kind: ErrorKindView::Backend(scan.read_label),
                cause: Some(failure@.text()),
            }),
            ReadOutcome::Undecodable(cause) => item matches Some(Err(error)) && error@
                == (ErrorView {
                kind: ErrorKindView::Decode(scan.decode_label),
                cause: Some(cause@),
            }),
        }
    }
}

impl Scan {
    /// See `ScanView::well_formed`.
    pub open spec fn well_formed(&self) -> bool {
        self@.well_formed()
    }

    /// A walk over the entries below `root`, with nothing listed yet.
    pub fn new(root: &'static str, labels: Labels) -> (scan: Scan)
        ensures
            scan.well_formed(),
            scan@ == (ScanView {
                root: root@,
                list_label: labels.list@,
                read_label: labels.read@,
                decode_label: labels.decode@,
                stage: Stage::Idle,
                prefixes: Seq::empty(),
                prefix_index: 0,
                paths: Seq::empty(),
                path_index: 0,
            }),
    {
        let scan = Scan {
            root,
            labels,
            stage: Stage::Idle,
            prefixes: Vec::new(),
            prefix_index: 0,
            paths: Vec::new(),
            path_index: 0,
        };
        assert(scan@.prefixes =~= Seq::empty());
        assert(scan@.paths =~= Seq::empty());
        scan
    }

    /// What the walk asks for next; nothing once every entry was read.
    pub fn request(&self) -> (request: Option<Request>)
        requires
            self.well_formed(),
        ensures
            request.deep_view() == self@.request(),
    {
        match self.stage {
            Stage::Idle => Some(Request::GetChildren { path: self.root.to_owned() }),
            Stage::Listing => Some(
                Request::GetChildren {
                    path: child_path(self.root, self.prefixes[self.prefix_index].as_str()),
                },
            ),
            Stage::Reading => {
                if self.path_index < self.paths.len() {
                    Some(Request::GetData { path: self.paths[self.path_index].clone() })
                } else {
                    None
                }
            },
        }
    }

    fn reset(&mut self)
        ensures
            final(self)@ == old(self)@.idle(),
    {
        self.stage = Stage::Idle;
        self.prefixes = Vec::new();
        self.prefix_index = 0;
        self.paths = Vec::new();
        self.path_index = 0;
        assert(self@.prefixes =~= Seq::empty());
        assert(self@.paths =~= Seq::empty());
    }

    /// Take the answer to a listing. A listing that failed is reported, and
    /// the walk starts over when it is asked again.
    pub fn listed(&mut self, outcome: core::result::Result<Vec<String>, ZkFailure>) -> (error:
        Option<Error>)
        requires
            old(self).well_formed(),
        ensures
            final(self).well_formed(),
            final(self)@ == old(self)@.listed(crate::text::result_view(outcome)),
            error.deep_view() == old(self)@.listed_error(crate::text::result_view(outcome)),
    {
        match self.stage {
            Stage::Reading => None,
            Stage::Idle => match outcome {
                Ok(prefixes) => {
                    let empty = prefixes.len() == 0;
                    assert(prefixes.deep_view().len() == prefixes.len());
                    self.reset();
                    if empty {
                        self.stage = Stage::Reading;
                    } else {
                        self.prefixes = prefixes;
                        self.stage = Stage::Listing;
                    }
                    None
                },
                Err(failure) => {
                    let error = Error::caused_by(
                        ErrorKind::Backend(self.labels.list),
                        failure.text().as_str(),
                    );
                    self.reset();
                    Some(error)
                },
            },
            Stage::Listing => match outcome {
                Ok(children) => {
                    let parent = child_path(self.root, self.prefixes[self.prefix_index].as_str());
                    let ghost before = self.paths.deep_view();
                    let mut i: usize = 0;
                    while i < children.len()
                        invariant
                            i <= children.len(),
                            self@ == (ScanView { paths: self@.paths, ..old(self)@ }),
                            parent@ == old(self)@.prefix_path(),
                            self.paths.deep_view() == before + children_paths(
                                parent@,
                                children.deep_view(),
                            ).take(i as int),
                        decreases children.len() - i,
                    {
                        let ghost shown = self.paths.deep_view();
                        self.paths.push(child_path(parent.as_str(), children[i].as_str()));
                        assert(self.paths.deep_view() =~= shown.push(
                            parent@ + "/"@ + children[i as int]@,
                        ));
                        assert(self.paths.deep_view() =~= before + children_paths(
                            parent@,
                            children.deep_view(),
                        ).take(i + 1));
                        i += 1;
                    }
                    assert(children_paths(parent@, children.deep_view()).take(
                        children.len() as int,
                    ) =~= children_paths(parent@, children.deep_view()));
                    let count = self.prefixes.len();
                    assert(self.prefixes.deep_view().len() == count);
                    if self.prefix_index + 1 >= count {
                        self.stage = Stage::Reading;
                    }
                    self.prefix_index = self.prefix_index + 1;
                    None
                },
                Err(failure) => {
                    let error = Error::caused_by(
                        ErrorKind::Backend(self.labels.list),
                        failure.text().as_str(),
                    );
                    self.reset();
                    Some(error)
                },
            },
        }
    }

    /// Take the answer to a read and give what the walk yields for it: what
    /// the entry holds, or the error that kept it from being read or
    /// decoded, or nothing for an entry that is gone. An answer that the walk
    /// does not wait for is ignored.
    pub fn read<T>(&mut self, outcome: ReadOutcome<T>) -> (item: Option<
        core::result::Result<T, Error>,
    >)
        requires
            old(self).well_formed(),
        ensures
            final(self).well_formed(),
            final(self)@ == old(self)@.after_read(),
            yielded(old(self)@, outcome, item),
    {
        let count = self.paths.len();
        assert(self.paths.deep_view().len() == count);
        let reads = match self.stage {
            Stage::Reading => self.path_index < count,
            _ => false,
        };
        if !reads {
            return None;
        }
        self.path_index = self.path_index + 1;
        match outcome {
            ReadOutcome::Found(value) => Some(Ok(value)),
            ReadOutcome::Failed(ZkFailure::NoNode) => None,
            ReadOutcome::Failed(failure) => Some(
                Err(
                    Error::caused_by(ErrorKind::Backend(self.labels.read), failure.text().as_str()),
                ),
            ),
            ReadOutcome::Undecodable(cause) => Some(
                Err(Error::caused_by(ErrorKind::Decode(self.labels.decode), cause.as_str())),
            ),
        }
    }
}

/// Iterate over registered non-blocking locks.
pub struct ZookeeperNBLocks {
    pub scan: Scan,
}

impl ZookeeperNBLocks {
    /// A walk over the locks, with nothing listed yet.
    pub fn new() -> (locks: ZookeeperNBLocks)
        ensures
            locks.scan.well_formed(),
            locks.scan@.stage == Stage::Idle,
            locks.scan@.root == LOCKS_ROOT@,
            locks.scan@.list_label == "iterating over locks"@,
            locks.scan@.read_label == "iterating over locks"@,
            locks.scan@.decode_label == "node info"@,
    {
        ZookeeperNBLocks {
            scan: Scan::new(
                LOCKS_ROOT,
                Labels {
                    list: "iterating over locks",
                    read: "iterating over locks",
                    decode: "node info",
                },
            ),
        }
    }

    /// Enumerate all locks currently held in the coordinator: take the answer
    /// to a listing.
    pub fn load_locks(&mut self, outcome: core::result::Result<Vec<String>, ZkFailure>) -> (error:
        Option<Error>)
        requires
            old(self).scan.well_formed(),
        ensures
            final(self).scan.well_formed(),
            final(self).scan@ == old(self).scan@.listed(crate::text::result_view(outcome)),
            error.deep_view() == old(self).scan@.listed_error(crate::text::result_view(outcome)),
    {
        self.scan.listed(outcome)
    }

    /// The lock that the walk yields for the answer to a read, if any.
    pub fn next(&mut self, outcome: ReadOutcome<NBLockInfo>) -> (item: Option<
        core::result::Result<NBLockInfo, Error>,
    >)
        requires
            old(self).scan.well_formed(),
        ensures
            final(self).scan.well_formed(),
            final(self).scan@ == old(self).scan@.after_read(),
            yielded(old(self).scan@, outcome, item),
    {
        self.scan.read(outcome)
    }
}

/// Iterate over nodes registered in the coordinator.
///
/// The list of nodes is fully loaded at the first iteration but the details
/// of each node are loaded one by one.
pub struct ZookeeperNodes {
    pub scan: Scan,
}

impl ZookeeperNodes {
    /// A walk over the nodes, with nothing listed yet.
    pub fn new() -> (nodes: ZookeeperNodes)
        ensures
            nodes.scan.well_formed(),
            nodes.scan@.stage == Stage::Idle,
            nodes.scan@.root == NODES_ROOT@,
            nodes.scan@.list_label == "nodes lookup"@,
            nodes.scan@.read_label == "node read"@,
            nodes.scan@.decode_label == "node info"@,
    {
        ZookeeperNodes {
            scan: Scan::new(
                NODES_ROOT,
                Labels { list: "nodes lookup", read: "node read", decode: "node info" },
            ),
        }
    }

    /// Load all known nodes in the cache: take the answer to a listing.
    pub fn fill_cache(&mut self, outcome: core::result::Result<Vec<String>, ZkFailure>) -> (error:
        Option<Error>)
        requires
            old(self).scan.well_formed(),
        ensures
            final(self).scan.well_formed(),
            final(self).scan@ == old(self).scan@.listed(crate::text::result_view(outcome)),
            error.deep_view() == old(self).scan@.listed_error(crate::text::result_view(outcome)),
    {
        self.scan.listed(outcome)
    }

    /// The node that the walk yields for the answer to a read, if any.
    pub fn next(&mut self, outcome: ReadOutcome<NodeId>) -> (item: Option<
        core::result::Result<NodeId, Error>,
    >)
        requires
            old(self).scan.well_formed(),
        ensures
            final(self).scan.well_formed(),
            final(self).scan@ == old(self).scan@.after_read(),
            yielded(old(self).scan@, outcome, item),
    {
        self.scan.read(outcome)
    }
}

/// Admin backend for distributed coordination on top of a ZooKeeper ensemble.
pub struct ZookeeperAdmin {}

impl ZookeeperAdmin {
    /// The admin backend.
    pub fn new() -> ZookeeperAdmin {
        ZookeeperAdmin {  }
    }

    /// A walk over the nodes that are registered.
    pub fn nodes(&self) -> (nodes: ZookeeperNodes)
        ensures
            nodes.scan.well_formed(),
            nodes.scan@.stage == Stage::Idle,
            nodes.scan@.root == NODES_ROOT@,
    {
        ZookeeperNodes::new()
    }

    /// A walk over the locks that are held.
    pub fn non_blocking_locks(&self) -> (locks: ZookeeperNBLocks)
        ensures
            locks.scan.well_formed(),
            locks.scan@.stage == Stage::Idle,
            locks.scan@.root == LOCKS_ROOT@,
    {
        ZookeeperNBLocks::new()
    }

    /// Where the lock `lock` is kept.
    pub fn non_blocking_lock_path(&self, lock: &str) -> (path: String)
        ensures
            path@ == key_path(LOCKS_ROOT@, lock@),
    {
        path_from_key(LOCKS_ROOT, lock)
    }

    /// The lock `lock`, given what came of reading the entry at its path: a
    /// lock whose entry does not exist is not held.
    pub fn non_blocking_lock(&self, lock: &str, outcome: ReadOutcome<NBLockInfo>) -> (result:
        core::result::Result<NBLockInfo, Error>)
        ensures
            match outcome {
                ReadOutcome::Found(info) => result == Ok::<NBLockInfo, Error>(info),
                ReadOutcome::Failed(ZkFailure::NoNode) => result matches Err(error) && error@
                    == (ErrorView { kind: ErrorKindView::LockNotFound(lock@), cause: None }),
                ReadOutcome::Failed(failure) => result matches Err(error) && error@
                    == (ErrorView {
                    kind: ErrorKindView::Backend("non-blocking lock lookup"@),
                    cause: Some(failure@.text()),
                }),
                ReadOutcome::Undecodable(cause) => result matches Err(error) && error@
                    == (ErrorView {
                    kind: ErrorKindView::Decode("lock info"@),
                    cause: Some(cause@),
                }),
            },
    {
        match outcome {
            ReadOutcome::Found(info) => Ok(info),
            ReadOutcome::Failed(ZkFailure::NoNode) => Err(
                Error::new(ErrorKind::LockNotFound(lock.to_owned())),
            ),
            ReadOutcome::Failed(failure) => Err(
                Error::caused_by(
                    ErrorKind::Backend("non-blocking lock lookup"),
                    failure.text().as_str(),
                ),
            ),
            ReadOutcome::Undecodable(cause) => Err(
                Error::caused_by(ErrorKind::Decode("lock info"), cause.as_str()),
            ),
        }
    }

    /// Releasing a lock by decision of an administrator is not available:
    /// the operation is refused.
    pub fn force_release(&self, lock: &str) -> (result: core::result::Result<(), Error>)
        ensures
            result matches Err(error) && error@ == (ErrorView {
                kind: ErrorKindView::Unimplemented("force_release"@),
                cause: None,
            }),
    {
        Err(Error::new(ErrorKind::Unimplemented("force_release")))
    }
}

} // verus!
