//! The background cleanup of the ensemble.
//!
//! The prefix nodes under which the entries fan out are left behind when the
//! last entry below them goes away. Each cycle looks at the children of a
//! path and deletes those that have no children of their own, up to a limit.
use crate::coordinator::error::Error;
use crate::coordinator::error::ErrorKind;
use crate::coordinator::error::ErrorKindView;
use crate::coordinator::error::ErrorView;
use crate::coordinator::zookeeper::paths::child_path;
use crate::coordinator::zookeeper::CleanupConfig;
use crate::coordinator::zookeeper::ZkFailure;
use crate::coordinator::zookeeper::ZkFailureView;
use crate::text::result_view;
use rand::Rng;
use vstd::prelude::*;

verus! {

/// What the ensemble says of a node that exists.
#[derive(Clone, Copy, Debug, PartialEq, Eq, Structural)]
pub struct NodeStat {
    /// How many children the node has.
    pub num_children: i32,
    /// The version of the node.
    pub version: i32,
}

impl View for NodeStat {
    type V = NodeStat;

    open spec fn view(&self) -> NodeStat {
        *self
    }
}

impl DeepView for NodeStat {
    type V = NodeStat;

    open spec fn deep_view(&self) -> NodeStat {
        *self
    }
}

/// What a cleanup asks of the ensemble.
#[derive(Debug, PartialEq, Eq)]
pub enum Request {
    /// List the children of `path`.
    GetChildren { path: String },
    /// Ask whether `path` exists, and for what the ensemble says of it.
    Exists { path: String },
    /// Delete `path` if its version is still `version`.
    Delete { path: String, version: i32 },
}

/// What a `Request` holds.
pub enum RequestView {
    GetChildren { path: Seq<char> },
    Exists { path: Seq<char> },
    Delete { path: Seq<char>, version: i32 },
}

impl View for Request {
    type V = RequestView;

    open spec fn view(&self) -> RequestView {
        match self {
            Request::GetChildren { path } => RequestView::GetChildren { path: path@ },
            Request::Exists { path } => RequestView::Exists { path: path@ },
            Request::Delete { path, version } => RequestView::Delete {
                path: path@,
                version: *version,
            },
        }
    }
}

impl DeepView for Request {
    type V = RequestView;

    open spec fn deep_view(&self) -> RequestView {
        self@
    }
}

/// What the ensemble answered.
#[derive(Debug, PartialEq, Eq)]
pub enum Response {
    /// The children of the path.
    Children(core::result::Result<Vec<String>, ZkFailure>),
    /// What the ensemble says of the node, or nothing if there is no such node.
    Stat(core::result::Result<Option<NodeStat>, ZkFailure>),
    /// The outcome of the deletion.
    Deleted(core::result::Result<(), ZkFailure>),
}

/// What a `Response` holds.
pub enum ResponseView {
    Children(core::result::Result<Seq<Seq<char>>, ZkFailureView>),
    Stat(core::result::Result<Option<NodeStat>, ZkFailureView>),
    Deleted(core::result::Result<(), ZkFailureView>),
}

impl View for Response {
    type V = ResponseView;

    open spec fn view(&self) -> ResponseView {
        match self {
            Response::Children(outcome) => ResponseView::Children(result_view(*outcome)),
            Response::Stat(outcome) => ResponseView::Stat(result_view(*outcome)),
            Response::Deleted(outcome) => ResponseView::Deleted(
                match outcome {
                    Ok(_) => Ok(()),
                    Err(failure) => Err(failure@),
                },
            ),
        }
    }
}

/// Where a cleanup stands: what it waits for.
pub enum Step {
    /// The children of the path.
    List,
    /// What the ensemble says of the current child.
    Probe,
    /// The outcome of deleting the current child, whose version is given.
    Remove(i32),
    /// Nothing, the cleanup has ended: with how many deletions are left of
    /// the limit, or with the error that stopped it.
    Done(core::result::Result<usize, Error>),
}

/// What a `Step` holds.
pub enum StepView {
    List,
    Probe,
    Remove(i32),
    Done(core::result::Result<usize, ErrorView>),
}

impl View for Step {
    type V = StepView;

    open spec fn view(&self) -> StepView {
        match self {
            Step::List => StepView::List,
            Step::Probe => StepView::Probe,
            Step::Remove(version) => StepView::Remove(*version),
            Step::Done(outcome) => StepView::Done(result_view(*outcome)),
        }
    }
}

/// What a cleanup counted: the nodes it deleted or found deleted, the
/// operation that failed if one did, and whether that operation timed out.
#[derive(Clone, Copy, Debug, PartialEq, Eq)]
pub struct Tally {
    pub cleaned: usize,
    pub failed: Option<&'static str>,
    pub timed_out: bool,
}

/// What a `Tally` holds.
pub struct TallyView {
    pub cleaned: int,
    pub failed: Option<Seq<char>>,
    pub timed_out: bool,
}

impl View for Tally {
    type V = TallyView;

    open spec fn view(&self) -> TallyView {
        TallyView {
            cleaned: self.cleaned as int,
            failed: match self.failed {
                Some(operation) => Some(operation@),
                None => None,
            },
            timed_out: self.timed_out,
        }
    }
}

/// One cleanup of the children of a path.
pub struct CleanRun {
    path: String,
    limit: usize,
    children: Vec<String>,
    index: usize,
    tally: Tally,
    step: Step,
}

/// What a `CleanRun` holds: the path, how many deletions are left of the
/// limit, the children of the path and the position of the current one, what
/// was counted so far, and where the cleanup stands.
pub struct CleanRunView {
    pub path: Seq<char>,
    pub limit: int,
    pub children: Seq<Seq<char>>,
    pub index: int,
    pub tally: TallyView,
    pub step: StepView,
}

impl CleanRunView {
    /// The cleanup of the children of `path` with at most `limit` deletions.
    /// With a limit of zero there is nothing to do.
    pub open spec fn start(path: Seq<char>, limit: int) -> CleanRunView {
        CleanRunView {
            path,
            limit,
            children: Seq::empty(),
            index: 0,
            tally: TallyView { cleaned: 0, failed: None, timed_out: false },
            step: if limit == 0 {
                StepView::Done(Ok(0usize))
            } else {
                StepView::List
            },
        }
    }

    /// The state is one that a cleanup can reach.
    pub open spec fn well_formed(self) -> bool {
        &&& 0 <= self.index
        &&& 0 <= self.limit <= usize::MAX
        &&& 0 <= self.tally.cleaned <= self.index
        &&& self.children.len() <= usize::MAX
        &&& match self.step {
            StepView::List => self.limit > 0 && self.index == 0 && self.tally.cleaned == 0
                && self.children.len() == 0,
            StepView::Probe => self.index < self.children.len() && self.limit > 0,
            StepView::Remove(_) => self.index < self.children.len() && self.limit > 0,
            StepView::Done(_) => self.index <= self.children.len(),
        }
    }

    /// The path of the current child.
    pub open spec fn child(self) -> Seq<char> {
        self.path + "/"@ + self.children[self.index]
    }

    /// What the cleanup asks for next; nothing once it has ended.
    pub open spec fn request(self) -> Option<RequestView> {
        match self.step {
            StepView::List => Some(RequestView::GetChildren { path: self.path }),
            StepView::Probe => Some(RequestView::Exists { path: self.child() }),
            StepView::Remove(version) => Some(
                RequestView::Delete { path: self.child(), version },
            ),
            StepView::Done(_) => None,
        }
    }

    /// How the cleanup ended, once it has.
    pub open spec fn outcome(self) -> Option<core::result::Result<usize, ErrorView>> {
        match self.step {
            StepView::Done(outcome) => Some(outcome),
            _ => None,
        }
    }

    /// The cleanup stopped by the failure of `operation`.
    pub open spec fn failed(
        self,
        operation: Seq<char>,
        label: Seq<char>,
        failure: ZkFailureView,
    ) -> CleanRunView {
        CleanRunView {
            tally: TallyView {
                failed: Some(operation),
                timed_out: failure is OperationTimeout,
                ..self.tally
            },
            step: StepView::Done(
                Err(ErrorView { kind: ErrorKindView::Backend(label), cause: Some(failure.text()) }),
            ),
            ..self
        }
    }

    /// The cleanup once the current child is done with and was left alone.
    pub open spec fn skip(self) -> CleanRunView {
        if self.index + 1 < self.children.len() {
            CleanRunView { index: self.index + 1, step: StepView::Probe, ..self }
        } else {
            CleanRunView {
                index: self.index + 1,
                step: StepView::Done(Ok(self.limit as usize)),
                ..self
            }
        }
    }

    /// The cleanup once the current child was deleted, or found deleted: it
    /// counts against the limit, and the cleanup ends when the limit is used up.
    pub open spec fn counted(self) -> CleanRunView {
        let tally = TallyView { cleaned: self.tally.cleaned + 1, ..self.tally };
        if self.limit - 1 == 0 {
            CleanRunView {
                limit: 0,
                index: self.index + 1,
                tally,
                step: StepView::Done(Ok(0usize)),
                ..self
            }
        } else {
            (CleanRunView { limit: self.limit - 1, tally, ..self }).skip()
        }
    }

    /// The cleanup after the answer `response`. An answer of another kind
    /// than the cleanup waits for is ignored.
    pub open spec fn advance(self, response: ResponseView) -> CleanRunView {
        match (self.step, response) {
            (StepView::List, ResponseView::Children(Ok(children))) => {
                if children.len() == 0 {
                    CleanRunView {
                        children,
                        step: StepView::Done(Ok(self.limit as usize)),
                        ..self
                    }
                } else {
                    CleanRunView { children, index: 0, step: StepView::Probe, ..self }
                }
            },
            (StepView::List, ResponseView::Children(Err(failure))) => self.failed(
                "get_children"@,
                "children lookup"@,
                failure,
            ),
            (StepView::Probe, ResponseView::Stat(Ok(None))) => self.skip(),
            (StepView::Probe, ResponseView::Stat(Err(ZkFailureView::NoNode))) => self.skip(),
            (StepView::Probe, ResponseView::Stat(Err(failure))) => self.failed(
                "exists"@,
                "node lookup"@,
                failure,
            ),
            (StepView::Probe, ResponseView::Stat(Ok(Some(stat)))) => {
                if stat.num_children != 0 {
                    self.skip()
                } else {
                    CleanRunView { step: StepView::Remove(stat.version), ..self }
                }
            },
            (StepView::Remove(_), ResponseView::Deleted(Ok(_))) => self.counted(),
            (StepView::Remove(_), ResponseView::Deleted(Err(ZkFailureView::NoNode))) =>
                self.counted(),
            (StepView::Remove(_), ResponseView::Deleted(Err(ZkFailureView::NotEmpty))) =>
                self.counted(),
            (StepView::Remove(_), ResponseView::Deleted(Err(failure))) => self.failed(
                "delete"@,
                "node delete"@,
                failure,
            ),
            _ => self,
        }
    }
}

impl View for CleanRun {
    type V = CleanRunView;

    closed spec fn view(&self) -> CleanRunView {
        CleanRunView {
            path: self.path@,
            limit: self.limit as int,
            children: self.children.deep_view(),
            index: self.index as int,
            tally: self.tally@,
            step: self.step@,
        }
    }
}

impl CleanRun {
    /// See `CleanRunView::well_formed`.
    pub open spec fn well_formed(&self) -> bool {
        self@.well_formed()
    }

    /// Start the cleanup of the children of `path`, with at most `limit`
    /// deletions.
    pub fn start(path: &str, limit: usize) -> (run: CleanRun)
        ensures
            run@ == CleanRunView::start(path@, limit as int),
            run.well_formed(),
    {
        let children: Vec<String> = Vec::new();
        assert(children.deep_view() =~= Seq::<Seq<char>>::empty());
        CleanRun {
            path: path.to_owned(),
            limit,
            children,
            index: 0,
            tally: Tally { cleaned: 0, failed: None, timed_out: false },
            step: if limit == 0 {
                Step::Done(Ok(0))
            } else {
                Step::List
            },
        }
    }

    /// What the cleanup asks for next; nothing once it has ended.
    pub fn request(&self) -> (request: Option<Request>)
        requires
            self.well_formed(),
        ensures
            request.deep_view() == self@.request(),
    {
        match &self.step {
            Step::List => Some(Request::GetChildren { path: self.path.clone() }),
            Step::Probe => Some(
                Request::Exists {
                    path: child_path(self.path.as_str(), self.children[self.index].as_str()),
                },
            ),
            Step::Remove(version) => Some(
                Request::Delete {
                    path: child_path(self.path.as_str(), self.children[self.index].as_str()),
                    version: *version,
                },
            ),
            Step::Done(_) => None,
        }
    }

    /// How many deletions are left of the limit, or the error that stopped
    /// the cleanup; nothing while the cleanup is going on.
    pub fn outcome(&self) -> (outcome: Option<core::result::Result<usize, &Error>>)
        ensures
            match outcome {
                Some(Ok(left)) => self@.outcome() == Some(Ok::<usize, ErrorView>(left)),
                Some(Err(error)) => self@.outcome() == Some(Err::<usize, ErrorView>(error@)),
                None => self@.outcome() is None,
            },
    {
        match &self.step {
            Step::Done(Ok(left)) => Some(Ok(*left)),
            Step::Done(Err(error)) => Some(Err(error)),
            _ => None,
        }
    }

    /// What the cleanup counted so far.
    pub fn tally(&self) -> (tally: Tally)
        ensures
            tally@ == self@.tally,
    {
        self.tally
    }

    fn fail(self, operation: &'static str, label: &'static str, failure: ZkFailure) -> (next:
        CleanRun)
        requires
            self.well_formed(),
        ensures
            next@ == self@.failed(operation@, label@, failure@),
            next.well_formed(),
    {
        let CleanRun { path, limit, children, index, tally, step } = self;
        let tally = Tally {
            cleaned: tally.cleaned,
            failed: Some(operation),
            timed_out: failure.is_timeout(),
        };
        let error = Error::caused_by(ErrorKind::Backend(label), failure.text().as_str());
        CleanRun { path, limit, children, index, tally, step: Step::Done(Err(error)) }
    }

    fn skip(self) -> (next: CleanRun)
        requires
            self.well_formed(),
            self@.index < self@.children.len(),
            self@.limit > 0,
        ensures
            next@ == self@.skip(),
            next.well_formed(),
    {
        let CleanRun { path, limit, children, index, tally, step } = self;
        let count = children.len();
        assert(children.deep_view().len() == count);
        if index + 1 < count {
            CleanRun { path, limit, children, index: index + 1, tally, step: Step::Probe }
        } else {
            CleanRun {
                path,
                limit,
                children,
                index: index + 1,
                tally,
                step: Step::Done(Ok(limit)),
            }
        }
    }

    fn counted(self) -> (next: CleanRun)
        requires
            self.well_formed(),
            self@.index < self@.children.len(),
            self@.limit > 0,
        ensures
            next@ == self@.counted(),
            next.well_formed(),
    {
        let CleanRun { path, limit, children, index, tally, step } = self;
        let count = children.len();
        assert(children.deep_view().len() == count);
        let tally = Tally { cleaned: tally.cleaned + 1, ..tally };
        let limit = limit - 1;
        if limit == 0 {
            CleanRun { path, limit, children, index: index + 1, tally, step: Step::Done(Ok(0)) }
        } else if index + 1 < count {
            CleanRun { path, limit, children, index: index + 1, tally, step: Step::Probe }
        } else {
            CleanRun {
                path,
                limit,
                children,
                index: index + 1,
                tally,
                step: Step::Done(Ok(limit)),
            }
        }
    }

    /// Take the answer `response` and move on. An answer of another kind than
    /// the cleanup waits for is ignored.
    pub fn advance(self, response: Response) -> (next: CleanRun)
        requires
            self.well_formed(),
        ensures
            next@ == self@.advance(response@),
            next.well_formed(),
    {
        match (&self.step, response) {
            (Step::List, Response::Children(Ok(found))) => {
                let CleanRun { path, limit, children, index, tally, step } = self;
                assert(found.deep_view().len() == found.len());
                if found.len() == 0 {
                    CleanRun {
                        path,
                        limit,
                        children: found,
                        index,
                        tally,
                        step: Step::Done(Ok(limit)),
                    }
                } else {
                    CleanRun { path, limit, children: found, index: 0, tally, step: Step::Probe }
                }
            },
            (Step::List, Response::Children(Err(failure))) => self.fail(
                "get_children",
                "children lookup",
                failure,
            ),
            (Step::Probe, Response::Stat(Ok(None))) => self.skip(),
            (Step::Probe, Response::Stat(Err(ZkFailure::NoNode))) => self.skip(),
            (Step::Probe, Response::Stat(Err(failure))) => self.fail(
                "exists",
                "node lookup",
                failure,
            ),
            (Step::Probe, Response::Stat(Ok(Some(stat)))) => {
                if stat.num_children != 0 {
                    self.skip()
                } else {
                    let CleanRun { path, limit, children, index, tally, step } = self;
                    CleanRun {
                        path,
                        limit,
                        children,
                        index,
                        tally,
                        step: Step::Remove(stat.version),
                    }
                }
            },
            (Step::Remove(_), Response::Deleted(Ok(_))) => self.counted(),
            (Step::Remove(_), Response::Deleted(Err(ZkFailure::NoNode))) => self.counted(),
            (Step::Remove(_), Response::Deleted(Err(ZkFailure::NotEmpty))) => self.counted(),
            (Step::Remove(_), Response::Deleted(Err(failure))) => self.fail(
                "delete",
                "node delete",
                failure,
            ),
            _ => self,
        }
    }
}

/// A cleanup never deletes more nodes than its limit allows: what it counted
/// and what is left of the limit add up to the limit it started with, for as
/// long as it goes on and when it ends well.
pub open spec fn within_limit(run: CleanRunView, limit: int) -> bool {
    &&& run.tally.cleaned + run.limit == limit
    &&& run.step matches StepView::Done(Ok(left)) ==> left == run.limit
}

/// Every step of a cleanup keeps it within its limit.
pub proof fn lemma_clean_within_limit(run: CleanRunView, response: ResponseView, limit: int)
    requires
        run.well_formed(),
        within_limit(run, limit),
        response matches ResponseView::Children(Ok(children)) ==> children.len() <= usize::MAX,
    ensures
        within_limit(run.advance(response), limit),
        run.advance(response).well_formed(),
{
}

/// Trusted: `rand::thread_rng` and `rand::Rng::gen_range`.
///
/// rand documents that `gen_range` returns a value in the range from `low`,
/// inclusive, to `high`, exclusive, and panics if `low >= high`. The value
/// depends on chance, so nothing more is claimed of it.
#[verifier::external_body]
fn random_in_range(low: u64, high: u64) -> (value: u64)
    requires
        low < high,
    ensures
        low <= value < high,
{
    rand::thread_rng().gen_range(low, high)
}

/// Decides what the background cleanup does and when.
pub struct Cleaner {
    config: CleanupConfig,
}

impl Cleaner {
    /// How the cleanup is to run.
    pub closed spec fn config(&self) -> CleanupConfig {
        self.config
    }

    /// A cleaner that runs as `config` says.
    pub fn new(config: CleanupConfig) -> (cleaner: Cleaner)
        ensures
            cleaner.config() == config,
    {
        Cleaner { config }
    }

    /// Start a cleanup cycle: the cleanup of the registry of nodes, with the
    /// configured limit.
    pub fn cycle(&self) -> (run: CleanRun)
        ensures
            run@ == CleanRunView::start(
                crate::coordinator::zookeeper::paths::NODES_ROOT@,
                self.config().limit as int,
            ),
            run.well_formed(),
    {
        CleanRun::start(crate::coordinator::zookeeper::paths::NODES_ROOT, self.config.limit)
    }

    /// Whether a cycle that ended with `left` deletions left of its limit
    /// used the limit up.
    pub fn reached_limit(left: usize) -> (reached: bool)
        ensures
            reached == (left == 0),
    {
        left == 0
    }

    /// The seconds to wait before the next cycle, given `sample`, a value
    /// drawn from the configured interval where the interval holds more than
    /// one value.
    pub fn interval_from(&self, sample: Option<u64>) -> (seconds: u64)
        ensures
            seconds == match sample {
                Some(value) if self.config().interval_min < self.config().interval_max => value,
                _ => self.config().interval_min,
            },
    {
        match sample {
            Some(value) => {
                if self.config.interval_min < self.config.interval_max {
                    value
                } else {
                    self.config.interval_min
                }
            },
            None => self.config.interval_min,
        }
    }

    /// Determine how long to wait before a new cleaner cycle should run: a
    /// number of seconds drawn at random from the configured interval, both
    /// ends included. An interval that is empty or holds one value gives its
    /// lower end.
    pub fn interval(&self) -> (seconds: u64)
        ensures
            self.config().interval_min <= self.config().interval_max
                ==> self.config().interval_min <= seconds <= self.config().interval_max,
            self.config().interval_min >= self.config().interval_max ==> seconds
                == self.config().interval_min,
    {
        let low = self.config.interval_min;
        let high = self.config.interval_max;
        if low < high {
            let sample = if high < u64::MAX {
                random_in_range(low, high + 1)
            } else {
                random_in_range(low, high)
            };
            self.interval_from(Some(sample))
        } else {
            self.interval_from(None)
        }
    }
}

/// Whether the cleaner goes on after it waited for the next cycle: it does
/// when the wait timed out, and stops when it was signalled to stop or when
/// the channel that carries the signal was closed.
#[derive(Clone, Copy, Debug, PartialEq, Eq, Structural)]
pub enum Wake {
    /// The wait timed out.
    Timeout,
    /// The signal to stop arrived.
    Signalled,
    /// The channel that carries the signal was closed.
    Disconnected,
}

impl Wake {
    /// Whether the cleaner runs another cycle.
    pub fn goes_on(&self) -> (goes_on: bool)
        ensures
            goes_on == (*self == Wake::Timeout),
    {
        match self {
            Wake::Timeout => true,
            Wake::Signalled => false,
            Wake::Disconnected => false,
        }
    }
}

} // verus!
