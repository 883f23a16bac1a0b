//! The discovery component: takes the clusters that discovery found, keeps
//! their discovery records up to date, and asks for their refresh.
use crate::clock::Timestamp;
use crate::models::cluster::ClusterDiscovery;
use crate::models::cluster::ClusterDiscoveryView;
use crate::models::events::Event;
use crate::models::events::EventPayloadView;
use crate::models::events::EventView;
use crate::models::tasks::ClusterRefreshPayload;
use crate::models::tasks::ClusterRefreshPayloadView;
use crate::store::table::lookup;
use crate::store::table::name_key;
use crate::store::table::upserted;
use crate::store::table::EntryView;
use crate::store::table::RecordKey;
use crate::store::table::Table;
use crate::tasks::queues::ReplicanteQueues;
use crate::tasks::request::TaskRequest;
use vstd::prelude::*;

verus! {

/// Every kind of error that loading the discovered clusters reports.
#[derive(Debug, PartialEq, Eq)]
pub enum ErrorKind {
    /// A file could not be read: its path.
    Io(String),
    /// A file does not hold what is expected: its path.
    YamlFile(String),
}

impl ErrorKind {
    /// The name of the kind.
    pub open spec fn name(&self) -> Seq<char> {
        match self {
            ErrorKind::Io(_) => "Io"@,
            ErrorKind::YamlFile(_) => "YamlFile"@,
        }
    }

    /// The name of the kind.
    pub fn kind_name(&self) -> (name: Option<&'static str>)
        ensures
            name matches Some(text) && text@ == self.name(),
    {
        let name = match self {
            ErrorKind::Io(_) => "Io",
            ErrorKind::YamlFile(_) => "YamlFile",
        };
        Some(name)
    }
}

/// Agent discovery configuration options.
#[derive(Clone, Copy, Debug, PartialEq, Eq, Structural)]
pub struct Config {
    /// Seconds to wait between discovery runs.
    pub interval: u64,
}

impl Default for Config {
    fn default() -> (config: Config)
        ensures
            config == (Config { interval: 60 }),
    {
        Config { interval: Config::default_interval() }
    }
}

impl Config {
    /// Default value for `interval`.
    pub fn default_interval() -> (interval: u64)
        ensures
            interval == 60,
    {
        60
    }
}

/// How many refreshes of `cluster` were asked for since its last snapshot.
pub open spec fn refreshes_since(counts: Seq<EntryView<u32>>, cluster: Seq<char>) -> u32 {
    match lookup(counts, name_key(cluster)) {
        Some(entry) => entry.value,
        None => 0,
    }
}

/// Whether the next refresh of `cluster` is to emit a snapshot: it is when,
/// counting this one, as many refreshes were asked for since the last
/// snapshot as the frequency says.
pub open spec fn snapshot_due(counts: Seq<EntryView<u32>>, cluster: Seq<char>, frequency: u32)
    -> bool {
    refreshes_since(counts, cluster) + 1 >= frequency
}

/// Decides which refreshes of a cluster emit a snapshot: one in every
/// `frequency` refreshes of each cluster.
pub struct EmissionTracker {
    frequency: u32,
    counts: Table<u32>,
}

impl EmissionTracker {
    /// One in how many refreshes of a cluster emits a snapshot.
    pub closed spec fn frequency(&self) -> u32 {
        self.frequency
    }

    /// For each cluster, how many refreshes were asked for since its last snapshot.
    pub closed spec fn counts(&self) -> Seq<EntryView<u32>> {
        self.counts@
    }

    /// The tracker is in a state that its operations produce.
    pub closed spec fn well_formed(&self) -> bool {
        self.counts.well_formed()
    }

    /// A tracker that has not seen any refresh.
    pub fn new(frequency: u32) -> (tracker: EmissionTracker)
        ensures
            tracker.well_formed(),
            tracker.frequency() == frequency,
            tracker.counts() == Seq::<EntryView<u32>>::empty(),
    {
        EmissionTracker { frequency, counts: Table::new() }
    }

    /// Count a refresh of `cluster` and say whether it is to emit a snapshot.
    /// The count of the cluster starts over after each snapshot.
    pub fn snapshot(&mut self, cluster: &str) -> (due: bool)
        requires
            old(self).well_formed(),
        ensures
            final(self).well_formed(),
            final(self).frequency() == old(self).frequency(),
            due == snapshot_due(old(self).counts(), cluster@, old(self).frequency()),
            final(self).counts() == upserted(
                old(self).counts(),
                name_key(cluster@),
                if due {
                    0u32
                } else {
                    (refreshes_since(old(self).counts(), cluster@) + 1) as u32
                },
            ),
    {
        let key = RecordKey::named(cluster);
        let count: u32 = match self.counts.get(&key) {
            Some(count) => *count,
            None => 0,
        };
        if self.frequency == 0 || count >= self.frequency - 1 {
            self.counts.upsert(key, 0);
            true
        } else {
            self.counts.upsert(key, count + 1);
            false
        }
    }
}

/// What to do with a cluster that discovery found.
pub struct Plan {
    /// The event to emit, if the cluster is new or its record changed.
    pub event: Option<Event>,
    /// The discovery record to persist, if the cluster is new or its record changed.
    pub persist: Option<ClusterDiscovery>,
    /// The payload of the refresh task to ask for.
    pub refresh: ClusterRefreshPayload,
}

/// What a `Plan` holds.
pub struct PlanView {
    pub event: Option<EventView>,
    pub persist: Option<ClusterDiscoveryView>,
    pub refresh: ClusterRefreshPayloadView,
}

impl View for Plan {
    type V = PlanView;

    open spec fn view(&self) -> PlanView {
        PlanView {
            event: self.event.deep_view(),
            persist: self.persist.deep_view(),
            refresh: self.refresh@,
        }
    }
}

/// What to do with the cluster that `discovery` describes, given the record
/// `stored` that the store holds of it, whether its refresh is to emit a
/// snapshot, and the instant `now`.
///
/// A cluster that the store does not know is new; a cluster whose record
/// differs has changed. Either way an event says so and the record is
/// persisted. A refresh of the cluster is asked for in every case.
pub open spec fn planned(
    discovery: ClusterDiscoveryView,
    stored: Option<ClusterDiscoveryView>,
    snapshot: bool,
    now: Timestamp,
) -> PlanView {
    let refresh = ClusterRefreshPayloadView { cluster: discovery, snapshot };
    match stored {
        None => PlanView {
            event: Some(
                EventView { payload: EventPayloadView::ClusterNew(discovery), timestamp: now },
            ),
            persist: Some(discovery),
            refresh,
        },
        Some(old) => if old == discovery {
            PlanView { event: None, persist: None, refresh }
        } else {
            PlanView {
                event: Some(
                    EventView {
                        payload: EventPayloadView::ClusterChanged {
                            before: old,
                            after: discovery,
                        },
                        timestamp: now,
                    },
                ),
                persist: Some(discovery),
                refresh,
            }
        },
    }
}

/// Decide what to do with a cluster that discovery found.
pub fn process(
    discovery: ClusterDiscovery,
    stored: Option<ClusterDiscovery>,
    snapshot: bool,
    now: Timestamp,
) -> (plan: Plan)
    ensures
        plan@ == planned(discovery@, stored.deep_view(), snapshot, now),
{
    match stored {
        None => Plan {
            event: Some(Event::builder().timestamp(now).cluster().new(discovery.clone())),
            persist: Some(discovery.clone()),
            refresh: ClusterRefreshPayload::new(discovery, snapshot),
        },
        Some(old) => {
            if old.same(&discovery) {
                Plan {
                    event: None,
                    persist: None,
                    refresh: ClusterRefreshPayload::new(discovery, snapshot),
                }
            } else {
                Plan {
                    event: Some(
                        Event::builder().timestamp(now).cluster().changed(old, discovery.clone()),
                    ),
                    persist: Some(discovery.clone()),
                    refresh: ClusterRefreshPayload::new(discovery, snapshot),
                }
            }
        },
    }
}

/// The request for the refresh task of a cluster: it goes to the queue of
/// cluster refreshes and carries no header yet.
pub fn refresh_request() -> (request: TaskRequest<ReplicanteQueues>)
    ensures
        request.well_formed(),
        request.spec_queue() == ReplicanteQueues::ClusterRefresh,
        request.spec_headers() == Seq::<EntryView<Seq<char>>>::empty(),
{
    TaskRequest::new(ReplicanteQueues::ClusterRefresh)
}

} // verus!
