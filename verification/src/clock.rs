//! Instants of time, and the reading of the wall clock.
use vstd::prelude::*;

verus! {

/// An instant with nanosecond resolution: whole seconds since the Unix epoch
/// and the nanoseconds into that second. Instants compare totally, first by
/// seconds and then by nanoseconds.
#[derive(Clone, Copy, Debug, PartialEq, Eq, Structural)]
pub struct Timestamp {
    pub secs: i64,
    pub nanos: u32,
}

impl Timestamp {
    /// Whether `self` is at or before `other`.
    pub open spec fn at_or_before(self, other: Timestamp) -> bool {
        self.secs < other.secs || (self.secs == other.secs && self.nanos <= other.nanos)
    }

    /// The instant `secs` seconds and `nanos` nanoseconds after the epoch.
    pub fn new(secs: i64, nanos: u32) -> (t: Timestamp)
        ensures
            t == (Timestamp { secs, nanos }),
    {
        Timestamp { secs, nanos }
    }

    /// Whole seconds since the Unix epoch.
    pub fn unix_seconds(&self) -> (secs: i64)
        ensures
            secs == self.secs,
    {
        self.secs
    }

    /// Whether `self` is at or before `other`.
    pub fn is_at_or_before(&self, other: &Timestamp) -> (r: bool)
        ensures
            r == self.at_or_before(*other),
    {
        self.secs < other.secs || (self.secs == other.secs && self.nanos <= other.nanos)
    }

    /// Whether `self` lies in the closed interval from `start` to `end`.
    pub fn is_within(&self, start: &Timestamp, end: &Timestamp) -> (r: bool)
        ensures
            r == (start.at_or_before(*self) && self.at_or_before(*end)),
    {
        start.is_at_or_before(self) && self.is_at_or_before(end)
    }
}

/// The order of instants is reflexive, transitive, antisymmetric and total.
pub proof fn lemma_timestamp_total_order(a: Timestamp, b: Timestamp, c: Timestamp)
    ensures
        a.at_or_before(a),
        a.at_or_before(b) || b.at_or_before(a),
        a.at_or_before(b) && b.at_or_before(a) ==> a == b,
        a.at_or_before(b) && b.at_or_before(c) ==> a.at_or_before(c),
{
}

/// Trusted: `chrono::Utc::now`, read through `DateTime::timestamp` and
/// `DateTime::timestamp_subsec_nanos`.
///
/// The reading depends on the machine's clock, so nothing is claimed of it.
/// chrono stops the process if the system clock is set before the Unix epoch.
#[verifier::external_body]
fn utc_now() -> (t: Timestamp) {
    let now = chrono::Utc::now();
    Timestamp { secs: now.timestamp(), nanos: now.timestamp_subsec_nanos() }
}

/// The current instant according to the wall clock.
pub fn now() -> Timestamp {
    utc_now()
}

} // verus!
