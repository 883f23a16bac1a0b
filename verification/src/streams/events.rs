//! The events stream: an append-only log of events.
use crate::clock::Timestamp;
use crate::models::events::Event;
use crate::models::events::EventView;
use crate::text::str_starts_with;
use vstd::prelude::*;

verus! {

/// Every kind of error the events stream reports.
#[derive(Debug, PartialEq, Eq)]
pub enum ErrorKind {
    /// An event could not be emitted: the kind of event.
    EventEmit(&'static str),
    /// The stream could not be scanned.
    Scan,
}

/// Which events a scan yields.
#[derive(Debug, PartialEq, Eq)]
pub struct ScanFilters {
    /// Only events whose kind starts with this text.
    pub kind_prefix: Option<String>,
    /// Only events at or after this instant.
    pub from: Option<Timestamp>,
    /// Only events at or before this instant.
    pub until: Option<Timestamp>,
}

/// What a `ScanFilters` holds.
pub struct ScanFiltersView {
    pub kind_prefix: Option<Seq<char>>,
    pub from: Option<Timestamp>,
    pub until: Option<Timestamp>,
}

impl ScanFiltersView {
    /// Whether the filters let `event` through.
    pub open spec fn accepts(self, event: EventView) -> bool {
        &&& self.kind_prefix matches Some(prefix) ==> prefix.is_prefix_of(event.payload.code())
        &&& self.from matches Some(from) ==> from.at_or_before(event.timestamp)
        &&& self.until matches Some(until) ==> event.timestamp.at_or_before(until)
    }
}

impl View for ScanFilters {
    type V = ScanFiltersView;

    open spec fn view(&self) -> ScanFiltersView {
        ScanFiltersView {
            kind_prefix: self.kind_prefix.deep_view(),
            from: self.from,
            until: self.until,
        }
    }
}

impl ScanFilters {
    /// Filters that let every event through.
    pub fn all() -> (filters: ScanFilters)
        ensures
            filters@ == (ScanFiltersView { kind_prefix: None, from: None, until: None }),
    {
        ScanFilters { kind_prefix: None, from: None, until: None }
    }

    /// Whether the filters let `event` through.
    pub fn accepts(&self, event: &Event) -> (accepted: bool)
        ensures
            accepted == self@.accepts(event@),
    {
        let kind = match &self.kind_prefix {
            Some(prefix) => str_starts_with(event.payload.code(), prefix.as_str()),
            None => true,
        };
        let from = match &self.from {
            Some(from) => from.is_at_or_before(&event.timestamp),
            None => true,
        };
        let until = match &self.until {
            Some(until) => event.timestamp.is_at_or_before(until),
            None => true,
        };
        kind && from && until
    }
}

/// How a scan yields its events.
#[derive(Clone, Copy, Debug, PartialEq, Eq, Structural)]
pub struct ScanOptions {
    /// The most events to yield.
    pub limit: Option<usize>,
    /// Yield the newest events first.
    pub reverse: bool,
}

impl Default for ScanOptions {
    fn default() -> (options: Self)
        ensures
            options == (ScanOptions { limit: None, reverse: false }),
    {
        ScanOptions { limit: None, reverse: false }
    }
}

/// The events of `events` that `filters` lets through, in order.
pub open spec fn filtered(events: Seq<EventView>, filters: ScanFiltersView) -> Seq<EventView>
    decreases events.len(),
{
    if events.len() == 0 {
        Seq::empty()
    } else {
        let rest = filtered(events.drop_last(), filters);
        if filters.accepts(events.last()) {
            rest.push(events.last())
        } else {
            rest
        }
    }
}

/// What a scan of `events` yields: the events that the filters let through,
/// oldest first or newest first, and no more of them than the limit allows.
pub open spec fn scanned(events: Seq<EventView>, filters: ScanFiltersView, options: ScanOptions)
    -> Seq<EventView> {
    let matching = filtered(events, filters);
    let ordered = if options.reverse {
        matching.reverse()
    } else {
        matching
    };
    match options.limit {
        Some(limit) if limit < ordered.len() => ordered.take(limit as int),
        _ => ordered,
    }
}

/// An in-memory events stream.
pub struct MockEvents {
    pub events: Vec<Event>,
}

impl MockEvents {
    /// A stream without events.
    pub fn new() -> (mock: MockEvents)
        ensures
            mock.events.deep_view() == Seq::<EventView>::empty(),
    {
        let events: Vec<Event> = Vec::new();
        assert(events.deep_view() =~= Seq::<EventView>::empty());
        MockEvents { events }
    }

    /// The stream that keeps its events in `mock`.
    pub fn mock(mock: MockEvents) -> (stream: EventsStream)
        ensures
            stream@ == mock.events.deep_view(),
    {
        EventsStream { backend: mock }
    }
}

/// The events stream.
pub struct EventsStream {
    backend: MockEvents,
}

impl View for EventsStream {
    type V = Seq<EventView>;

    closed spec fn view(&self) -> Seq<EventView> {
        self.backend.events.deep_view()
    }
}

impl EventsStream {
    /// Emit an event: it is kept behind the events emitted before. Events
    /// are never changed or removed.
    pub fn emit(&mut self, event: Event) -> (result: core::result::Result<(), ErrorKind>)
        ensures
            result is Ok,
            final(self)@ == old(self)@.push(event@),
    {
        let ghost before = self.backend.events.deep_view();
        let ghost shown = event@;
        self.backend.events.push(event);
        assert(self.backend.events.deep_view() =~= before.push(shown));
        Ok(())
    }

    /// The number of events in the stream.
    pub fn len(&self) -> (len: usize)
        ensures
            len == self@.len(),
    {
        self.backend.events.len()
    }

    /// Scan the stream: the events that `filters` lets through, oldest first
    /// or, in reverse, newest first, and no more of them than the limit allows.
    pub fn scan(&self, filters: &ScanFilters, options: ScanOptions) -> (found: Vec<Event>)
        ensures
            found.deep_view() == scanned(self@, filters@, options),
    {
        let ghost all = self@;
        let mut matching: Vec<Event> = Vec::new();
        let mut i: usize = 0;
        assert(all.take(0) =~= Seq::<EventView>::empty());
        assert(matching.deep_view() =~= Seq::<EventView>::empty());
        while i < self.backend.events.len()
            invariant
                i <= self.backend.events.len(),
                all == self.backend.events.deep_view(),
                matching.deep_view() == filtered(all.take(i as int), filters@),
            decreases self.backend.events.len() - i,
        {
            proof {
                assert(all.take(i + 1).drop_last() =~= all.take(i as int));
                assert(all.take(i + 1).last() == self.backend.events[i as int]@);
            }
            if filters.accepts(&self.backend.events[i]) {
                let ghost before = matching.deep_view();
                matching.push(self.backend.events[i].clone());
                assert(matching.deep_view() =~= before.push(self.backend.events[i as int]@));
            }
            i += 1;
        }
        assert(all.take(self.backend.events.len() as int) =~= all);
        let ghost selected = matching.deep_view();
        let wanted = match options.limit {
            Some(limit) => if limit < matching.len() {
                limit
            } else {
                matching.len()
            },
            None => matching.len(),
        };
        let mut found: Vec<Event> = Vec::new();
        let mut k: usize = 0;
        while k < wanted
            invariant
                k <= wanted <= matching.len(),
                selected == matching.deep_view(),
                found.len() == k,
                forall|j: int|
                    0 <= j < k ==> (#[trigger] found[j])@ == if options.reverse {
                        selected[selected.len() - 1 - j]
                    } else {
                        selected[j]
                    },
            decreases wanted - k,
        {
            let at = if options.reverse {
                matching.len() - 1 - k
            } else {
                k
            };
            assert(selected[at as int] == matching[at as int]@);
            found.push(matching[at].clone());
            k += 1;
        }
        proof {
            let ordered = if options.reverse {
                selected.reverse()
            } else {
                selected
            };
            assert forall|j: int| 0 <= j < wanted implies found.deep_view()[j] == ordered[j] by {
                assert(found.deep_view()[j] == found[j]@);
            }
            assert(found.deep_view() =~= ordered.take(wanted as int));
            assert(ordered.take(ordered.len() as int) =~= ordered);
        }
        found
    }
}

/// A scan only ever yields events of the stream that its filters let
/// through, and never more of them than its limit.
pub proof fn lemma_scan_within(events: Seq<EventView>, filters: ScanFiltersView, options: ScanOptions)
    ensures
        options.limit matches Some(limit) ==> scanned(events, filters, options).len() <= limit,
        forall|i: int|
            0 <= i < scanned(events, filters, options).len() ==> filters.accepts(
                #[trigger] scanned(events, filters, options)[i],
            ) && events.contains(scanned(events, filters, options)[i]),
{
    lemma_filtered_within(events, filters);
    let matching = filtered(events, filters);
    let found = scanned(events, filters, options);
    assert forall|i: int| 0 <= i < found.len() implies filters.accepts(#[trigger] found[i])
        && events.contains(found[i]) by {
        if options.reverse {
            assert(found[i] == matching[matching.len() - 1 - i]);
        } else {
            assert(found[i] == matching[i]);
        }
    }
}

/// Every event that is left by the filters was let through by them and
/// stands in the stream.
pub proof fn lemma_filtered_within(events: Seq<EventView>, filters: ScanFiltersView)
    ensures
        forall|i: int|
            0 <= i < filtered(events, filters).len() ==> filters.accepts(
                #[trigger] filtered(events, filters)[i],
            ) && events.contains(filtered(events, filters)[i]),
    decreases events.len(),
{
    if events.len() > 0 {
        let shorter = events.drop_last();
        lemma_filtered_within(shorter, filters);
        let rest = filtered(shorter, filters);
        let all = filtered(events, filters);
        assert forall|i: int| 0 <= i < all.len() implies filters.accepts(#[trigger] all[i])
            && events.contains(all[i]) by {
            if i < rest.len() {
                assert(all[i] == rest[i]);
                assert(shorter.contains(rest[i]));
                let k = choose|k: int| 0 <= k < shorter.len() && shorter[k] == rest[i];
                assert(events[k] == rest[i]);
            } else {
                assert(all[i] == events.last());
                assert(events[events.len() - 1] == events.last());
            }
        }
    }
}

} // verus!
