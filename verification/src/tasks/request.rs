//! Requests for tasks to be queued, and the records that the queues carry.
use crate::store::table::lookup;
use crate::store::table::name_key;
use crate::store::table::upserted;
use crate::store::table::EntryView;
use crate::store::table::RecordKey;
use crate::store::table::Table;
use crate::tasks::queues::TaskQueue;
use vstd::prelude::*;

verus! {

/// The headers after each of `added` was attached in turn: a header that is
/// attached again takes the new value.
pub open spec fn with_headers(
    headers: Seq<EntryView<Seq<char>>>,
    added: Seq<(Seq<char>, Seq<char>)>,
) -> Seq<EntryView<Seq<char>>>
    decreases added.len(),
{
    if added.len() == 0 {
        headers
    } else {
        upserted(
            with_headers(headers, added.drop_last()),
            name_key(added.last().0),
            added.last().1,
        )
    }
}

/// The name and the value of each header, in order.
pub open spec fn header_pairs(headers: Seq<EntryView<Seq<char>>>) -> Seq<(Seq<char>, Seq<char>)> {
    Seq::new(headers.len(), |i: int| (headers[i].key.cluster_id, headers[i].value))
}

/// Request a task to be queued for processing.
pub struct TaskRequest<Q: TaskQueue> {
    headers: Table<String>,
    queue: Q,
}

impl<Q: TaskQueue> TaskRequest<Q> {
    /// The headers attached to the task, in the order in which their names
    /// were first attached.
    pub closed spec fn spec_headers(&self) -> Seq<EntryView<Seq<char>>> {
        self.headers@
    }

    /// The queue of the task.
    pub closed spec fn spec_queue(&self) -> Q {
        self.queue
    }

    /// The request is in a state that its operations produce: no header is
    /// attached twice.
    pub closed spec fn well_formed(&self) -> bool {
        self.headers.well_formed()
    }

    /// Attach or update an header to the task.
    pub fn header(&mut self, header: &str, value: &str)
        requires
            old(self).well_formed(),
        ensures
            final(self).well_formed(),
            final(self).spec_queue() == old(self).spec_queue(),
            final(self).spec_headers() == upserted(
                old(self).spec_headers(),
                name_key(header@),
                value@,
            ),
    {
        self.headers.upsert(RecordKey::named(header), value.to_owned());
    }

    /// Attach or update a set of headers to the task.
    pub fn headers(&mut self, headers: Vec<(String, String)>)
        requires
            old(self).well_formed(),
        ensures
            final(self).well_formed(),
            final(self).spec_queue() == old(self).spec_queue(),
            final(self).spec_headers() == with_headers(
                old(self).spec_headers(),
                headers.deep_view(),
            ),
    {
        let ghost all = headers.deep_view();
        let ghost before = self.headers@;
        let mut i: usize = 0;
        assert(all.take(0) =~= Seq::<(Seq<char>, Seq<char>)>::empty());
        while i < headers.len()
            invariant
                i <= headers.len(),
                all == headers.deep_view(),
                self.well_formed(),
                self.queue == old(self).queue,
                self.headers@ == with_headers(before, all.take(i as int)),
            decreases headers.len() - i,
        {
            proof {
                assert(all.take(i + 1).drop_last() =~= all.take(i as int));
                assert(all.take(i + 1).last() == all[i as int]);
            }
            self.headers.upsert(
                RecordKey::named(headers[i].0.as_str()),
                headers[i].1.clone(),
            );
            i += 1;
        }
        assert(all.take(headers.len() as int) =~= all);
    }

    /// Create a new task for the given queue, with no headers.
    pub fn new(queue: Q) -> (request: TaskRequest<Q>)
        ensures
            request.well_formed(),
            request.spec_queue() == queue,
            request.spec_headers() == Seq::<EntryView<Seq<char>>>::empty(),
    {
        TaskRequest { headers: Table::new(), queue }
    }

    /// Access information about the task's queue.
    pub fn queue(&self) -> (queue: &Q)
        ensures
            *queue == self.spec_queue(),
    {
        &self.queue
    }

    /// The value of the header `header`, if it is attached.
    pub fn get_header(&self, header: &str) -> (value: Option<String>)
        requires
            self.well_formed(),
        ensures
            value.deep_view() == match lookup(self.spec_headers(), name_key(header@)) {
                Some(entry) => Some(entry.value),
                None => None,
            },
    {
        match self.headers.get(&RecordKey::named(header)) {
            Some(value) => Some(value.clone()),
            None => None,
        }
    }

    /// The name and the value of every header, in the order in which the
    /// names were first attached.
    pub fn header_list(&self) -> (list: Vec<(String, String)>)
        requires
            self.well_formed(),
        ensures
            list.deep_view() == header_pairs(self.spec_headers()),
    {
        let mut list: Vec<(String, String)> = Vec::new();
        let mut i: usize = 0;
        while i < self.headers.len()
            invariant
                self.well_formed(),
                i <= self.headers@.len(),
                list.len() == i,
                forall|j: int|
                    0 <= j < i ==> (#[trigger] list[j]).deep_view() == (
                        self.headers@[j].key.cluster_id,
                        self.headers@[j].value,
                    ),
            decreases self.headers@.len() - i,
        {
            list.push((self.headers.key_at(i).cluster_id.clone(), self.headers.value_at(i).clone()));
            i += 1;
        }
        assert(list.deep_view() =~= header_pairs(self.spec_headers()));
        list
    }
}

/// What a queue carries for one task: the queue, the headers, which carry the
/// trace context among others, the encoded payload, and how often the task
/// was tried and failed.
#[derive(Debug, PartialEq, Eq)]
pub struct TaskRecord {
    pub queue: String,
    pub headers: Vec<(String, String)>,
    pub payload: Vec<u8>,
    pub attempt: u8,
}

/// What a `TaskRecord` holds.
pub struct TaskRecordView {
    pub queue: Seq<char>,
    pub headers: Seq<(Seq<char>, Seq<char>)>,
    pub payload: Seq<u8>,
    pub attempt: u8,
}

impl View for TaskRecord {
    type V = TaskRecordView;

    open spec fn view(&self) -> TaskRecordView {
        TaskRecordView {
            queue: self.queue@,
            headers: self.headers.deep_view(),
            payload: self.payload@,
            attempt: self.attempt,
        }
    }
}

impl DeepView for TaskRecord {
    type V = TaskRecordView;

    open spec fn deep_view(&self) -> TaskRecordView {
        self@
    }
}

/// What becomes of a task that failed.
#[derive(Debug, PartialEq, Eq)]
pub enum Retry {
    /// The task goes back on its queue and becomes eligible again after
    /// `delay` seconds.
    Requeue { record: TaskRecord, delay: u64 },
    /// The task used up its retries and is dropped.
    Dropped,
}

/// What a `Retry` holds.
pub enum RetryView {
    Requeue { record: TaskRecordView, delay: u64 },
    Dropped,
}

impl View for Retry {
    type V = RetryView;

    open spec fn view(&self) -> RetryView {
        match self {
            Retry::Requeue { record, delay } => RetryView::Requeue {
                record: record@,
                delay: *delay,
            },
            Retry::Dropped => RetryView::Dropped,
        }
    }
}

/// What becomes of the task `record` of a queue that allows `max_retry_count`
/// retries `retry_delay` seconds apart, when the task fails: it is tried
/// again while it has retries left, and dropped after that.
pub open spec fn retried(record: TaskRecordView, max_retry_count: u8, retry_delay: u64)
    -> RetryView {
    if record.attempt < max_retry_count {
        RetryView::Requeue {
            record: TaskRecordView { attempt: (record.attempt + 1) as u8, ..record },
            delay: retry_delay,
        }
    } else {
        RetryView::Dropped
    }
}

/// The record of the task that `task` asks for, with the encoded payload
/// `message`: it goes to the queue of the request, carries its headers, and
/// was never tried.
pub fn request<Q: TaskQueue>(task: &TaskRequest<Q>, message: Vec<u8>) -> (record: TaskRecord)
    requires
        task.well_formed(),
    ensures
        record@ == (TaskRecordView {
            queue: task.spec_queue().spec_name(),
            headers: header_pairs(task.spec_headers()),
            payload: message@,
            attempt: 0,
        }),
{
    TaskRecord {
        queue: task.queue().name(),
        headers: task.header_list(),
        payload: message,
        attempt: 0,
    }
}

/// Decide what becomes of the task `record` of `queue` after it failed. A
/// handler that panics counts as a failure too.
pub fn fail<Q: TaskQueue>(record: TaskRecord, queue: &Q) -> (retry: Retry)
    ensures
        retry@ == retried(record@, queue.spec_max_retry_count(), queue.spec_retry_delay()),
{
    if record.attempt < queue.max_retry_count() {
        let TaskRecord { queue: name, headers, payload, attempt } = record;
        Retry::Requeue {
            record: TaskRecord { queue: name, headers, payload, attempt: attempt + 1 },
            delay: queue.retry_delay(),
        }
    } else {
        Retry::Dropped
    }
}

/// A task that keeps failing is tried again exactly as often as its queue
/// allows: after `failures` failures it is still queued if and only if
/// `failures` is at most the number of retries.
pub proof fn lemma_bounded_retries(record: TaskRecordView, max_retry_count: u8, retry_delay: u64)
    requires
        record.attempt <= max_retry_count,
    ensures
        retried(record, max_retry_count, retry_delay) is Dropped <==> record.attempt
            == max_retry_count,
        retried(record, max_retry_count, retry_delay) matches RetryView::Requeue {
            record: next,
            delay,
        } ==> next.attempt == record.attempt + 1 && next.attempt <= max_retry_count && delay
            == retry_delay && next.queue == record.queue && next.headers == record.headers
            && next.payload == record.payload,
{
}

/// Keeps the tasks that were asked for, in place of a message broker.
pub struct MockTasks {
    pub requests: Vec<TaskRecord>,
}

impl MockTasks {
    /// Create a mock tasks instance to be used for tests.
    pub fn new() -> (mock: MockTasks)
        ensures
            mock.requests.deep_view() == Seq::<TaskRecordView>::empty(),
    {
        let requests: Vec<TaskRecord> = Vec::new();
        assert(requests.deep_view() =~= Seq::<TaskRecordView>::empty());
        MockTasks { requests }
    }

    /// Request a new task to be performed: its record is kept behind those
    /// that were asked for before.
    pub fn request<Q: TaskQueue>(&mut self, task: TaskRequest<Q>, message: Vec<u8>)
        requires
            task.well_formed(),
        ensures
            final(self).requests.deep_view() == old(self).requests.deep_view().push(
                TaskRecordView {
                    queue: task.spec_queue().spec_name(),
                    headers: header_pairs(task.spec_headers()),
                    payload: message@,
                    attempt: 0,
                },
            ),
    {
        let ghost before = self.requests.deep_view();
        let record = request(&task, message);
        let ghost shown = record@;
        self.requests.push(record);
        assert(self.requests.deep_view() =~= before.push(shown));
    }
}

} // verus!
