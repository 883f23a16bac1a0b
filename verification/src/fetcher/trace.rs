//! What holds of whole fetches, whatever the world answers.
//!
//! A fetch is driven by a run of answers, each with the instant at which it
//! arrived. The laws here speak of every such run.
use crate::clock::Timestamp;
use crate::fetcher::agent::classified;
use crate::fetcher::agent::AgentFailureView;
use crate::fetcher::fetch::FetchRunView;
use crate::fetcher::fetch::OutcomeView;
use crate::fetcher::fetch::StepView;
use crate::fetcher::protocol::RequestView;
use crate::fetcher::protocol::ResponseView;
use crate::models::cluster::ClusterDiscoveryView;
use crate::models::events::EventPayloadView;
use crate::models::events::EventView;
use vstd::prelude::*;

verus! {

/// The fetch after it took the answers `inputs` one after the other.
pub open spec fn run(state: FetchRunView, inputs: Seq<(ResponseView, Timestamp)>) -> FetchRunView
    decreases inputs.len(),
{
    if inputs.len() == 0 {
        state
    } else {
        run(state, inputs.drop_last()).advance(inputs.last().0, inputs.last().1)
    }
}

/// Whether the fetch asks for `event` to be emitted at some point while it
/// takes the answers `inputs`.
pub open spec fn emits(
    state: FetchRunView,
    inputs: Seq<(ResponseView, Timestamp)>,
    event: EventView,
) -> bool {
    exists|k: int|
        0 <= k <= inputs.len() && (#[trigger] run(state, inputs.take(k))).request() == Some(
            RequestView::Emit(event),
        )
}

/// The event that the fetch waits to see emitted, if it waits for one.
pub open spec fn pending_event(state: FetchRunView) -> Option<EventView> {
    match state.step {
        StepView::EmitNode(_, event) => Some(event),
        StepView::EmitShard(event) => Some(event),
        _ => None,
    }
}

/// One step of a fetch makes no event but at the instant of the answer.
pub proof fn lemma_step_stamps_now(state: FetchRunView, response: ResponseView, now: Timestamp)
    ensures
        pending_event(state.advance(response, now)) matches Some(event) ==> event.timestamp == now
            || pending_event(state) == Some(event),
{
}

/// Every event that a fetch asks to emit carries an instant between the
/// start and the end of the refresh, as long as every answer arrives
/// between the two.
pub proof fn lemma_events_within_refresh(
    discovery: ClusterDiscoveryView,
    inputs: Seq<(ResponseView, Timestamp)>,
    start: Timestamp,
    end: Timestamp,
    event: EventView,
)
    requires
        forall|k: int|
            0 <= k < inputs.len() ==> start.at_or_before((#[trigger] inputs[k]).1)
                && inputs[k].1.at_or_before(end),
        emits(FetchRunView::start(discovery), inputs, event),
    ensures
        start.at_or_before(event.timestamp),
        event.timestamp.at_or_before(end),
{
    let first = FetchRunView::start(discovery);
    let k = choose|k: int|
        0 <= k <= inputs.len() && (#[trigger] run(first, inputs.take(k))).request() == Some(
            RequestView::Emit(event),
        );
    lemma_pending_within(first, inputs.take(k), start, end);
    assert(pending_event(run(first, inputs.take(k))) == Some(event));
}

/// The event that a fetch waits to see emitted, if any, carries an instant
/// at which one of the answers arrived.
pub proof fn lemma_pending_within(
    state: FetchRunView,
    inputs: Seq<(ResponseView, Timestamp)>,
    start: Timestamp,
    end: Timestamp,
)
    requires
        pending_event(state) is None,
        forall|k: int|
            0 <= k < inputs.len() ==> start.at_or_before((#[trigger] inputs[k]).1)
                && inputs[k].1.at_or_before(end),
    ensures
        pending_event(run(state, inputs)) matches Some(event) ==> start.at_or_before(
            event.timestamp,
        ) && event.timestamp.at_or_before(end),
    decreases inputs.len(),
{
    if inputs.len() > 0 {
        let shorter = inputs.drop_last();
        assert forall|k: int| 0 <= k < shorter.len() implies start.at_or_before(
            (#[trigger] shorter[k]).1,
        ) && shorter[k].1.at_or_before(end) by {
            assert(shorter[k] == inputs[k]);
        }
        lemma_pending_within(state, shorter, start, end);
        lemma_step_stamps_now(run(state, shorter), inputs.last().0, inputs.last().1);
        assert(inputs[inputs.len() - 1] == inputs.last());
    }
}

/// Whether the store holds the shard that the fetch asks about with the
/// stable attributes that the agent reported: the answer is to the lookup of
/// the current shard, and gives either no record or a record whose role and
/// identifiers are those of the current shard.
pub open spec fn shard_is_stable(state: FetchRunView, response: ResponseView) -> bool {
    state.step is LoadShard ==> (response matches ResponseView::StoredShard(Ok(Some(old)))
        ==> !state.shard().stable_differs(old))
}

/// Whether the answers `inputs` show an unchanged allocation of shards: every
/// shard that the store is asked about is held there with the stable
/// attributes that its agent reports.
pub open spec fn allocation_unchanged(state: FetchRunView, inputs: Seq<(ResponseView, Timestamp)>)
    -> bool {
    forall|k: int|
        0 <= k < inputs.len() ==> shard_is_stable(
            #[trigger] run(state, inputs.take(k)),
            inputs[k].0,
        )
}

/// Whether the fetch waits to see a change of allocation emitted.
pub open spec fn pending_change(state: FetchRunView) -> bool {
    pending_event(state) matches Some(event) && event.payload is ShardAllocationChanged
}

/// A refresh of a cluster whose shards are allocated as the store holds them
/// emits no change of allocation, however the commit offsets and lags moved.
pub proof fn lemma_unchanged_allocation_emits_no_change(
    discovery: ClusterDiscoveryView,
    inputs: Seq<(ResponseView, Timestamp)>,
    before: crate::models::datastore::ShardView,
    after: crate::models::datastore::ShardView,
    at: Timestamp,
)
    requires
        allocation_unchanged(FetchRunView::start(discovery), inputs),
    ensures
        !emits(
            FetchRunView::start(discovery),
            inputs,
            EventView {
                payload: EventPayloadView::ShardAllocationChanged { before, after },
                timestamp: at,
            },
        ),
{
    let first = FetchRunView::start(discovery);
    let event = EventView {
        payload: EventPayloadView::ShardAllocationChanged { before, after },
        timestamp: at,
    };
    if emits(first, inputs, event) {
        let k = choose|k: int|
            0 <= k <= inputs.len() && (#[trigger] run(first, inputs.take(k))).request() == Some(
                RequestView::Emit(event),
            );
        let prefix = inputs.take(k);
        assert forall|j: int| 0 <= j < prefix.len() implies shard_is_stable(
            #[trigger] run(first, prefix.take(j)),
            prefix[j].0,
        ) by {
            assert(prefix.take(j) =~= inputs.take(j));
            assert(prefix[j] == inputs[j]);
        }
        lemma_no_pending_change(first, prefix);
        assert(pending_change(run(first, prefix)));
    }
}

/// While the allocation is unchanged a fetch never waits to see a change of
/// allocation emitted.
pub proof fn lemma_no_pending_change(state: FetchRunView, inputs: Seq<(ResponseView, Timestamp)>)
    requires
        !pending_change(state),
        allocation_unchanged(state, inputs),
    ensures
        !pending_change(run(state, inputs)),
    decreases inputs.len(),
{
    if inputs.len() > 0 {
        let shorter = inputs.drop_last();
        assert forall|j: int| 0 <= j < shorter.len() implies shard_is_stable(
            #[trigger] run(state, shorter.take(j)),
            shorter[j].0,
        ) by {
            assert(shorter.take(j) =~= inputs.take(j));
            assert(shorter[j] == inputs[j]);
        }
        lemma_no_pending_change(state, shorter);
        let last = inputs.len() - 1;
        assert(inputs.take(last) =~= shorter);
        assert(shard_is_stable(run(state, inputs.take(last)), inputs[last].0));
        assert(inputs[last] == inputs.last());
    }
}

/// Whether an answer reports a failure of the control plane: of the primary
/// store or of the events stream.
pub open spec fn is_core_failure(response: ResponseView) -> bool {
    match response {
        ResponseView::Done(Err(_)) => true,
        ResponseView::StoredNode(Err(_)) => true,
        ResponseView::StoredShard(Err(_)) => true,
        _ => false,
    }
}

/// Whether the fetch was stopped by an error.
pub open spec fn has_failed(state: FetchRunView) -> bool {
    state.step matches StepView::Done(OutcomeView::Failed(_))
}

/// The failure of asking an agent for something always says something about
/// the agent: it gives the agent a status, and so never stops a fetch.
pub proof fn lemma_agent_failures_give_a_status(
    failure: AgentFailureView,
    what: Seq<char>,
    agent: Seq<char>,
)
    ensures
        classified(failure, what, agent).agent_status() is Some,
        classified(failure, what, agent).kind.is_remote(),
{
}

/// Errors of agents and of their nodes never stop a fetch: as long as the
/// primary store and the events stream do not fail, the fetch does not fail,
/// whatever the agents answer.
pub proof fn lemma_remote_errors_never_abort(
    state: FetchRunView,
    inputs: Seq<(ResponseView, Timestamp)>,
)
    requires
        !has_failed(state),
        forall|k: int| 0 <= k < inputs.len() ==> !is_core_failure((#[trigger] inputs[k]).0),
    ensures
        !has_failed(run(state, inputs)),
    decreases inputs.len(),
{
    if inputs.len() > 0 {
        let shorter = inputs.drop_last();
        assert forall|k: int| 0 <= k < shorter.len() implies !is_core_failure(
            (#[trigger] shorter[k]).0,
        ) by {
            assert(shorter[k] == inputs[k]);
        }
        lemma_remote_errors_never_abort(state, shorter);
        assert(inputs[inputs.len() - 1] == inputs.last());
        let before = run(state, shorter);
        let response = inputs.last().0;
        match (before.step, response) {
            (StepView::FetchInfo, ResponseView::Info(Err(failure))) => {
                lemma_agent_failures_give_a_status(failure, "info"@, before.target());
            },
            (StepView::FetchNode, ResponseView::NodeInfo(Err(failure))) => {
                lemma_agent_failures_give_a_status(failure, "status"@, before.target());
            },
            (StepView::FetchShards, ResponseView::ShardsList(Err(failure))) => {
                lemma_agent_failures_give_a_status(failure, "shards"@, before.target());
            },
            _ => {},
        }
    }
}

/// A failure of the primary store or of the events stream stops the fetch at
/// once: whatever the fetch waits for, except the reading of the lock and
/// the answers of agents, an answer that reports such a failure leaves the
/// fetch failed.
pub proof fn lemma_core_errors_abort(state: FetchRunView, cause: Seq<char>, now: Timestamp)
    requires
        state.request() is Some,
    ensures
        state.request() matches Some(request) && (request is MarkStale || request
            is PersistAgentInfo || request is PersistNode || request is PersistShard || request
            is PersistAgent || request is Emit) ==> has_failed(
            state.advance(ResponseView::Done(Err(cause)), now),
        ),
        state.request() matches Some(request) && request is LoadNode ==> has_failed(
            state.advance(ResponseView::StoredNode(Err(cause)), now),
        ),
        state.request() matches Some(request) && request is LoadShard ==> has_failed(
            state.advance(ResponseView::StoredShard(Err(cause)), now),
        ),
{
}

/// A fetch that has ended stays as it ended, whatever it is answered.
pub proof fn lemma_done_is_final(state: FetchRunView, inputs: Seq<(ResponseView, Timestamp)>)
    requires
        state.step is Done,
    ensures
        run(state, inputs) == state,
    decreases inputs.len(),
{
    if inputs.len() > 0 {
        lemma_done_is_final(state, inputs.drop_last());
    }
}

/// Once the lock is lost the fetch stops cleanly: it ends without an error,
/// asks for nothing more, and leaves the remaining agents alone.
pub proof fn lemma_lock_lost_stops(
    state: FetchRunView,
    now: Timestamp,
    later: Seq<(ResponseView, Timestamp)>,
)
    requires
        state.step is InspectLock,
    ensures
        run(state.advance(ResponseView::Lock(false), now), later).step == StepView::Done(
            OutcomeView::LockLost,
        ),
        run(state.advance(ResponseView::Lock(false), now), later).request() is None,
        run(state.advance(ResponseView::Lock(false), now), later).context == state.context,
{
    lemma_done_is_final(state.advance(ResponseView::Lock(false), now), later);
}

} // verus!
