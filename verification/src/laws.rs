//! The laws of the library, stated over the abstract resolver model and
//! proved once and for all: what a whole trace of delivered outcomes does to
//! the batch store and the completed-id record, and what it emits.
//!
//! The model is the one the contracts of [`crate::chainsig::SigningCore`]
//! speak of: a map from batch id to the arrivals recorded so far plus the
//! set of completed ids, stepped by [`crate::chainsig::step_map`] and
//! [`crate::chainsig::step_completed`] and emitting by
//! [`crate::chainsig::step_emit`] exactly as `on_arrival` does.

use vstd::prelude::*;

use crate::chainsig::{arrivals_of, step_completed, step_emit, step_map, Arrival};
use crate::types::{
    canonical_spec, caller_form_spec, ConversionError, SignRequest, SignatureResponse,
    StoredRequestAndResponse,
};

verus! {

/// Converting a canonical request to the caller-facing form and back yields
/// the request again, for every canonical request whose caller-facing form
/// populates no deprecated field, that is, whose key version is 0.
pub proof fn lemma_request_round_trip(request: SignRequest)
    requires
        request.key_version == 0,
    ensures
        canonical_spec(caller_form_spec(request)) == Ok::<SignRequest, ConversionError>(request),
{
}

/// Erasure is idempotent: erasing a batch id that has no entry changes
/// nothing, so an `erase` that follows a completed batch's own `erase` is a
/// no-op on the store.
pub proof fn lemma_erase_idempotent(m: Map<u64, Seq<StoredRequestAndResponse>>, batch_id: u64)
    ensures
        !m.contains_key(batch_id) ==> m.remove(batch_id) == m,
        m.remove(batch_id).remove(batch_id) == m.remove(batch_id),
{
    if !m.contains_key(batch_id) {
        assert(m.remove(batch_id) =~= m);
    }
    assert(m.remove(batch_id).remove(batch_id) =~= m.remove(batch_id));
}

/// A duplicate delivery is a no-op: an arrival for a batch id that already
/// completed leaves the batch store and the completed-id record unchanged
/// and emits nothing — it neither recreates an entry nor emits a second
/// aggregate.
pub proof fn lemma_duplicate_arrival_is_noop(
    m: Map<u64, Seq<Arrival>>,
    done: Set<u64>,
    batch_id: u64,
    expected_count: int,
    request: SignRequest,
    outcome: Result<SignatureResponse, ()>,
)
    requires
        done.contains(batch_id),
    ensures
        step_map(m, done, batch_id, expected_count, request, outcome) == m,
        step_completed(m, done, batch_id, expected_count, request, outcome) == done,
        step_emit(m, done, batch_id, expected_count, request, outcome) is None,
{
}

// ---------------------------------------------------------------------------
// Traces of delivered outcomes
// ---------------------------------------------------------------------------

/// One delivered outcome, as the scheduler hands it to the resolver.
pub struct ArrivalEvent {
    pub batch_id: u64,
    pub expected_count: usize,
    pub request: SignRequest,
    pub outcome: Result<SignatureResponse, ()>,
}

/// The batch store after one event.
pub open spec fn apply_event_map(
    m: Map<u64, Seq<Arrival>>,
    done: Set<u64>,
    e: ArrivalEvent,
) -> Map<u64, Seq<Arrival>> {
    step_map(m, done, e.batch_id, e.expected_count as int, e.request, e.outcome)
}

/// The completed-id record after one event.
pub open spec fn apply_event_done(
    m: Map<u64, Seq<Arrival>>,
    done: Set<u64>,
    e: ArrivalEvent,
) -> Set<u64> {
    step_completed(m, done, e.batch_id, e.expected_count as int, e.request, e.outcome)
}

/// What one event emits.
pub open spec fn emit_of_event(
    m: Map<u64, Seq<Arrival>>,
    done: Set<u64>,
    e: ArrivalEvent,
) -> Option<Seq<Arrival>> {
    step_emit(m, done, e.batch_id, e.expected_count as int, e.request, e.outcome)
}

/// The batch store and the completed-id record after a whole trace of
/// events, delivered one at a time.
pub open spec fn run_state(
    m: Map<u64, Seq<Arrival>>,
    done: Set<u64>,
    events: Seq<ArrivalEvent>,
) -> (Map<u64, Seq<Arrival>>, Set<u64>)
    decreases events.len(),
{
    if events.len() == 0 {
        (m, done)
    } else {
        let prev = run_state(m, done, events.drop_last());
        (
            apply_event_map(prev.0, prev.1, events.last()),
            apply_event_done(prev.0, prev.1, events.last()),
        )
    }
}

/// What each event of a trace emits, in delivery order.
pub open spec fn emissions(
    m: Map<u64, Seq<Arrival>>,
    done: Set<u64>,
    events: Seq<ArrivalEvent>,
) -> Seq<Option<Seq<Arrival>>>
    decreases events.len(),
{
    if events.len() == 0 {
        Seq::empty()
    } else {
        let prev = run_state(m, done, events.drop_last());
        emissions(m, done, events.drop_last()).push(emit_of_event(prev.0, prev.1, events.last()))
    }
}

/// The events of a trace that belong to batch `b`, in delivery order.
pub open spec fn for_batch(events: Seq<ArrivalEvent>, b: u64) -> Seq<ArrivalEvent> {
    events.filter(|e: ArrivalEvent| e.batch_id == b)
}

/// The arrivals a trace delivers for batch `b`, in delivery order.
pub open spec fn arrivals_in(events: Seq<ArrivalEvent>, b: u64) -> Seq<Arrival> {
    for_batch(events, b).map(|i: int, e: ArrivalEvent| (e.request, e.outcome))
}

/// Every event of the trace that belongs to batch `b` carries the same
/// expected count `n`, as the dispatcher guarantees.
pub open spec fn consistent_for(events: Seq<ArrivalEvent>, b: u64, n: usize) -> bool {
    forall|k: int|
        0 <= k < events.len() && (#[trigger] events[k]).batch_id == b
            ==> events[k].expected_count == n
}

/// While a trace delivers fewer arrivals for a not-yet-completed batch `b`
/// than its expected count, the batch accumulates exactly those arrivals,
/// in delivery order, stays uncompleted, and emits nothing: no partial
/// aggregate is ever observable, whatever other batches' events are
/// interleaved.
pub proof fn lemma_accumulation(
    m0: Map<u64, Seq<Arrival>>,
    done0: Set<u64>,
    events: Seq<ArrivalEvent>,
    b: u64,
    n: usize,
)
    requires
        !m0.contains_key(b),
        !done0.contains(b),
        n >= 1,
        consistent_for(events, b, n),
        for_batch(events, b).len() < n,
    ensures
        run_state(m0, done0, events).0.contains_key(b) <==> for_batch(events, b).len() >= 1,
        arrivals_of(run_state(m0, done0, events).0, b) == arrivals_in(events, b),
        !run_state(m0, done0, events).1.contains(b),
        emissions(m0, done0, events).len() == events.len(),
        forall|k: int|
            0 <= k < events.len() && (#[trigger] events[k]).batch_id == b ==> emissions(
                m0,
                done0,
                events,
            )[k] is None,
    decreases events.len(),
{
    broadcast use Seq::lemma_filter_push;

    if events.len() == 0 {
        assert(arrivals_in(events, b) =~= Seq::<Arrival>::empty());
        assert(arrivals_of(run_state(m0, done0, events).0, b) =~= Seq::<Arrival>::empty());
    } else {
        let prefix = events.drop_last();
        let e = events.last();
        assert(events =~= prefix.push(e));
        assert(consistent_for(prefix, b, n));
        if e.batch_id == b {
            assert(for_batch(events, b) == for_batch(prefix, b).push(e));
            lemma_accumulation(m0, done0, prefix, b, n);
            let before = arrivals_of(run_state(m0, done0, prefix).0, b);
            assert(before.len() + 1 == for_batch(events, b).len());
            assert(e.expected_count == n);
            assert(arrivals_of(run_state(m0, done0, events).0, b) =~= before.push(
                (e.request, e.outcome),
            ));
            assert(arrivals_in(events, b) =~= before.push((e.request, e.outcome)));
        } else {
            assert(for_batch(events, b) == for_batch(prefix, b));
            lemma_accumulation(m0, done0, prefix, b, n);
            assert(arrivals_of(run_state(m0, done0, events).0, b) == arrivals_of(
                run_state(m0, done0, prefix).0,
                b,
            ));
            assert(arrivals_in(events, b) == arrivals_in(prefix, b));
        }
    }
}

/// A trace that delivers exactly the expected count of arrivals for a
/// not-yet-completed batch `b` completes it exactly once: every earlier
/// event of the batch emits nothing, the event whose arrival reaches the
/// count emits the whole batch's arrivals in delivery order, and afterwards
/// the batch's entry is gone and its id is recorded as completed —
/// independent of how other batches' events interleave.
pub proof fn lemma_batch_lifecycle(
    m0: Map<u64, Seq<Arrival>>,
    done0: Set<u64>,
    events: Seq<ArrivalEvent>,
    b: u64,
    n: usize,
)
    requires
        !m0.contains_key(b),
        !done0.contains(b),
        n >= 1,
        consistent_for(events, b, n),
        for_batch(events, b).len() == n,
    ensures
        !run_state(m0, done0, events).0.contains_key(b),
        run_state(m0, done0, events).1.contains(b),
        emissions(m0, done0, events).len() == events.len(),
        forall|k: int|
            0 <= k < events.len() && (#[trigger] events[k]).batch_id == b ==> ((emissions(
                m0,
                done0,
                events,
            )[k] is Some) <==> for_batch(events.take(k + 1), b).len() == n),
        forall|k: int|
            0 <= k < events.len() && (#[trigger] events[k]).batch_id == b && for_batch(
                events.take(k + 1),
                b,
            ).len() == n ==> emissions(m0, done0, events)[k] == Some(arrivals_in(events, b)),
    decreases events.len(),
{
    broadcast use Seq::lemma_filter_push;

    let prefix = events.drop_last();
    let e = events.last();
    assert(events =~= prefix.push(e));
    assert(consistent_for(prefix, b, n));
    assert forall|k: int| 0 <= k < prefix.len() implies #[trigger] events.take(k + 1) =~= prefix.take(
        k + 1,
    ) by {
    }
    if e.batch_id == b {
        assert(for_batch(events, b) == for_batch(prefix, b).push(e));
        assert(for_batch(prefix, b).len() == n - 1);
        lemma_accumulation(m0, done0, prefix, b, n);
        let before = arrivals_of(run_state(m0, done0, prefix).0, b);
        assert(before.len() + 1 == n);
        assert(e.expected_count == n);
        let appended = before.push((e.request, e.outcome));
        assert(emit_of_event(run_state(m0, done0, prefix).0, run_state(m0, done0, prefix).1, e)
            == Some(appended));
        assert(arrivals_in(events, b) =~= appended);
        assert(events.take(events.len() as int) =~= events);
        assert forall|k: int|
            0 <= k < prefix.len() && (#[trigger] events[k]).batch_id == b implies for_batch(
            events.take(k + 1),
            b,
        ).len() < n by {
            prefix.lemma_filter_take_len(|ev: ArrivalEvent| ev.batch_id == b, k + 1);
        }
    } else {
        assert(for_batch(events, b) == for_batch(prefix, b));
        lemma_batch_lifecycle(m0, done0, prefix, b, n);
        assert(!apply_event_map(
            run_state(m0, done0, prefix).0,
            run_state(m0, done0, prefix).1,
            e,
        ).contains_key(b));
        assert(arrivals_in(events, b) == arrivals_in(prefix, b));
    }
}

/// Once a batch has completed, it stays silent: over any further trace —
/// duplicate deliveries for it included — its id stays recorded as
/// completed, no entry for it reappears in the store, and none of its
/// events emits anything.
pub proof fn lemma_completed_batch_stays_silent(
    m0: Map<u64, Seq<Arrival>>,
    done0: Set<u64>,
    events: Seq<ArrivalEvent>,
    b: u64,
)
    requires
        !m0.contains_key(b),
        done0.contains(b),
    ensures
        !run_state(m0, done0, events).0.contains_key(b),
        run_state(m0, done0, events).1.contains(b),
        emissions(m0, done0, events).len() == events.len(),
        forall|k: int|
            0 <= k < events.len() && (#[trigger] events[k]).batch_id == b ==> emissions(
                m0,
                done0,
                events,
            )[k] is None,
    decreases events.len(),
{
    if events.len() > 0 {
        let prefix = events.drop_last();
        let e = events.last();
        assert(events =~= prefix.push(e));
        lemma_completed_batch_stays_silent(m0, done0, prefix, b);
    }
}

} // verus!
