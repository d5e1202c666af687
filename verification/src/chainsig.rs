//! The dispatcher and the completion resolver around the batch accumulator.
//!
//! [`SigningCore`] owns the process-wide state: the monotonic batch-id
//! counter, the accumulator, and the record of completed batch ids.
//! `dispatch` splits a batch into the outbound calls the host must issue,
//! each tagged with everything the resolver later needs; `on_arrival` is
//! invoked once per delivered outcome, appends it, and on the arrival that
//! reaches the expected count assembles the caller-facing aggregate, erases
//! the batch's entry and records the id as completed, all in the same step.
//! A later arrival for a completed id — a duplicate delivery — is a no-op:
//! it recreates no entry and emits no second aggregate.
//!
//! The host delivers outcomes strictly one at a time, so the read-modify-
//! write of an entry is atomic; no ordering among arrivals is assumed.

use vstd::prelude::*;

use std::collections::HashSet;

use crate::accumulator::BatchAccumulator;
use crate::types::{
    canonical_spec, caller_form_spec, restore_spec, ConversionError, RequestAndResponse,
    SignRequest, SignRequestArgs, SignatureResponse, StoredRequestAndResponse,
    StoredSignatureResponse,
};
use crate::types::lemma_stored_round_trip;

verus! {

broadcast use vstd::std_specs::hash::group_hash_axioms;

/// The fixed compute budget attached to each outbound signing call, in gas
/// units.
pub const SIGNATURE_GAS: u64 = 15_000_000_000_000;

/// The fixed compute budget reserved for resolving the results, in gas
/// units.
pub const CALLBACK_GAS: u64 = 15_000_000_000_000;

/// The fixed payment attached to each outbound signing call, in yoctoNEAR.
pub const ATTACHED_DEPOSIT: u128 = 1;

/// Why a batch was rejected before anything was dispatched.
#[derive(Clone, Copy, Debug, PartialEq, Eq, Structural)]
pub enum ValidationError {
    /// The batch holds no request.
    EmptyBatch,
    /// A request could not be reduced to canonical form.
    Conversion(ConversionError),
    /// A request names a key version other than 0, the only one supported.
    UnsupportedKeyVersion,
}

/// One outbound call the host must issue: the canonical request, the fixed
/// budget and payment, and the tags the resolver needs to detect completion.
#[derive(Debug, PartialEq)]
pub struct OutboundCall {
    pub request: SignRequest,
    pub batch_id: u64,
    pub expected_count: usize,
    pub gas: u64,
    pub deposit: u128,
}

/// What `dispatch` hands back: the fresh batch id and the calls to issue.
#[derive(Debug, PartialEq)]
pub struct BatchHandle {
    pub batch_id: u64,
    pub calls: Vec<OutboundCall>,
}

// ---------------------------------------------------------------------------
// The abstract model of the resolver
// ---------------------------------------------------------------------------

/// One arrival as the model sees it: the request it answers and its outcome,
/// a restored signature or the permanent failure marker.
pub type Arrival = (SignRequest, Result<SignatureResponse, ()>);

/// The observable content of one durable record: its request, and its
/// outcome with a restore failure folded into the failure marker.
pub open spec fn meaning_of_record(record: StoredRequestAndResponse) -> Arrival {
    (
        record.request,
        match record.response {
            Ok(st) => match restore_spec(st) {
                Ok(response) => Ok(response),
                Err(_) => Err(()),
            },
            Err(_) => Err(()),
        },
    )
}

/// The observable content of a batch's entry, in arrival order.
pub open spec fn entry_meaning(entry: Seq<StoredRequestAndResponse>) -> Seq<Arrival> {
    entry.map(|i: int, record: StoredRequestAndResponse| meaning_of_record(record))
}

/// The arrivals recorded so far for `batch_id`, the empty sequence when the
/// batch has no entry.
pub open spec fn arrivals_of(m: Map<u64, Seq<Arrival>>, batch_id: u64) -> Seq<Arrival> {
    if m.contains_key(batch_id) {
        m[batch_id]
    } else {
        Seq::empty()
    }
}

/// How one delivered outcome transforms the batch store: an arrival for an
/// already-completed batch id is a no-op; otherwise it is appended to its
/// batch's entry (created lazily), and when the entry then reaches the
/// expected count it is removed in the same step.
pub open spec fn step_map(
    m: Map<u64, Seq<Arrival>>,
    done: Set<u64>,
    batch_id: u64,
    expected_count: int,
    request: SignRequest,
    outcome: Result<SignatureResponse, ()>,
) -> Map<u64, Seq<Arrival>> {
    if done.contains(batch_id) {
        m
    } else {
        let appended = arrivals_of(m, batch_id).push((request, outcome));
        if appended.len() < expected_count {
            m.insert(batch_id, appended)
        } else {
            m.remove(batch_id)
        }
    }
}

/// The record of completed batch ids after one delivered outcome: the id is
/// added exactly when this arrival completes its batch, and never leaves.
pub open spec fn step_completed(
    m: Map<u64, Seq<Arrival>>,
    done: Set<u64>,
    batch_id: u64,
    expected_count: int,
    request: SignRequest,
    outcome: Result<SignatureResponse, ()>,
) -> Set<u64> {
    if !done.contains(batch_id) && arrivals_of(m, batch_id).push((request, outcome)).len()
        >= expected_count {
        done.insert(batch_id)
    } else {
        done
    }
}

/// What one delivered outcome emits: nothing while the batch stays open and
/// nothing for an already-completed batch id; the completed entry, in
/// arrival order, on the arrival that reaches the expected count.
pub open spec fn step_emit(
    m: Map<u64, Seq<Arrival>>,
    done: Set<u64>,
    batch_id: u64,
    expected_count: int,
    request: SignRequest,
    outcome: Result<SignatureResponse, ()>,
) -> Option<Seq<Arrival>> {
    if done.contains(batch_id) {
        None
    } else {
        let appended = arrivals_of(m, batch_id).push((request, outcome));
        if appended.len() < expected_count {
            None
        } else {
            Some(appended)
        }
    }
}

/// The caller-facing aggregate assembled from a completed entry: each slot
/// keeps its arrival position, the request mapped back to caller-facing
/// form beside its outcome.
pub open spec fn aggregate_form(arrivals: Seq<Arrival>) -> Seq<RequestAndResponse> {
    arrivals.map(
        |i: int, a: Arrival|
            (RequestAndResponse { request: caller_form_spec(a.0), response: a.1 }),
    )
}

/// Whether one caller-facing request passes pre-dispatch validation, and the
/// canonical request it then yields: it must reduce to canonical form and
/// name key version 0.
pub open spec fn validate_one(args: SignRequestArgs) -> Result<SignRequest, ValidationError> {
    match canonical_spec(args) {
        Err(e) => Err(ValidationError::Conversion(e)),
        Ok(request) => if request.key_version != 0 {
            Err(ValidationError::UnsupportedKeyVersion)
        } else {
            Ok(request)
        },
    }
}

/// Every request before index `i` passes validation.
pub open spec fn all_valid_before(s: Seq<SignRequestArgs>, i: int) -> bool {
    forall|j: int| 0 <= j < i ==> (#[trigger] validate_one(s[j])) is Ok
}

// ---------------------------------------------------------------------------
// The core state machine
// ---------------------------------------------------------------------------

/// The process-wide state: the monotonic batch-id counter, the batch
/// accumulator, and the ids of batches already completed.  The accumulator
/// is reachable only through the resolver; no partial result is observable
/// from outside.  The completed-id record is written in the same step as a
/// batch's erasure and makes duplicate delivery idempotent: batch ids are
/// never reused, so it only ever grows.
pub struct SigningCore {
    next_batch_id: u64,
    store: BatchAccumulator,
    completed: HashSet<u64>,
}

impl SigningCore {
    /// The next batch id the dispatcher will assign; ids only increase and
    /// are never reused.
    pub closed spec fn next_id(self) -> u64 {
        self.next_batch_id
    }

    /// The observable batch store: for every open batch, its arrivals so
    /// far, in arrival order.
    pub closed spec fn model(self) -> Map<u64, Seq<Arrival>> {
        Map::new(
            |batch_id: u64| self.store@.contains_key(batch_id),
            |batch_id: u64| entry_meaning(self.store@[batch_id]),
        )
    }

    /// The ids of batches that have already completed and been erased.
    pub closed spec fn completed_ids(self) -> Set<u64> {
        self.completed@
    }

    /// A fresh core: the counter starts at 0, no batch is open and none has
    /// completed.
    pub fn new() -> (r: SigningCore)
        ensures
            r.next_id() == 0,
            r.model() == Map::<u64, Seq<Arrival>>::empty(),
            r.completed_ids() == Set::<u64>::empty(),
    {
        let r = SigningCore {
            next_batch_id: 0,
            store: BatchAccumulator::new(),
            completed: HashSet::new(),
        };
        proof {
            assert(r.model() =~= Map::<u64, Seq<Arrival>>::empty());
        }
        r
    }

    /// How many batches have been dispatched so far; equally, the id the
    /// next batch will get.
    pub fn batches_dispatched(&self) -> (r: u64)
        ensures
            r == self.next_id(),
    {
        self.next_batch_id
    }

    /// Whether `batch_id` is still open.  This is the only question about
    /// accumulator state the core answers: no partial result is exposed.
    pub fn has_open_batch(&self, batch_id: u64) -> (r: bool)
        ensures
            r == self.model().contains_key(batch_id),
    {
        self.store.contains_batch(batch_id)
    }

    /// Whether `batch_id` has already completed and had its entry erased.
    pub fn is_completed(&self, batch_id: u64) -> (r: bool)
        ensures
            r == self.completed_ids().contains(batch_id),
    {
        self.completed.contains(&batch_id)
    }

    /// Split a validated, non-empty batch into one outbound call per
    /// request, each carrying the fixed budget and payment and tagged with
    /// the fresh batch id and the expected total count.  Nothing is
    /// persisted yet: the accumulator materializes on first arrival.
    pub fn dispatch(&mut self, requests: Vec<SignRequest>) -> (r: BatchHandle)
        requires
            old(self).next_id() < u64::MAX,
            requests@.len() >= 1,
        ensures
            r.batch_id == old(self).next_id(),
            final(self).next_id() == old(self).next_id() + 1,
            final(self).model() == old(self).model(),
            final(self).completed_ids() == old(self).completed_ids(),
            r.calls@.len() == requests@.len(),
            forall|i: int|
                0 <= i < requests@.len() ==> r.calls@[i] == (OutboundCall {
                    request: requests@[i],
                    batch_id: old(self).next_id(),
                    expected_count: requests@.len() as usize,
                    gas: SIGNATURE_GAS,
                    deposit: ATTACHED_DEPOSIT,
                }),
    {
        let batch_id = self.next_batch_id;
        self.next_batch_id = self.next_batch_id + 1;
        let expected_count = requests.len();
        let ghost full = requests@;
        let mut remaining = requests;
        let mut calls: Vec<OutboundCall> = Vec::new();
        while remaining.len() > 0
            invariant
                expected_count == full.len(),
                calls@.len() + remaining@.len() == full.len(),
                remaining@ == full.skip(calls@.len() as int),
                forall|i: int|
                    0 <= i < calls@.len() ==> calls@[i] == (OutboundCall {
                        request: full[i],
                        batch_id: batch_id,
                        expected_count: expected_count,
                        gas: SIGNATURE_GAS,
                        deposit: ATTACHED_DEPOSIT,
                    }),
            decreases remaining@.len(),
        {
            let ghost k = calls@.len() as int;
            let request = remaining.remove(0);
            proof {
                assert(request == full[k]);
                assert(remaining@ =~= full.skip(k + 1));
            }
            calls.push(
                OutboundCall {
                    request,
                    batch_id,
                    expected_count,
                    gas: SIGNATURE_GAS,
                    deposit: ATTACHED_DEPOSIT,
                },
            );
        }
        BatchHandle { batch_id, calls }
    }

    /// Validate a caller-facing batch and dispatch it.  Rejected
    /// synchronously, with nothing dispatched and the state unchanged, when
    /// the batch is empty or any request fails validation; the error is the
    /// first failure in batch order.
    #[verifier::loop_isolation(false)]
    pub fn request_signatures(&mut self, args: Vec<SignRequestArgs>) -> (r: Result<
        BatchHandle,
        ValidationError,
    >)
        requires
            old(self).next_id() < u64::MAX,
        ensures
            (r is Ok) <==> (args@.len() >= 1 && all_valid_before(args@, args@.len() as int)),
            r matches Ok(handle) ==> {
                &&& handle.batch_id == old(self).next_id()
                &&& final(self).next_id() == old(self).next_id() + 1
                &&& final(self).model() == old(self).model()
                &&& final(self).completed_ids() == old(self).completed_ids()
                &&& handle.calls@.len() == args@.len()
                &&& forall|i: int|
                    0 <= i < args@.len() ==> handle.calls@[i] == (OutboundCall {
                        request: validate_one(args@[i])->Ok_0,
                        batch_id: old(self).next_id(),
                        expected_count: args@.len() as usize,
                        gas: SIGNATURE_GAS,
                        deposit: ATTACHED_DEPOSIT,
                    })
            },
            r matches Err(e) ==> {
                &&& *final(self) == *old(self)
                &&& (args@.len() == 0 ==> e == ValidationError::EmptyBatch)
                &&& (args@.len() > 0 ==> exists|i: int|
                    0 <= i < args@.len() && all_valid_before(args@, i) && validate_one(args@[i])
                        == Err::<SignRequest, ValidationError>(e))
            },
    {
        if args.len() == 0 {
            return Err(ValidationError::EmptyBatch);
        }
        let ghost full = args@;
        let mut remaining = args;
        let mut requests: Vec<SignRequest> = Vec::new();
        while remaining.len() > 0
            invariant
                requests@.len() + remaining@.len() == full.len(),
                remaining@ == full.skip(requests@.len() as int),
                all_valid_before(full, requests@.len() as int),
                forall|i: int|
                    0 <= i < requests@.len() ==> requests@[i] == validate_one(
                        #[trigger] full[i],
                    )->Ok_0,
            decreases remaining@.len(),
        {
            let ghost k = requests@.len() as int;
            let a = remaining.remove(0);
            proof {
                assert(a == full[k]);
                assert(remaining@ =~= full.skip(k + 1));
            }
            match crate::types::sign_request_args_to_sign_request(a) {
                Err(e) => {
                    proof {
                        assert(validate_one(full[k]) == Err::<SignRequest, ValidationError>(
                            ValidationError::Conversion(e),
                        ));
                        assert(!all_valid_before(full, full.len() as int));
                    }
                    return Err(ValidationError::Conversion(e));
                },
                Ok(request) => {
                    if request.key_version != 0 {
                        proof {
                            assert(validate_one(full[k]) == Err::<SignRequest, ValidationError>(
                                ValidationError::UnsupportedKeyVersion,
                            ));
                            assert(!all_valid_before(full, full.len() as int));
                        }
                        return Err(ValidationError::UnsupportedKeyVersion);
                    }
                    requests.push(request);
                },
            }
        }
        Ok(self.dispatch(requests))
    }

    /// Record one delivered outcome for `batch_id`.  A successful payload is
    /// committed to its durable form; a failed call is recorded as the
    /// permanent failure marker and counts toward completion like any other
    /// arrival.  While the entry stays short of `expected_count` nothing is
    /// observable; the arrival that reaches it assembles the aggregate, in
    /// arrival order, erases the entry and records the id as completed in
    /// the same step.  A duplicate delivery — an arrival for an id that
    /// already completed — changes nothing and emits nothing.
    pub fn on_arrival(
        &mut self,
        batch_id: u64,
        expected_count: usize,
        request: SignRequest,
        outcome: Result<SignatureResponse, ()>,
    ) -> (r: Option<Vec<RequestAndResponse>>)
        requires
            expected_count >= 1,
        ensures
            final(self).next_id() == old(self).next_id(),
            final(self).model() == step_map(
                old(self).model(),
                old(self).completed_ids(),
                batch_id,
                expected_count as int,
                request,
                outcome,
            ),
            final(self).completed_ids() == step_completed(
                old(self).model(),
                old(self).completed_ids(),
                batch_id,
                expected_count as int,
                request,
                outcome,
            ),
            (r is Some) <==> (!old(self).completed_ids().contains(batch_id) && arrivals_of(
                old(self).model(),
                batch_id,
            ).len() + 1 >= expected_count),
            r matches Some(aggregate) ==> aggregate@ == aggregate_form(
                arrivals_of(old(self).model(), batch_id).push((request, outcome)),
            ),
    {
        if self.completed.contains(&batch_id) {
            return None;
        }
        let ghost m0 = self.model();
        let ghost done0 = self.completed_ids();
        let ghost prior = arrivals_of(m0, batch_id);
        let stored_response: Result<StoredSignatureResponse, ()> = match outcome {
            Ok(response) => {
                match StoredSignatureResponse::from_signature_response(response) {
                    Ok(st) => Ok(st),
                    Err(_) => Err(()),
                }
            },
            Err(_) => Err(()),
        };
        let record = StoredRequestAndResponse { request, response: stored_response };
        proof {
            if outcome is Ok {
                lemma_stored_round_trip(stored_response->Ok_0, outcome->Ok_0);
            } else {
                assert(outcome->Err_0 == ());
                assert(outcome == Err::<SignatureResponse, ()>(()));
            }
            assert(meaning_of_record(record) == (request, outcome));
        }
        let n = self.store.append_or_create(batch_id, record);
        proof {
            assert(entry_meaning(
                crate::accumulator::entry_or_empty(old(self).store@, batch_id).push(record),
            ) =~= prior.push((request, outcome)));
            assert(n == prior.len() + 1);
        }
        if n < expected_count {
            proof {
                assert(self.model() =~= step_map(
                    m0,
                    done0,
                    batch_id,
                    expected_count as int,
                    request,
                    outcome,
                ));
            }
            None
        } else {
            let entry = self.store.erase(batch_id).unwrap();
            self.completed.insert(batch_id);
            proof {
                assert(self.model() =~= step_map(
                    m0,
                    done0,
                    batch_id,
                    expected_count as int,
                    request,
                    outcome,
                ));
                assert(self.completed_ids() =~= step_completed(
                    m0,
                    done0,
                    batch_id,
                    expected_count as int,
                    request,
                    outcome,
                ));
                assert(entry_meaning(entry@) =~= prior.push((request, outcome)));
            }
            let ghost full = entry@;
            let mut remaining = entry;
            let mut aggregate: Vec<RequestAndResponse> = Vec::new();
            while remaining.len() > 0
                invariant
                    aggregate@.len() + remaining@.len() == full.len(),
                    remaining@ == full.skip(aggregate@.len() as int),
                    forall|i: int|
                        0 <= i < aggregate@.len() ==> aggregate@[i]
                            == crate::types::from_stored_spec(#[trigger] full[i]),
                decreases remaining@.len(),
            {
                let ghost k = aggregate@.len() as int;
                let record = remaining.remove(0);
                proof {
                    assert(record == full[k]);
                    assert(remaining@ =~= full.skip(k + 1));
                }
                aggregate.push(RequestAndResponse::from_stored(record));
            }
            proof {
                assert(aggregate@ =~= aggregate_form(prior.push((request, outcome))));
            }
            Some(aggregate)
        }
    }
}

// ---------------------------------------------------------------------------
// Joining the host's promises
// ---------------------------------------------------------------------------

#[verifier::external_type_specification]
#[verifier::external_body]
pub struct ExPromise(near_sdk::Promise);

/// Relies on `near_sdk::Promise::and`: it combines two promises into one
/// joint promise that resolves when both do, by pure in-memory list
/// manipulation, and never panics.
pub assume_specification[ near_sdk::Promise::and ](
    p: near_sdk::Promise,
    other: near_sdk::Promise,
) -> near_sdk::Promise;

/// Combine a non-empty list of promises into a single joint promise that
/// resolves when all of them do.
pub fn join_all(promises: Vec<near_sdk::Promise>) -> near_sdk::Promise
    requires
        promises@.len() >= 1,
{
    let mut remaining = promises;
    let mut joined = remaining.remove(0);
    while remaining.len() > 0
        decreases remaining@.len(),
    {
        let next = remaining.remove(0);
        joined = joined.and(next);
    }
    joined
}

} // verus!
