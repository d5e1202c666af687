//! The batch accumulator: a persistent keyed store mapping a batch id to the
//! ordered-by-arrival list of records received for that batch so far.
//!
//! This is the only shared mutable state of the design.  It offers exactly
//! the two operations the completion resolver needs: append one record to a
//! batch's list, creating the list lazily on first arrival, and erase a
//! batch's entry, returning it so that completion consumes the state in the
//! same step that assembles the aggregate.

use vstd::prelude::*;

use std::collections::HashMap;

use crate::types::StoredRequestAndResponse;

verus! {

broadcast use vstd::std_specs::hash::group_hash_axioms;

/// The list stored for a batch id that has no entry: the empty one.
pub open spec fn entry_or_empty(
    m: Map<u64, Seq<StoredRequestAndResponse>>,
    batch_id: u64,
) -> Seq<StoredRequestAndResponse> {
    if m.contains_key(batch_id) {
        m[batch_id]
    } else {
        Seq::empty()
    }
}

/// Durable keyed store of the partial results of every open batch.
pub struct BatchAccumulator {
    entries: HashMap<u64, Vec<StoredRequestAndResponse>>,
}

impl View for BatchAccumulator {
    type V = Map<u64, Seq<StoredRequestAndResponse>>;

    closed spec fn view(&self) -> Map<u64, Seq<StoredRequestAndResponse>> {
        Map::new(
            |batch_id: u64| self.entries@.contains_key(batch_id),
            |batch_id: u64| self.entries@[batch_id]@,
        )
    }
}

impl BatchAccumulator {
    /// An empty store: no batch has an entry.
    pub fn new() -> (r: BatchAccumulator)
        ensures
            r@ == Map::<u64, Seq<StoredRequestAndResponse>>::empty(),
    {
        let r = BatchAccumulator { entries: HashMap::new() };
        proof {
            assert(r@ =~= Map::<u64, Seq<StoredRequestAndResponse>>::empty());
        }
        r
    }

    /// Read the list stored for `batch_id` (absent means the empty list),
    /// append `record`, write the result back, and return its length.
    pub fn append_or_create(
        &mut self,
        batch_id: u64,
        record: StoredRequestAndResponse,
    ) -> (n: usize)
        ensures
            final(self)@ == old(self)@.insert(
                batch_id,
                entry_or_empty(old(self)@, batch_id).push(record),
            ),
            n == entry_or_empty(old(self)@, batch_id).len() + 1,
    {
        let mut list = match self.entries.remove(&batch_id) {
            Some(list) => list,
            None => Vec::new(),
        };
        list.push(record);
        let n = list.len();
        self.entries.insert(batch_id, list);
        proof {
            assert(self@ =~= old(self)@.insert(
                batch_id,
                entry_or_empty(old(self)@, batch_id).push(record),
            ));
        }
        n
    }

    /// Remove the entry for `batch_id` and hand it out; a no-op returning
    /// nothing when the entry is already absent, so that completion stays
    /// idempotent against duplicate delivery.
    pub fn erase(&mut self, batch_id: u64) -> (r: Option<Vec<StoredRequestAndResponse>>)
        ensures
            final(self)@ == old(self)@.remove(batch_id),
            match r {
                Some(list) => old(self)@.contains_key(batch_id) && list@ == old(self)@[batch_id],
                None => !old(self)@.contains_key(batch_id),
            },
    {
        let r = self.entries.remove(&batch_id);
        proof {
            assert(self@ =~= old(self)@.remove(batch_id));
        }
        r
    }

    /// Whether `batch_id` still has an entry, that is, whether its batch is
    /// open.  Exposes no partial result.
    pub fn contains_batch(&self, batch_id: u64) -> (r: bool)
        ensures
            r == self@.contains_key(batch_id),
    {
        self.entries.contains_key(&batch_id)
    }
}

} // verus!
