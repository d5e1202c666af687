//! Fan-out/fan-in orchestration of batched signing requests.
//!
//! A caller submits a batch of signing requests; each is dispatched to an
//! external signing service as an independent asynchronous call.  Outcomes
//! arrive one at a time, in arbitrary order.  The library tracks partial
//! completion of every batch in a durable keyed store, and assembles the
//! final aggregate exactly when the last outcome of a batch arrives, erasing
//! the stored entry and recording the batch id as completed in the same
//! step; a duplicate delivery for a completed batch is a no-op.
//!
//! The host that actually performs the calls and delivers the outcomes is a
//! collaborator: it drives [`chainsig::SigningCore::dispatch`] and
//! [`chainsig::SigningCore::on_arrival`] and does the wire-level work.

pub mod accumulator;
pub mod chainsig;
pub mod curve;
pub mod laws;
pub mod types;
