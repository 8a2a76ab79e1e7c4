//! Core of a periodic maintenance scheduler for a peer-to-peer
//! data-availability node.
//!
//! A stream of "block verified" events drives one maintenance round per
//! block: interval-gated soft actions (record pruning, metrics flushing),
//! followed by unconditional hard actions on the routing table, followed by
//! per-round telemetry. Soft failures are absorbed; the first hard failure,
//! or a failure of the event stream itself, stops the whole loop and
//! triggers a single process-wide shutdown.
//!
//! The decision logic lives here as verified state machines; the caller
//! performs the actual capability calls (network maintenance, telemetry,
//! shutdown) and feeds their results back in.

pub mod config;
pub mod policy;
pub mod round;
pub mod sched;
