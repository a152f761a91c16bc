//! Reconstruction of a temporally annotated log of CPU exception lifecycle
//! events from a lossy, interleaved hardware trace stream.
//!
//! The engine consumes already-decoded trace packets and produces, for each
//! exception event, a best-effort tick-clock instant, handling packet loss,
//! ambiguous packet ordering, counter wraparound and stream-loss recovery.
//! Pulling bytes off the wire and printing the rows is left to the caller;
//! everything that decides is here.

pub mod laws;
pub mod packet;
pub mod report;
pub mod resolver;
pub mod tracker;
