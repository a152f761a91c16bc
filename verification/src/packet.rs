//! The packet vocabulary shared by the whole engine: what the decoder hands
//! us, and what the engine hands back to its caller.

use vstd::prelude::*;

verus! {

/// Lifecycle phase recorded by an exception-trace packet.
#[derive(Clone, Copy, Debug, PartialEq, Eq, Structural)]
pub enum Function {
    Enter,
    Exit,
    Return,
}

/// One exception-trace record: the exception vector number and its phase.
#[derive(Clone, Copy, Debug, PartialEq, Eq, Structural)]
pub struct TraceEvent {
    pub number: u16,
    pub function: Function,
}

/// A decoded trace packet, reduced to the kinds this engine distinguishes.
/// Every decoded kind that is neither an overflow, an exception trace nor a
/// local timestamp is `Other`: receiving one is a protocol violation.
#[derive(Clone, Copy, Debug, PartialEq, Eq, Structural)]
pub enum Packet {
    Overflow,
    ExceptionTrace(TraceEvent),
    LocalTimestamp { delta: u32, precise: bool },
    Other,
}

/// What one pull from the packet source yields: a decoded packet, a decode
/// error standing for one or more unrecoverable bytes, or the final end of
/// the stream.
#[derive(Clone, Copy, Debug, PartialEq, Eq, Structural)]
pub enum StreamEvent {
    Item(Packet),
    DecodeError,
    EndOfStream,
}

/// The temporal classification attached to one reported exception event.
#[derive(Clone, Copy, Debug, PartialEq, Eq, Structural)]
pub enum Instant {
    /// Synchronization is lost (or timestamps are not expected at all).
    Unknown,
    /// Synchronization was just regained; this event defines tick 0.
    Reset,
    /// A tick-counter value, with a flag saying whether the last advance of
    /// the counter came from a reliable delta.
    Known { now: u32, precise: bool },
}

/// One resolved output row: an exception event with its classification.
#[derive(Clone, Copy, Debug, PartialEq, Eq, Structural)]
pub struct Report {
    pub event: TraceEvent,
    pub instant: Instant,
}

/// Abbreviation for the row every loss path emits.
pub open spec fn unknown_report(et: TraceEvent) -> Report {
    Report { event: et, instant: Instant::Unknown }
}

} // verus!
