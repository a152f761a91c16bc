//! The trace resolver: a lookahead state machine that decides which
//! timestamp (if any) classifies which exception trace(s) and drives the
//! instant tracker.
//!
//! The caller owns the pull loop: it hands the resolver one stream event at
//! a time and receives the rows that became decidable, together with a
//! directive saying whether to keep pulling. The resolver remembers between
//! calls the one or two exception traces still waiting for a timestamp, so
//! lookahead never needs more than this buffered state.

use vstd::prelude::*;

use crate::packet::{Instant, Packet, Report, StreamEvent, TraceEvent, unknown_report};
use crate::tracker::{
    InstantTracker, TrackerState, advance, spec_loss, spec_observe, spec_standalone,
};

verus! {

/// The exception traces pulled but not yet classified.
#[derive(Clone, Copy, Debug, PartialEq, Eq, Structural)]
pub enum Pending {
    Idle,
    One(TraceEvent),
    Two(TraceEvent, TraceEvent),
}

/// What the caller must do after a step: keep pulling, stop because the
/// stream ended, or stop because an unexpected packet kind arrived at top
/// level (a fatal protocol violation; already-emitted rows remain valid).
#[derive(Clone, Copy, Debug, PartialEq, Eq, Structural)]
pub enum Outcome {
    Proceed,
    Finished,
    Fatal,
}

/// The full transition relation of the engine: from a tracker state, the
/// buffered traces and one stream event to the next tracker state, the next
/// buffer, the rows to emit (in order) and the directive for the caller.
/// [`TraceResolver::step`] is proved to implement exactly this function.
pub open spec fn spec_step(t: TrackerState, p: Pending, ev: StreamEvent) -> (
    TrackerState,
    Pending,
    Seq<Report>,
    Outcome,
) {
    match p {
        Pending::Idle => match ev {
            StreamEvent::EndOfStream => (t, Pending::Idle, Seq::<Report>::empty(), Outcome::Finished),
            StreamEvent::DecodeError => (
                spec_loss(t),
                Pending::Idle,
                Seq::<Report>::empty(),
                Outcome::Proceed,
            ),
            StreamEvent::Item(Packet::Overflow) => (
                spec_loss(t),
                Pending::Idle,
                Seq::<Report>::empty(),
                Outcome::Proceed,
            ),
            StreamEvent::Item(Packet::LocalTimestamp { delta, .. }) => (
                spec_standalone(t, delta),
                Pending::Idle,
                Seq::<Report>::empty(),
                Outcome::Proceed,
            ),
            StreamEvent::Item(Packet::ExceptionTrace(et)) => if t is Disabled {
                // pass-through: a row with the unknown glyph, no lookahead
                (t, Pending::Idle, seq![unknown_report(et)], Outcome::Proceed)
            } else {
                (t, Pending::One(et), Seq::<Report>::empty(), Outcome::Proceed)
            },
            StreamEvent::Item(Packet::Other) => (
                t,
                Pending::Idle,
                Seq::<Report>::empty(),
                Outcome::Fatal,
            ),
        },
        Pending::One(et1) => match ev {
            StreamEvent::Item(Packet::LocalTimestamp { delta, precise }) => (
                spec_observe(t, delta, precise).0,
                Pending::Idle,
                seq![Report { event: et1, instant: spec_observe(t, delta, precise).1 }],
                Outcome::Proceed,
            ),
            StreamEvent::Item(Packet::ExceptionTrace(et2)) => (
                t,
                Pending::Two(et1, et2),
                Seq::<Report>::empty(),
                Outcome::Proceed,
            ),
            // ambiguous lookahead: the held-back packet is re-examined at top
            // level, where an overflow degrades the (already unknown) tracker
            // and any other kind is fatal
            StreamEvent::Item(Packet::Overflow) => (
                TrackerState::Unknown,
                Pending::Idle,
                seq![unknown_report(et1)],
                Outcome::Proceed,
            ),
            StreamEvent::Item(Packet::Other) => (
                TrackerState::Unknown,
                Pending::Idle,
                seq![unknown_report(et1)],
                Outcome::Fatal,
            ),
            StreamEvent::DecodeError => (
                TrackerState::Unknown,
                Pending::Idle,
                seq![unknown_report(et1)],
                Outcome::Proceed,
            ),
            StreamEvent::EndOfStream => (
                t,
                Pending::Idle,
                seq![unknown_report(et1)],
                Outcome::Finished,
            ),
        },
        Pending::Two(et1, et2) => match ev {
            StreamEvent::Item(Packet::LocalTimestamp { delta, precise }) => match t {
                TrackerState::Known { now, .. } => (
                    TrackerState::Known { now: advance(now, delta), precise },
                    Pending::Idle,
                    seq![
                        // the first trace has no timestamp of its own, so it
                        // is imprecise by construction
                        Report {
                            event: et1,
                            instant: Instant::Known { now: advance(now, delta), precise: false },
                        },
                        Report {
                            event: et2,
                            instant: Instant::Known { now: advance(now, delta), precise },
                        },
                    ],
                    Outcome::Proceed,
                ),
                TrackerState::Unknown => (
                    // resynchronization at tick 0: one Reset row, the second
                    // trace reported at the tick the reset defined
                    TrackerState::Known { now: 0, precise: true },
                    Pending::Idle,
                    seq![
                        Report { event: et1, instant: Instant::Reset },
                        Report { event: et2, instant: Instant::Known { now: 0, precise } },
                    ],
                    Outcome::Proceed,
                ),
                // unreachable: traces are never buffered while disabled
                TrackerState::Disabled => (t, Pending::Idle, Seq::<Report>::empty(), Outcome::Proceed),
            },
            StreamEvent::Item(Packet::ExceptionTrace(et3)) => (
                // ambiguous lookahead; the third trace is re-examined at top
                // level and starts waiting for its own timestamp
                TrackerState::Unknown,
                Pending::One(et3),
                seq![unknown_report(et1), unknown_report(et2)],
                Outcome::Proceed,
            ),
            StreamEvent::Item(Packet::Overflow) => (
                TrackerState::Unknown,
                Pending::Idle,
                seq![unknown_report(et1), unknown_report(et2)],
                Outcome::Proceed,
            ),
            StreamEvent::Item(Packet::Other) => (
                TrackerState::Unknown,
                Pending::Idle,
                seq![unknown_report(et1), unknown_report(et2)],
                Outcome::Fatal,
            ),
            StreamEvent::DecodeError => (
                TrackerState::Unknown,
                Pending::Idle,
                seq![unknown_report(et1), unknown_report(et2)],
                Outcome::Proceed,
            ),
            StreamEvent::EndOfStream => (
                t,
                Pending::Idle,
                seq![unknown_report(et1), unknown_report(et2)],
                Outcome::Finished,
            ),
        },
    }
}

/// The resolver session: the instant tracker plus the buffered traces.
pub struct TraceResolver {
    pub tracker: InstantTracker,
    pub pending: Pending,
}

impl TraceResolver {
    /// Traces are only buffered while timestamps are in play, and the tick
    /// counter stays inside its domain.
    pub open spec fn wf(&self) -> bool {
        &&& self.tracker.wf()
        &&& !(self.pending is Idle) ==> !(self.tracker.state is Disabled)
    }

    /// A fresh session: no buffered trace, tracker `Unknown` when the
    /// operator expects timestamps, else `Disabled`.
    pub fn new(expect_timestamps: bool) -> (r: TraceResolver)
        ensures
            r.wf(),
            r.pending == Pending::Idle,
            r.tracker.state == if expect_timestamps {
                TrackerState::Unknown
            } else {
                TrackerState::Disabled
            },
    {
        TraceResolver { tracker: InstantTracker::new(expect_timestamps), pending: Pending::Idle }
    }

    /// Feed one stream event; returns the rows that became decidable, in
    /// the order they must be emitted, and the directive for the caller.
    pub fn step(&mut self, ev: StreamEvent) -> (r: (Vec<Report>, Outcome))
        requires
            old(self).wf(),
        ensures
            final(self).wf(),
            ({
                let (t2, p2, reps, out) = spec_step(
                    old(self).tracker.state,
                    old(self).pending,
                    ev,
                );
                &&& final(self).tracker.state == t2
                &&& final(self).pending == p2
                &&& r.0@ == reps
                &&& r.1 == out
            }),
    {
        let ghost spec_result = spec_step(self.tracker.state, self.pending, ev);
        let mut reports: Vec<Report> = Vec::new();
        let outcome: Outcome;
        match self.pending {
            Pending::Idle => match ev {
                StreamEvent::EndOfStream => {
                    outcome = Outcome::Finished;
                },
                StreamEvent::DecodeError => {
                    self.tracker.observe_decode_error();
                    outcome = Outcome::Proceed;
                },
                StreamEvent::Item(Packet::Overflow) => {
                    self.tracker.observe_overflow();
                    outcome = Outcome::Proceed;
                },
                StreamEvent::Item(Packet::LocalTimestamp { delta, .. }) => {
                    self.tracker.observe_standalone_timestamp(delta);
                    outcome = Outcome::Proceed;
                },
                StreamEvent::Item(Packet::ExceptionTrace(et)) => {
                    if matches!(self.tracker.state, TrackerState::Disabled) {
                        reports.push(Report { event: et, instant: Instant::Unknown });
                    } else {
                        self.pending = Pending::One(et);
                    }
                    outcome = Outcome::Proceed;
                },
                StreamEvent::Item(Packet::Other) => {
                    outcome = Outcome::Fatal;
                },
            },
            Pending::One(et1) => match ev {
                StreamEvent::Item(Packet::LocalTimestamp { delta, precise }) => {
                    let inst = self.tracker.observe_timestamp(delta, precise);
                    reports.push(Report { event: et1, instant: inst });
                    self.pending = Pending::Idle;
                    outcome = Outcome::Proceed;
                },
                StreamEvent::Item(Packet::ExceptionTrace(et2)) => {
                    self.pending = Pending::Two(et1, et2);
                    outcome = Outcome::Proceed;
                },
                StreamEvent::Item(Packet::Overflow) => {
                    reports.push(Report { event: et1, instant: Instant::Unknown });
                    self.tracker.force_unknown();
                    self.pending = Pending::Idle;
                    outcome = Outcome::Proceed;
                },
                StreamEvent::Item(Packet::Other) => {
                    reports.push(Report { event: et1, instant: Instant::Unknown });
                    self.tracker.force_unknown();
                    self.pending = Pending::Idle;
                    outcome = Outcome::Fatal;
                },
                StreamEvent::DecodeError => {
                    reports.push(Report { event: et1, instant: Instant::Unknown });
                    self.tracker.force_unknown();
                    self.pending = Pending::Idle;
                    outcome = Outcome::Proceed;
                },
                StreamEvent::EndOfStream => {
                    reports.push(Report { event: et1, instant: Instant::Unknown });
                    self.pending = Pending::Idle;
                    outcome = Outcome::Finished;
                },
            },
            Pending::Two(et1, et2) => match ev {
                StreamEvent::Item(Packet::LocalTimestamp { delta, precise }) => {
                    let inst = self.tracker.observe_timestamp(delta, precise);
                    match inst {
                        Instant::Known { now, .. } => {
                            reports.push(Report {
                                event: et1,
                                instant: Instant::Known { now, precise: false },
                            });
                            reports.push(Report {
                                event: et2,
                                instant: Instant::Known { now, precise },
                            });
                        },
                        Instant::Reset => {
                            reports.push(Report { event: et1, instant: Instant::Reset });
                            reports.push(Report {
                                event: et2,
                                instant: Instant::Known { now: 0, precise },
                            });
                        },
                        Instant::Unknown => {},
                    }
                    self.pending = Pending::Idle;
                    outcome = Outcome::Proceed;
                },
                StreamEvent::Item(Packet::ExceptionTrace(et3)) => {
                    reports.push(Report { event: et1, instant: Instant::Unknown });
                    reports.push(Report { event: et2, instant: Instant::Unknown });
                    self.tracker.force_unknown();
                    self.pending = Pending::One(et3);
                    outcome = Outcome::Proceed;
                },
                StreamEvent::Item(Packet::Overflow) => {
                    reports.push(Report { event: et1, instant: Instant::Unknown });
                    reports.push(Report { event: et2, instant: Instant::Unknown });
                    self.tracker.force_unknown();
                    self.pending = Pending::Idle;
                    outcome = Outcome::Proceed;
                },
                StreamEvent::Item(Packet::Other) => {
                    reports.push(Report { event: et1, instant: Instant::Unknown });
                    reports.push(Report { event: et2, instant: Instant::Unknown });
                    self.tracker.force_unknown();
                    self.pending = Pending::Idle;
                    outcome = Outcome::Fatal;
                },
                StreamEvent::DecodeError => {
                    reports.push(Report { event: et1, instant: Instant::Unknown });
                    reports.push(Report { event: et2, instant: Instant::Unknown });
                    self.tracker.force_unknown();
                    self.pending = Pending::Idle;
                    outcome = Outcome::Proceed;
                },
                StreamEvent::EndOfStream => {
                    reports.push(Report { event: et1, instant: Instant::Unknown });
                    reports.push(Report { event: et2, instant: Instant::Unknown });
                    self.pending = Pending::Idle;
                    outcome = Outcome::Finished;
                },
            },
        }
        proof {
            assert(reports@ =~= spec_result.2);
        }
        (reports, outcome)
    }
}

} // verus!
