use excevt::packet::{Function, Instant, Packet, Report, StreamEvent, TraceEvent};
use excevt::resolver::{Outcome, Pending, TraceResolver};
use excevt::tracker::{InstantTracker, TrackerState, TICK_MODULUS, WRAP_DELTA, WRAP_STEP};

fn et(number: u16) -> TraceEvent {
    TraceEvent {
        number,
        function: Function::Enter,
    }
}

fn trace(number: u16) -> StreamEvent {
    StreamEvent::Item(Packet::ExceptionTrace(et(number)))
}

fn lts(delta: u32, precise: bool) -> StreamEvent {
    StreamEvent::Item(Packet::LocalTimestamp { delta, precise })
}

#[test]
fn monotonic_reconstruction_no_loss() {
    // P-style end-to-end run with no loss: every reported instant is Known
    // and the counter only moves forward by the observed deltas.
    let mut r = TraceResolver::new(true);
    // anchor the tracker first
    let (reps, out) = r.step(trace(16));
    assert!(reps.is_empty());
    assert_eq!(out, Outcome::Proceed);
    let (reps, _) = r.step(lts(5, true));
    assert_eq!(reps[0].instant, Instant::Reset);

    let mut last: u32 = 0;
    let deltas = [3u32, 10, 0, 250, 1];
    for (i, d) in deltas.iter().enumerate() {
        let (reps, out) = r.step(trace(16 + i as u16));
        assert!(reps.is_empty());
        assert_eq!(out, Outcome::Proceed);
        let (reps, out) = r.step(lts(*d, true));
        assert_eq!(out, Outcome::Proceed);
        assert_eq!(reps.len(), 1);
        match reps[0].instant {
            Instant::Known { now, precise } => {
                assert!(precise);
                assert_eq!(now, last + d);
                assert!(now >= last);
                last = now;
            }
            _ => panic!("expected a Known instant"),
        }
    }
    // the standalone wraparound signature jumps forward by two million
    let (reps, out) = r.step(lts(WRAP_DELTA, true));
    assert!(reps.is_empty());
    assert_eq!(out, Outcome::Proceed);
    assert_eq!(
        r.tracker.state,
        TrackerState::Known {
            now: last + WRAP_STEP,
            precise: true
        }
    );
}

#[test]
fn counter_wraps_at_domain() {
    let mut t = InstantTracker::new(true);
    t.state = TrackerState::Known {
        now: TICK_MODULUS - 1,
        precise: true,
    };
    let inst = t.observe_timestamp(5, true);
    assert_eq!(
        inst,
        Instant::Known {
            now: 4,
            precise: true
        }
    );
    assert_eq!(
        t.state,
        TrackerState::Known {
            now: 4,
            precise: true
        }
    );
}

#[test]
fn double_trace_pairing() {
    // from Known { now: 100 }: [trace A, trace B, timestamp(7, precise)]
    // yields two rows at 107; A imprecise by construction, B precise.
    let mut r = TraceResolver::new(true);
    r.tracker.state = TrackerState::Known {
        now: 100,
        precise: true,
    };
    let (reps, _) = r.step(trace(2));
    assert!(reps.is_empty());
    let (reps, _) = r.step(trace(3));
    assert!(reps.is_empty());
    assert_eq!(r.pending, Pending::Two(et(2), et(3)));
    let (reps, out) = r.step(lts(7, true));
    assert_eq!(out, Outcome::Proceed);
    assert_eq!(
        reps,
        vec![
            Report {
                event: et(2),
                instant: Instant::Known {
                    now: 107,
                    precise: false
                }
            },
            Report {
                event: et(3),
                instant: Instant::Known {
                    now: 107,
                    precise: true
                }
            },
        ]
    );
    assert_eq!(
        r.tracker.state,
        TrackerState::Known {
            now: 107,
            precise: true
        }
    );
}

#[test]
fn resynchronization_reset() {
    // from Unknown: [trace A, timestamp] yields exactly one Reset row and
    // the tracker is anchored at tick 0, reliable.
    let mut r = TraceResolver::new(true);
    assert_eq!(r.tracker.state, TrackerState::Unknown);
    let (reps, _) = r.step(trace(11));
    assert!(reps.is_empty());
    let (reps, out) = r.step(lts(42, false));
    assert_eq!(out, Outcome::Proceed);
    assert_eq!(
        reps,
        vec![Report {
            event: et(11),
            instant: Instant::Reset
        }]
    );
    assert_eq!(
        r.tracker.state,
        TrackerState::Known {
            now: 0,
            precise: true
        }
    );
}

#[test]
fn end_of_stream_flushes_single_trace() {
    let mut r = TraceResolver::new(true);
    let (_, _) = r.step(trace(5));
    let (reps, out) = r.step(StreamEvent::EndOfStream);
    assert_eq!(out, Outcome::Finished);
    assert_eq!(
        reps,
        vec![Report {
            event: et(5),
            instant: Instant::Unknown
        }]
    );
}

#[test]
fn end_of_stream_flushes_double_trace() {
    let mut r = TraceResolver::new(true);
    let (_, _) = r.step(trace(5));
    let (_, _) = r.step(trace(6));
    let (reps, out) = r.step(StreamEvent::EndOfStream);
    assert_eq!(out, Outcome::Finished);
    assert_eq!(
        reps,
        vec![
            Report {
                event: et(5),
                instant: Instant::Unknown
            },
            Report {
                event: et(6),
                instant: Instant::Unknown
            },
        ]
    );
}

#[test]
fn decode_error_forces_unknown() {
    let mut r = TraceResolver::new(true);
    r.tracker.state = TrackerState::Known {
        now: 500,
        precise: true,
    };
    let (reps, out) = r.step(StreamEvent::DecodeError);
    assert!(reps.is_empty());
    assert_eq!(out, Outcome::Proceed);
    assert_eq!(r.tracker.state, TrackerState::Unknown);
    // the next trace is reported Unknown-free only after a fresh timestamp
    let (reps, _) = r.step(trace(1));
    assert!(reps.is_empty());
    let (reps, _) = r.step(lts(9, true));
    assert_eq!(reps[0].instant, Instant::Reset);
}

#[test]
fn overflow_forces_unknown() {
    let mut r = TraceResolver::new(true);
    r.tracker.state = TrackerState::Known {
        now: 500,
        precise: true,
    };
    let (reps, out) = r.step(StreamEvent::Item(Packet::Overflow));
    assert!(reps.is_empty());
    assert_eq!(out, Outcome::Proceed);
    assert_eq!(r.tracker.state, TrackerState::Unknown);
}

#[test]
fn ambiguous_lookahead_forces_unknown() {
    // three traces in a row: the first two are flushed Unknown, the third
    // starts its own wait, and the tracker degrades.
    let mut r = TraceResolver::new(true);
    r.tracker.state = TrackerState::Known {
        now: 500,
        precise: true,
    };
    let (_, _) = r.step(trace(1));
    let (_, _) = r.step(trace(2));
    let (reps, out) = r.step(trace(3));
    assert_eq!(out, Outcome::Proceed);
    assert_eq!(
        reps,
        vec![
            Report {
                event: et(1),
                instant: Instant::Unknown
            },
            Report {
                event: et(2),
                instant: Instant::Unknown
            },
        ]
    );
    assert_eq!(r.tracker.state, TrackerState::Unknown);
    assert_eq!(r.pending, Pending::One(et(3)));
}

#[test]
fn overflow_during_lookahead_forces_unknown() {
    let mut r = TraceResolver::new(true);
    r.tracker.state = TrackerState::Known {
        now: 500,
        precise: true,
    };
    let (_, _) = r.step(trace(1));
    let (reps, out) = r.step(StreamEvent::Item(Packet::Overflow));
    assert_eq!(out, Outcome::Proceed);
    assert_eq!(
        reps,
        vec![Report {
            event: et(1),
            instant: Instant::Unknown
        }]
    );
    assert_eq!(r.tracker.state, TrackerState::Unknown);
    assert_eq!(r.pending, Pending::Idle);
}

#[test]
fn standalone_timestamp_with_stray_delta_loses_sync() {
    let mut t = InstantTracker::new(true);
    t.state = TrackerState::Known {
        now: 500,
        precise: true,
    };
    t.observe_standalone_timestamp(7);
    assert_eq!(t.state, TrackerState::Unknown);
}

#[test]
fn standalone_wrap_signature_keeps_sync() {
    let mut t = InstantTracker::new(true);
    t.state = TrackerState::Known {
        now: 500,
        precise: false,
    };
    t.observe_standalone_timestamp(WRAP_DELTA);
    assert_eq!(
        t.state,
        TrackerState::Known {
            now: 500 + WRAP_STEP,
            precise: false
        }
    );
}

#[test]
fn disabled_mode_is_pass_through() {
    // timestamps not expected: every trace is reported at once, Unknown,
    // with no lookahead, and loss events cannot touch the state.
    let mut r = TraceResolver::new(false);
    assert_eq!(r.tracker.state, TrackerState::Disabled);
    for n in [0u16, 3, 15, 40] {
        let (reps, out) = r.step(trace(n));
        assert_eq!(out, Outcome::Proceed);
        assert_eq!(
            reps,
            vec![Report {
                event: et(n),
                instant: Instant::Unknown
            }]
        );
        assert_eq!(r.pending, Pending::Idle);
        assert_eq!(r.tracker.state, TrackerState::Disabled);
    }
    let (_, _) = r.step(StreamEvent::Item(Packet::Overflow));
    assert_eq!(r.tracker.state, TrackerState::Disabled);
    let (_, _) = r.step(StreamEvent::DecodeError);
    assert_eq!(r.tracker.state, TrackerState::Disabled);
}

#[test]
fn first_timestamp_while_disabled_establishes_unknown() {
    let mut r = TraceResolver::new(false);
    let (reps, out) = r.step(lts(7, false));
    assert!(reps.is_empty());
    assert_eq!(out, Outcome::Proceed);
    assert_eq!(r.tracker.state, TrackerState::Unknown);
}

#[test]
fn unexpected_packet_at_top_level_is_fatal() {
    let mut r = TraceResolver::new(true);
    let (reps, out) = r.step(StreamEvent::Item(Packet::Other));
    assert!(reps.is_empty());
    assert_eq!(out, Outcome::Fatal);
}

#[test]
fn unexpected_packet_during_lookahead_flushes_then_fatal() {
    let mut r = TraceResolver::new(true);
    let (_, _) = r.step(trace(9));
    let (reps, out) = r.step(StreamEvent::Item(Packet::Other));
    assert_eq!(out, Outcome::Fatal);
    assert_eq!(
        reps,
        vec![Report {
            event: et(9),
            instant: Instant::Unknown
        }]
    );
    assert_eq!(r.tracker.state, TrackerState::Unknown);
}

#[test]
fn double_trace_resynchronization() {
    // two traces waiting while synchronization is lost: the timestamp that
    // resolves them resynchronizes; one Reset row, the second at tick 0.
    let mut r = TraceResolver::new(true);
    let (_, _) = r.step(trace(1));
    let (_, _) = r.step(trace(2));
    let (reps, out) = r.step(lts(8, true));
    assert_eq!(out, Outcome::Proceed);
    assert_eq!(
        reps,
        vec![
            Report {
                event: et(1),
                instant: Instant::Reset
            },
            Report {
                event: et(2),
                instant: Instant::Known {
                    now: 0,
                    precise: true
                }
            },
        ]
    );
    assert_eq!(
        r.tracker.state,
        TrackerState::Known {
            now: 0,
            precise: true
        }
    );
}

#[test]
fn single_trace_known_inherits_precision() {
    let mut r = TraceResolver::new(true);
    r.tracker.state = TrackerState::Known {
        now: 10,
        precise: true,
    };
    let (_, _) = r.step(trace(14));
    let (reps, _) = r.step(lts(5, false));
    assert_eq!(
        reps,
        vec![Report {
            event: et(14),
            instant: Instant::Known {
                now: 15,
                precise: false
            }
        }]
    );
    assert_eq!(
        r.tracker.state,
        TrackerState::Known {
            now: 15,
            precise: false
        }
    );
}
