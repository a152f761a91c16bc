//! The engine's guarantees, stated over the transition relation
//! [`spec_step`] and its fold [`spec_run`] and proved once and for all.

use vstd::prelude::*;

use vstd::arithmetic::div_mod::{lemma_add_mod_noop, lemma_mod_twice};

use crate::packet::{Instant, Packet, Report, StreamEvent, TraceEvent, unknown_report};
use crate::resolver::{Outcome, Pending, spec_step};
use crate::tracker::{TrackerState, advance, TICK_MODULUS, WRAP_DELTA, WRAP_STEP};

verus! {

/// Folding [`spec_step`] over a whole event sequence: the final tracker
/// state, the final buffer, and every row emitted along the way, in order.
pub open spec fn spec_run(t: TrackerState, p: Pending, evs: Seq<StreamEvent>) -> (
    TrackerState,
    Pending,
    Seq<Report>,
)
    decreases evs.len(),
{
    if evs.len() == 0 {
        (t, p, Seq::<Report>::empty())
    } else {
        let first = spec_step(t, p, evs[0]);
        let rest = spec_run(first.0, first.1, evs.drop_first());
        (rest.0, rest.1, first.2 + rest.2)
    }
}

/// Is this event a decoded local timestamp packet?
pub open spec fn is_lts(ev: StreamEvent) -> bool {
    ev matches StreamEvent::Item(Packet::LocalTimestamp { .. })
}

/// Is this event a decoded exception trace packet?
pub open spec fn is_trace(ev: StreamEvent) -> bool {
    ev matches StreamEvent::Item(Packet::ExceptionTrace(_))
}

/// The delta carried by a local timestamp event.
pub open spec fn delta_of(ev: StreamEvent) -> u32
    recommends
        is_lts(ev),
{
    ev->Item_0->LocalTimestamp_delta
}

/// The precision flag carried by a local timestamp event.
pub open spec fn precise_of(ev: StreamEvent) -> bool
    recommends
        is_lts(ev),
{
    ev->Item_0->LocalTimestamp_precise
}

/// A packet sequence with no loss and no ambiguity: standalone local
/// timestamps only as the documented wraparound signature, and every
/// exception trace (or pair of them) classified by the timestamp that
/// follows it.
pub open spec fn no_loss(evs: Seq<StreamEvent>) -> bool
    decreases evs.len(),
{
    if evs.len() == 0 {
        true
    } else if is_lts(evs[0]) {
        delta_of(evs[0]) == WRAP_DELTA && no_loss(evs.drop_first())
    } else if is_trace(evs[0]) {
        if evs.len() >= 2 && is_lts(evs[1]) {
            no_loss(evs.skip(2))
        } else if evs.len() >= 3 && is_trace(evs[1]) && is_lts(evs[2]) {
            no_loss(evs.skip(3))
        } else {
            false
        }
    } else {
        false
    }
}

/// How far a lossless sequence advances the tick counter: each classifying
/// timestamp contributes its delta, each wraparound signature its
/// two-million-tick step.
pub open spec fn ticks_of(evs: Seq<StreamEvent>) -> int
    decreases evs.len(),
{
    if evs.len() == 0 {
        0
    } else if is_lts(evs[0]) {
        WRAP_STEP + ticks_of(evs.drop_first())
    } else if is_trace(evs[0]) {
        if evs.len() >= 2 && is_lts(evs[1]) {
            delta_of(evs[1]) + ticks_of(evs.skip(2))
        } else if evs.len() >= 3 && is_lts(evs[2]) {
            delta_of(evs[2]) + ticks_of(evs.skip(3))
        } else {
            0
        }
    } else {
        0
    }
}

/// How many exception traces a lossless sequence carries: one per
/// trace-timestamp group, two per double-trace group.
pub open spec fn traces_of(evs: Seq<StreamEvent>) -> int
    decreases evs.len(),
{
    if evs.len() == 0 {
        0
    } else if is_lts(evs[0]) {
        traces_of(evs.drop_first())
    } else if is_trace(evs[0]) {
        if evs.len() >= 2 && is_lts(evs[1]) {
            1 + traces_of(evs.skip(2))
        } else if evs.len() >= 3 && is_lts(evs[2]) {
            2 + traces_of(evs.skip(3))
        } else {
            0
        }
    } else {
        0
    }
}

/// Reducing an already reduced value before an addition does not change the
/// final reduction.
proof fn lemma_mod_shift(x: int, y: int, m: int)
    requires
        m > 0,
    ensures
        ((x % m) + y) % m == (x + y) % m,
{
    lemma_mod_twice(x, m);
    lemma_add_mod_noop(x % m, y, m);
    lemma_add_mod_noop(x, y, m);
}

/// Monotonic reconstruction: over any lossless sequence the tracker stays
/// anchored, nothing is buffered at the end, every exception trace yields
/// exactly one row, every row carries a `Known` instant, and the final
/// counter is the initial counter advanced by exactly the sum of the
/// observed deltas, reduced into the wraparound domain — the counter only
/// ever moves forward by what the stream says, with the standalone
/// wraparound signature contributing its documented two-million-tick jump.
pub proof fn lemma_monotonic_reconstruction(n: u32, q: bool, evs: Seq<StreamEvent>)
    requires
        n < TICK_MODULUS,
        no_loss(evs),
    ensures
        ({
            let r = spec_run(TrackerState::Known { now: n, precise: q }, Pending::Idle, evs);
            &&& r.1 == Pending::Idle
            &&& r.0 matches TrackerState::Known { now, .. } && now == (n + ticks_of(evs)) % (
            TICK_MODULUS as int)
            &&& r.2.len() == traces_of(evs)
            &&& forall|i: int| 0 <= i < r.2.len() ==> (#[trigger] r.2[i]).instant is Known
        }),
    decreases evs.len(),
{
    let t0 = TrackerState::Known { now: n, precise: q };
    let m = TICK_MODULUS as int;
    if evs.len() == 0 {
        assert((n as int) % m == n as int) by {
            vstd::arithmetic::div_mod::lemma_small_mod(n as nat, TICK_MODULUS as nat);
        }
    } else if is_lts(evs[0]) {
        let n2 = advance(n, WRAP_STEP);
        let rest = evs.drop_first();
        lemma_monotonic_reconstruction(n2, q, rest);
        lemma_mod_shift(n + WRAP_STEP, ticks_of(rest), m);
        assert(spec_run(t0, Pending::Idle, evs).2 =~= spec_run(
            TrackerState::Known { now: n2, precise: q },
            Pending::Idle,
            rest,
        ).2);
    } else if evs.len() >= 2 && is_lts(evs[1]) {
        let delta = delta_of(evs[1]);
        let precise = precise_of(evs[1]);
        let n2 = advance(n, delta);
        let rest = evs.skip(2);
        assert(evs.drop_first().drop_first() =~= rest);
        lemma_monotonic_reconstruction(n2, precise, rest);
        lemma_mod_shift(n + delta, ticks_of(rest), m);
        let step1 = spec_step(t0, Pending::Idle, evs[0]);
        let step2 = spec_step(step1.0, step1.1, evs[1]);
        assert(evs.drop_first()[0] == evs[1]);
        assert(spec_run(t0, Pending::Idle, evs).2 == step1.2 + spec_run(
            step1.0,
            step1.1,
            evs.drop_first(),
        ).2);
        assert(spec_run(step1.0, step1.1, evs.drop_first()).2 == step2.2 + spec_run(
            step2.0,
            step2.1,
            rest,
        ).2);
        assert(spec_run(t0, Pending::Idle, evs).2 =~= step2.2 + spec_run(
            step2.0,
            step2.1,
            rest,
        ).2);
    } else {
        let delta = delta_of(evs[2]);
        let precise = precise_of(evs[2]);
        let n2 = advance(n, delta);
        let rest = evs.skip(3);
        assert(evs.drop_first().drop_first().drop_first() =~= rest);
        lemma_monotonic_reconstruction(n2, precise, rest);
        lemma_mod_shift(n + delta, ticks_of(rest), m);
        let step1 = spec_step(t0, Pending::Idle, evs[0]);
        let step2 = spec_step(step1.0, step1.1, evs[1]);
        let step3 = spec_step(step2.0, step2.1, evs[2]);
        assert(evs.drop_first()[0] == evs[1]);
        assert(evs.drop_first().drop_first()[0] == evs[2]);
        assert(spec_run(t0, Pending::Idle, evs).2 == step1.2 + spec_run(
            step1.0,
            step1.1,
            evs.drop_first(),
        ).2);
        assert(spec_run(step1.0, step1.1, evs.drop_first()).2 == step2.2 + spec_run(
            step2.0,
            step2.1,
            evs.drop_first().drop_first(),
        ).2);
        assert(spec_run(step2.0, step2.1, evs.drop_first().drop_first()).2 == step3.2 + spec_run(
            step3.0,
            step3.1,
            rest,
        ).2);
        assert(spec_run(t0, Pending::Idle, evs).2 =~= step3.2 + spec_run(
            step3.0,
            step3.1,
            rest,
        ).2);
    }
}

/// Double-trace pairing: two exception traces followed by one timestamp,
/// starting from an anchored counter, yield exactly two rows at the same
/// advanced tick; the first is imprecise by construction, the second
/// inherits the timestamp's precision.
pub proof fn lemma_double_trace_pairing(
    a: TraceEvent,
    b: TraceEvent,
    d: u32,
    p: bool,
    n: u32,
    q: bool,
)
    requires
        n < TICK_MODULUS,
    ensures
        ({
            let evs = seq![
                StreamEvent::Item(Packet::ExceptionTrace(a)),
                StreamEvent::Item(Packet::ExceptionTrace(b)),
                StreamEvent::Item(Packet::LocalTimestamp { delta: d, precise: p }),
            ];
            let r = spec_run(TrackerState::Known { now: n, precise: q }, Pending::Idle, evs);
            &&& r.2 =~= seq![
                Report { event: a, instant: Instant::Known { now: advance(n, d), precise: false } },
                Report { event: b, instant: Instant::Known { now: advance(n, d), precise: p } },
            ]
            &&& r.0 == TrackerState::Known { now: advance(n, d), precise: p }
            &&& r.1 == Pending::Idle
        }),
{
    let evs = seq![
        StreamEvent::Item(Packet::ExceptionTrace(a)),
        StreamEvent::Item(Packet::ExceptionTrace(b)),
        StreamEvent::Item(Packet::LocalTimestamp { delta: d, precise: p }),
    ];
    assert(evs.drop_first() =~= seq![evs[1], evs[2]]);
    assert(evs.drop_first().drop_first() =~= seq![evs[2]]);
    assert(evs.drop_first().drop_first().drop_first() =~= Seq::<StreamEvent>::empty());
    reveal_with_fuel(spec_run, 5);
}

/// Resynchronization reset: out of `Unknown`, a trace classified by a
/// timestamp yields exactly one `Reset` row, and the tracker is anchored at
/// tick 0 with a reliable flag for everything that follows.
pub proof fn lemma_resynchronization_reset(a: TraceEvent, d: u32, p: bool)
    ensures
        ({
            let evs = seq![
                StreamEvent::Item(Packet::ExceptionTrace(a)),
                StreamEvent::Item(Packet::LocalTimestamp { delta: d, precise: p }),
            ];
            let r = spec_run(TrackerState::Unknown, Pending::Idle, evs);
            &&& r.2 =~= seq![Report { event: a, instant: Instant::Reset }]
            &&& r.0 == TrackerState::Known { now: 0, precise: true }
            &&& r.1 == Pending::Idle
        }),
{
    let evs = seq![
        StreamEvent::Item(Packet::ExceptionTrace(a)),
        StreamEvent::Item(Packet::LocalTimestamp { delta: d, precise: p }),
    ];
    assert(evs.drop_first() =~= seq![evs[1]]);
    assert(evs.drop_first().drop_first() =~= Seq::<StreamEvent>::empty());
    reveal_with_fuel(spec_run, 4);
}

/// End-of-stream flush: whatever is buffered when the stream ends is still
/// emitted, classified `Unknown`, and the run finishes; nothing is silently
/// dropped.
pub proof fn lemma_end_of_stream_flush(t: TrackerState, p: Pending)
    ensures
        spec_step(t, p, StreamEvent::EndOfStream).3 == Outcome::Finished,
        spec_step(t, p, StreamEvent::EndOfStream).2 =~= match p {
            Pending::Idle => Seq::<Report>::empty(),
            Pending::One(e1) => seq![unknown_report(e1)],
            Pending::Two(e1, e2) => seq![unknown_report(e1), unknown_report(e2)],
        },
{
}

/// Loss degrades: a decode error or an overflow packet, in any state where
/// timestamps are in play, forces the tracker to `Unknown`, and no row it
/// emits claims a known instant.
pub proof fn lemma_loss_forces_unknown(t: TrackerState, p: Pending, ev: StreamEvent)
    requires
        !(t is Disabled),
        ev == StreamEvent::DecodeError || ev == StreamEvent::Item(Packet::Overflow),
    ensures
        spec_step(t, p, ev).0 == TrackerState::Unknown,
        forall|i: int|
            0 <= i < spec_step(t, p, ev).2.len() ==> (#[trigger] spec_step(t, p, ev).2[i]).instant
                == Instant::Unknown,
{
}

/// Ambiguous lookahead degrades: while traces wait for a timestamp, any
/// event other than a timestamp, a second trace joining the wait, or the end
/// of the stream forces the tracker to `Unknown` and classifies every
/// emitted row `Unknown`.
pub proof fn lemma_ambiguous_lookahead_degrades(t: TrackerState, p: Pending, ev: StreamEvent)
    requires
        !(p is Idle),
        !(ev matches StreamEvent::Item(Packet::LocalTimestamp { .. })),
        ev != StreamEvent::EndOfStream,
        !(p is One && ev matches StreamEvent::Item(Packet::ExceptionTrace(_))),
    ensures
        spec_step(t, p, ev).0 == TrackerState::Unknown,
        forall|i: int|
            0 <= i < spec_step(t, p, ev).2.len() ==> (#[trigger] spec_step(t, p, ev).2[i]).instant
                == Instant::Unknown,
{
}

/// Loss never fabricates confidence: once the tracker is `Unknown`, every
/// row emitted over any sequence containing no local timestamp is classified
/// `Unknown`, and the tracker is still `Unknown` at the end — only a fresh
/// timestamp can re-establish a known instant.
pub proof fn lemma_no_confidence_without_timestamp(p: Pending, evs: Seq<StreamEvent>)
    requires
        forall|i: int|
            0 <= i < evs.len() ==> !((#[trigger] evs[i]) matches StreamEvent::Item(
                Packet::LocalTimestamp { .. },
            )),
    ensures
        spec_run(TrackerState::Unknown, p, evs).0 == TrackerState::Unknown,
        forall|i: int|
            0 <= i < spec_run(TrackerState::Unknown, p, evs).2.len() ==> (#[trigger] spec_run(
                TrackerState::Unknown,
                p,
                evs,
            ).2[i]).instant == Instant::Unknown,
    decreases evs.len(),
{
    if evs.len() > 0 {
        let first = spec_step(TrackerState::Unknown, p, evs[0]);
        assert(first.0 == TrackerState::Unknown);
        assert(forall|i: int|
            0 <= i < first.2.len() ==> (#[trigger] first.2[i]).instant == Instant::Unknown);
        assert(forall|i: int|
            0 <= i < evs.drop_first().len() ==> !((#[trigger] evs.drop_first()[i])
                matches StreamEvent::Item(Packet::LocalTimestamp { .. })));
        lemma_no_confidence_without_timestamp(first.1, evs.drop_first());
    }
}

/// Disabled mode is pass-through: when timestamps are not expected, an
/// exception trace is reported at once with the `Unknown` classification and
/// nothing is buffered for lookahead.
pub proof fn lemma_disabled_passthrough(et: TraceEvent)
    ensures
        spec_step(TrackerState::Disabled, Pending::Idle, StreamEvent::Item(
            Packet::ExceptionTrace(et),
        )) == (
            TrackerState::Disabled,
            Pending::Idle,
            seq![unknown_report(et)],
            Outcome::Proceed,
        ),
{
    assert(spec_step(TrackerState::Disabled, Pending::Idle, StreamEvent::Item(
        Packet::ExceptionTrace(et),
    )).2 =~= seq![unknown_report(et)]);
}

/// Disabled mode stays disabled over any sequence that never carries a local
/// timestamp (the one packet that establishes timestamps are in use):
/// overflows and decode errors cannot touch it, no lookahead ever starts,
/// and every emitted row is classified `Unknown`.
pub proof fn lemma_disabled_run(evs: Seq<StreamEvent>)
    requires
        forall|i: int|
            0 <= i < evs.len() ==> !((#[trigger] evs[i]) matches StreamEvent::Item(
                Packet::LocalTimestamp { .. },
            )),
    ensures
        spec_run(TrackerState::Disabled, Pending::Idle, evs).0 == TrackerState::Disabled,
        spec_run(TrackerState::Disabled, Pending::Idle, evs).1 == Pending::Idle,
        forall|i: int|
            0 <= i < spec_run(TrackerState::Disabled, Pending::Idle, evs).2.len() ==> (
            #[trigger] spec_run(TrackerState::Disabled, Pending::Idle, evs).2[i]).instant
                == Instant::Unknown,
    decreases evs.len(),
{
    if evs.len() > 0 {
        let first = spec_step(TrackerState::Disabled, Pending::Idle, evs[0]);
        assert(first.0 == TrackerState::Disabled && first.1 == Pending::Idle);
        assert(forall|i: int|
            0 <= i < evs.drop_first().len() ==> !((#[trigger] evs.drop_first()[i])
                matches StreamEvent::Item(Packet::LocalTimestamp { .. })));
        lemma_disabled_run(evs.drop_first());
    }
}

} // verus!
