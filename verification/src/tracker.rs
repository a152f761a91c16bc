//! The instant tracker: the running notion of "current hardware tick
//! counter", its reliability state, and the wraparound arithmetic.

use vstd::prelude::*;

use crate::packet::Instant;

verus! {

/// The hardware counter's wraparound domain: `now` always lives in
/// `[0, TICK_MODULUS)`.
pub const TICK_MODULUS: u32 = 1_000_000_000;

/// A standalone local timestamp with exactly this delta is the hardware's
/// documented signature of the counter wrapping at the two-million boundary,
/// not evidence of loss.
pub const WRAP_DELTA: u32 = 1_999_999;

/// How far the counter advances on the wraparound signature.
pub const WRAP_STEP: u32 = 2_000_000;

/// The tracker's state: timestamps not expected at all, synchronization
/// lost, or an anchored tick counter.
#[derive(Clone, Copy, Debug, PartialEq, Eq, Structural)]
pub enum TrackerState {
    Disabled,
    Unknown,
    Known { now: u32, precise: bool },
}

/// Well-formedness: an anchored counter stays inside the wraparound domain.
pub open spec fn state_wf(s: TrackerState) -> bool {
    s matches TrackerState::Known { now, .. } ==> now < TICK_MODULUS
}

/// Counter advance: add a delta and reduce into the wraparound domain.
pub open spec fn advance(now: u32, delta: u32) -> u32 {
    (((now + delta) % (TICK_MODULUS as int)) as u32)
}

/// A loss event (overflow or decode error) degrades any expectation of
/// timestamps to `Unknown`; disabled mode is immune.
pub open spec fn spec_loss(s: TrackerState) -> TrackerState {
    if s is Disabled {
        s
    } else {
        TrackerState::Unknown
    }
}

/// A local timestamp seen with no pending exception trace. The first
/// timestamp ever seen while disabled establishes that timestamps are in
/// use; from an anchored state only the wraparound signature keeps the
/// anchor, any other delta is evidence of loss.
pub open spec fn spec_standalone(s: TrackerState, delta: u32) -> TrackerState {
    match s {
        TrackerState::Disabled => TrackerState::Unknown,
        TrackerState::Unknown => TrackerState::Unknown,
        TrackerState::Known { now, precise } => if delta == WRAP_DELTA {
            TrackerState::Known { now: advance(now, WRAP_STEP), precise }
        } else {
            TrackerState::Unknown
        },
    }
}

/// A local timestamp paired with a pending exception trace: advance the
/// counter and classify the trace, or, out of `Unknown`, resynchronize at
/// tick 0 and classify the trace as `Reset`. Never invoked while disabled;
/// that arm is a placeholder.
pub open spec fn spec_observe(s: TrackerState, delta: u32, precise: bool) -> (TrackerState, Instant) {
    match s {
        TrackerState::Unknown => (
            TrackerState::Known { now: 0, precise: true },
            Instant::Reset,
        ),
        TrackerState::Known { now, .. } => (
            TrackerState::Known { now: advance(now, delta), precise },
            Instant::Known { now: advance(now, delta), precise },
        ),
        TrackerState::Disabled => (TrackerState::Disabled, Instant::Unknown),
    }
}

/// Exec counterpart of [`advance`]: computed in 64 bits so the sum cannot
/// overflow before the reduction.
pub fn advance_ticks(now: u32, delta: u32) -> (r: u32)
    ensures
        r == advance(now, delta),
        r < TICK_MODULUS,
{
    (((now as u64) + (delta as u64)) % (TICK_MODULUS as u64)) as u32
}

/// Owns the running tick counter and its reliability state. Created once at
/// startup and mutated only through the named observation methods.
pub struct InstantTracker {
    pub state: TrackerState,
}

impl InstantTracker {
    pub open spec fn wf(&self) -> bool {
        state_wf(self.state)
    }

    /// Start `Unknown` when the operator expects timestamps, else `Disabled`.
    pub fn new(expect_timestamps: bool) -> (t: InstantTracker)
        ensures
            t.state == if expect_timestamps {
                TrackerState::Unknown
            } else {
                TrackerState::Disabled
            },
            t.wf(),
    {
        InstantTracker {
            state: if expect_timestamps {
                TrackerState::Unknown
            } else {
                TrackerState::Disabled
            },
        }
    }

    /// A timestamp that classifies a pending exception trace: advance the
    /// counter, or resynchronize at tick 0 if synchronization was lost, in
    /// which case the returned classification is `Reset`.
    pub fn observe_timestamp(&mut self, delta: u32, precise: bool) -> (inst: Instant)
        requires
            old(self).wf(),
            !(old(self).state is Disabled),
        ensures
            final(self).state == spec_observe(old(self).state, delta, precise).0,
            inst == spec_observe(old(self).state, delta, precise).1,
            final(self).wf(),
    {
        match self.state {
            TrackerState::Unknown => {
                self.state = TrackerState::Known { now: 0, precise: true };
                Instant::Reset
            },
            TrackerState::Known { now, .. } => {
                let n2 = advance_ticks(now, delta);
                self.state = TrackerState::Known { now: n2, precise };
                Instant::Known { now: n2, precise }
            },
            TrackerState::Disabled => Instant::Unknown,
        }
    }

    /// A packet was dropped for bandwidth: the computed instant is no longer
    /// reliable, unless timestamps were never expected.
    pub fn observe_overflow(&mut self)
        ensures
            final(self).state == spec_loss(old(self).state),
            old(self).wf() ==> final(self).wf(),
    {
        if !matches!(self.state, TrackerState::Disabled) {
            self.state = TrackerState::Unknown;
        }
    }

    /// One or more bytes were unrecoverable: same degradation as an overflow.
    pub fn observe_decode_error(&mut self)
        ensures
            final(self).state == spec_loss(old(self).state),
            old(self).wf() ==> final(self).wf(),
    {
        if !matches!(self.state, TrackerState::Disabled) {
            self.state = TrackerState::Unknown;
        }
    }

    /// A local timestamp with no pending exception trace.
    pub fn observe_standalone_timestamp(&mut self, delta: u32)
        requires
            old(self).wf(),
        ensures
            final(self).state == spec_standalone(old(self).state, delta),
            final(self).wf(),
    {
        match self.state {
            TrackerState::Disabled => {
                self.state = TrackerState::Unknown;
            },
            TrackerState::Unknown => {},
            TrackerState::Known { now, precise } => {
                if delta == WRAP_DELTA {
                    let n2 = advance_ticks(now, WRAP_STEP);
                    self.state = TrackerState::Known { now: n2, precise };
                } else {
                    self.state = TrackerState::Unknown;
                }
            },
        }
    }

    /// Explicit degradation, used after an ambiguous lookahead resolution.
    pub fn force_unknown(&mut self)
        ensures
            final(self).state == TrackerState::Unknown,
            final(self).wf(),
    {
        self.state = TrackerState::Unknown;
    }
}

} // verus!
