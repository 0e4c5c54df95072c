//! Busy polling with an optional deadline: the pure decisions of the spin
//! loop that a process runs while waiting for its turn on a channel. The
//! loop itself reads the clock and the shared state word; every choice it
//! makes in between is taken here, on plain values.

use vstd::prelude::*;

verus! {

/// How long a busy wait may keep polling.
#[derive(Clone, Copy, PartialEq, Eq, Structural, Debug)]
pub enum WaitLimit {
    /// Keep polling forever.
    Infinite,
    /// Give up once the clock passes the moment the wait began plus `nanos`.
    Bounded { nanos: u64 },
}

/// The deadline a bounded wait computes once, when it starts: the clock
/// reading `now` plus the allowed duration, saturated at the largest
/// representable instant. An infinite wait has no deadline.
pub open spec fn spec_deadline(now: u64, limit: WaitLimit) -> Option<u64> {
    match limit {
        WaitLimit::Infinite => None,
        WaitLimit::Bounded { nanos } => Some(
            if now + nanos <= u64::MAX {
                (now + nanos) as u64
            } else {
                u64::MAX
            },
        ),
    }
}

/// Compute the deadline of a wait that starts at clock reading `now`.
pub fn deadline_from(now: u64, limit: WaitLimit) -> (deadline: Option<u64>)
    ensures
        deadline == spec_deadline(now, limit),
{
    match limit {
        WaitLimit::Infinite => None,
        WaitLimit::Bounded { nanos } => Some(
            if u64::MAX - now >= nanos {
                now + nanos
            } else {
                u64::MAX
            },
        ),
    }
}

/// A wait has run out exactly when it has a deadline and the clock has gone
/// strictly past it.
pub open spec fn spec_expired(now: u64, deadline: Option<u64>) -> bool {
    match deadline {
        Option::None => false,
        Option::Some(d) => now > d,
    }
}

/// Check a clock reading against the deadline computed when the wait began.
pub fn expired(now: u64, deadline: Option<u64>) -> (r: bool)
    ensures
        r == spec_expired(now, deadline),
{
    match deadline {
        Option::None => false,
        Option::Some(d) => now > d,
    }
}

/// One more failed poll: the spin count sticks at the maximum rather than
/// wrapping. The count is diagnostic only and never affects the protocol.
pub open spec fn saturating_inc(n: u64) -> u64 {
    if n == u64::MAX {
        n
    } else {
        (n + 1) as u64
    }
}

/// What one iteration of the busy wait does next.
#[derive(Clone, Copy, PartialEq, Eq, Structural, Debug)]
pub enum SpinStep {
    /// The awaited state word is there; `spins` failed polls preceded it.
    Ready { spins: u64 },
    /// The deadline passed before the awaited word appeared.
    TimedOut,
    /// Poll again, carrying the updated failed-poll count.
    Continue { spins: u64 },
}

/// The decision one poll takes: the awaited word wins over the deadline, so
/// a wait never times out on the very poll that would have succeeded.
pub open spec fn spec_spin_step(
    observed: u64,
    awaited: u64,
    now: u64,
    deadline: Option<u64>,
    spins: u64,
) -> SpinStep {
    if observed == awaited {
        SpinStep::Ready { spins }
    } else if spec_expired(now, deadline) {
        SpinStep::TimedOut
    } else {
        SpinStep::Continue { spins: saturating_inc(spins) }
    }
}

/// One iteration of the busy wait, between a load of the shared state word
/// (`observed`) and whatever the decision asks for: stop with the turn in
/// hand, give up past the deadline, or poll again.
pub fn spin_step(observed: u64, awaited: u64, now: u64, deadline: Option<u64>, spins: u64) -> (step:
    SpinStep)
    ensures
        step == spec_spin_step(observed, awaited, now, deadline, spins),
{
    if observed == awaited {
        SpinStep::Ready { spins }
    } else if expired(now, deadline) {
        SpinStep::TimedOut
    } else if spins == u64::MAX {
        SpinStep::Continue { spins }
    } else {
        SpinStep::Continue { spins: spins + 1 }
    }
}

/// A sleep of `requested_nanos` is counted as overrun when it in fact took
/// more than ten times as long; such a machine is too loaded for its
/// latency figures to mean anything.
pub fn sleep_overran(requested_nanos: u64, spent_nanos: u64) -> (r: bool)
    ensures
        r <==> spent_nanos > 10 * (requested_nanos as int),
{
    (spent_nanos as u128) > 10u128 * (requested_nanos as u128)
}

} // verus!
