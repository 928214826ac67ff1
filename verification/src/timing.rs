//! The two timers of the loop: when the logic tick and the frame last fired,
//! and when each is due again.
//!
//! Time is a count of nanoseconds since an origin that the caller picks and
//! keeps for the whole run. A timer that fires late does not catch up: it
//! fires once and counts a full interval from there.

use vstd::prelude::*;

verus! {

/// Nanoseconds in one second.
pub const NANOS_PER_SECOND: u32 = 1_000_000_000;

/// The length of one period at `rate` periods per second, in whole
/// nanoseconds. Meaningful for a positive rate only.
pub open spec fn period_of(rate: u32) -> u32
    recommends
        rate > 0,
{
    (NANOS_PER_SECOND as int / rate as int) as u32
}

/// The period of a rate in whole nanoseconds, or `None` for the rate zero.
pub fn interval_nanos(rate: u32) -> (interval: Option<u32>)
    ensures
        interval == if rate == 0 {
            None
        } else {
            Some(period_of(rate))
        },
{
    if rate == 0 {
        None
    } else {
        Some(NANOS_PER_SECOND / rate)
    }
}

/// A timer: when it last fired, and how long it waits before it fires again.
#[derive(Clone, Copy, Debug, PartialEq, Eq, Structural)]
pub struct Timer {
    /// When the timer last fired, in nanoseconds.
    pub previous: u64,
    /// Nanoseconds between two firings.
    pub interval: u32,
}

impl Timer {
    /// The timer is due once the clock has reached its last firing plus one
    /// interval.
    pub open spec fn due(self, now: u64) -> bool {
        now >= self.previous + self.interval
    }

    /// The timer after the clock was read at `now`: if it was due it has
    /// fired and counts from `now`; if not it is untouched.
    pub open spec fn after(self, now: u64) -> Timer {
        if self.due(now) {
            Timer { previous: now, interval: self.interval }
        } else {
            self
        }
    }

    /// How often the timer fires when the clock is read at each of
    /// `readings` in turn.
    pub open spec fn firings(self, readings: Seq<u64>) -> nat
        decreases readings.len(),
    {
        if readings.len() == 0 {
            0
        } else {
            let first: nat = if self.due(readings[0]) {
                1
            } else {
                0
            };
            first + self.after(readings[0]).firings(readings.skip(1))
        }
    }

    /// Whether the timer is due at `now`.
    pub fn is_due(&self, now: u64) -> (due: bool)
        ensures
            due == self.due(now),
    {
        now >= self.previous && now - self.previous >= self.interval as u64
    }

    /// Takes one reading of the clock: fires if the timer is due, and says
    /// whether it did.
    pub fn poll(&mut self, now: u64) -> (fired: bool)
        ensures
            fired == old(self).due(now),
            *final(self) == old(self).after(now),
    {
        let fired: bool = self.is_due(now);
        if fired {
            self.previous = now;
        }
        fired
    }
}

/// Which of the two timers fired at one reading of the clock.
#[derive(Clone, Copy, Debug, PartialEq, Eq, Structural)]
pub struct Due {
    pub tick: bool,
    pub render: bool,
}

/// The timing state of a running loop.
#[derive(Clone, Copy, Debug, PartialEq, Eq, Structural)]
pub struct Timing {
    /// The timer of the logic tick.
    pub tick: Timer,
    /// The timer of the frame.
    pub frame: Timer,
}

impl Timing {
    /// The timing state of a loop that starts at `now` with the given rates:
    /// both timers count from `now`.
    pub open spec fn starting_at(now: u64, fps: u32, tps: u32) -> Timing
        recommends
            fps > 0,
            tps > 0,
    {
        Timing {
            tick: Timer { previous: now, interval: period_of(tps) },
            frame: Timer { previous: now, interval: period_of(fps) },
        }
    }

    /// What fires at `now`.
    pub open spec fn due_at(self, now: u64) -> Due {
        Due { tick: self.tick.due(now), render: self.frame.due(now) }
    }

    /// The timing state after the clock was read at `now`.
    pub open spec fn after(self, now: u64) -> Timing {
        Timing { tick: self.tick.after(now), frame: self.frame.after(now) }
    }

    /// Starts both timers at `now`. A rate of zero has no period: the result
    /// is `None` exactly when one of the rates is zero.
    pub fn start(now: u64, fps: u32, tps: u32) -> (timing: Option<Timing>)
        ensures
            timing == if fps == 0 || tps == 0 {
                None
            } else {
                Some(Timing::starting_at(now, fps, tps))
            },
    {
        match (interval_nanos(tps), interval_nanos(fps)) {
            (Some(tick_interval), Some(frame_interval)) => Some(
                Timing {
                    tick: Timer { previous: now, interval: tick_interval },
                    frame: Timer { previous: now, interval: frame_interval },
                },
            ),
            _ => None,
        }
    }

    /// Takes one reading of the clock: reports which timers are due and
    /// restarts each of them from `now`. A timer that is long overdue still
    /// fires once only.
    pub fn advance(&mut self, now: u64) -> (due: Due)
        ensures
            due == old(self).due_at(now),
            *final(self) == old(self).after(now),
    {
        let tick: bool = self.tick.poll(now);
        let render: bool = self.frame.poll(now);
        Due { tick, render }
    }
}

/// Each reading comes at most `gap` nanoseconds after the one before it.
pub open spec fn spaced_within(readings: Seq<u64>, gap: nat) -> bool {
    forall|i: int| 0 <= i < readings.len() - 1 ==> #[trigger] readings[i + 1] <= readings[i] + gap
}

/// No reading is earlier than one before it.
pub open spec fn non_decreasing(readings: Seq<u64>) -> bool {
    forall|i: int, j: int| 0 <= i <= j < readings.len() ==> readings[i] <= readings[j]
}

/// The period of a rate is the whole part of one second divided by the rate:
/// `rate` periods fit into a second, and `rate` periods of one nanosecond more
/// do not.
pub proof fn period_bounds(rate: u32)
    requires
        rate > 0,
    ensures
        period_of(rate) * rate <= NANOS_PER_SECOND < (period_of(rate) + 1) * rate,
{
    let q: int = NANOS_PER_SECOND as int / rate as int;
    assert(q * rate <= NANOS_PER_SECOND && NANOS_PER_SECOND < (q + 1) * rate && 0 <= q
        <= NANOS_PER_SECOND) by (nonlinear_arith)
        requires
            q == NANOS_PER_SECOND as int / rate as int,
            rate > 0,
            NANOS_PER_SECOND == 1_000_000_000,
    ;
}

/// No catching up: once a timer has fired at `now`, however late, it is due
/// again exactly when a full interval has passed since `now`. The deadline
/// that was missed plays no part.
pub proof fn no_catch_up(timer: Timer, now: u64, later: u64)
    requires
        timer.due(now),
    ensures
        timer.after(now).due(later) <==> later >= now + timer.interval,
{
}

/// A timer with a positive interval fires at most once at one time: read
/// again at the time at which it fired, it is not due.
pub proof fn fires_once_per_reading(timer: Timer, now: u64)
    requires
        timer.interval > 0,
        timer.due(now),
    ensures
        !timer.after(now).due(now),
{
}

/// The two timers do not influence each other: what the tick timer does at
/// a reading is the same whatever the frame timer holds, and the other way
/// round.
pub proof fn timers_are_independent(a: Timing, b: Timing, now: u64)
    ensures
        a.tick == b.tick ==> a.due_at(now).tick == b.due_at(now).tick && a.after(now).tick
            == b.after(now).tick,
        a.frame == b.frame ==> a.due_at(now).render == b.due_at(now).render && a.after(
            now,
        ).frame == b.after(now).frame,
{
}

/// A timer never fires more often than its rate allows. Over readings of a
/// clock that does not run backwards, every firing takes a full interval:
/// after `k` firings at least `k` intervals have passed since the timer was
/// started.
pub proof fn rate_is_never_exceeded(timer: Timer, readings: Seq<u64>)
    requires
        non_decreasing(readings),
    ensures
        timer.firings(readings) > 0 ==> readings.len() > 0 && timer.previous + timer.firings(
            readings,
        ) * timer.interval <= readings.last(),
    decreases readings.len(),
{
    if readings.len() > 0 {
        let rest = readings.skip(1);
        let next = timer.after(readings[0]);
        assert forall|i: int, j: int| 0 <= i <= j < rest.len() implies rest[i] <= rest[j] by {
            assert(rest[i] == readings[i + 1] && rest[j] == readings[j + 1]);
        }
        rate_is_never_exceeded(next, rest);
        let later: nat = next.firings(rest);
        if later > 0 {
            assert(rest.last() == readings.last());
        }
        if timer.due(readings[0]) {
            assert(timer.firings(readings) == 1 + later);
            assert(readings[0] <= readings.last());
            assert((1 + later) * timer.interval == timer.interval + later * timer.interval)
                by (nonlinear_arith);
            if later == 0 {
                assert(later * timer.interval == 0) by (nonlinear_arith)
                    requires
                        later == 0,
                ;
            }
        } else {
            assert(timer.firings(readings) == later);
        }
    }
}

/// A timer keeps up with its rate as far as the readings allow. If the first
/// reading comes no later than one interval and `gap` nanoseconds after the
/// timer was started, and each further reading at most `gap` nanoseconds
/// after the one before it, no firing is later than an interval and `gap`
/// after the firing before it: after `k` firings the last reading is at most
/// `k` such spans and one interval away from the start.
pub proof fn rate_is_kept_up(timer: Timer, readings: Seq<u64>, gap: nat)
    requires
        readings.len() > 0,
        readings[0] <= timer.previous + timer.interval + gap,
        spaced_within(readings, gap),
    ensures
        readings.last() <= timer.previous + timer.firings(readings) * (timer.interval + gap)
            + timer.interval,
    decreases readings.len(),
{
    let rest = readings.skip(1);
    let next = timer.after(readings[0]);
    let later: nat = next.firings(rest);
    if rest.len() > 0 {
        assert(readings[0int + 1] <= readings[0] + gap);
        assert(rest[0] == readings[1]);
        assert forall|i: int| 0 <= i < rest.len() - 1 implies #[trigger] rest[i + 1] <= rest[i]
            + gap by {
            assert(readings[(i + 1) + 1] <= readings[i + 1] + gap);
            assert(rest[i] == readings[i + 1] && rest[i + 1] == readings[i + 2]);
        }
        rate_is_kept_up(next, rest, gap);
        assert(rest.last() == readings.last());
    }
    if timer.due(readings[0]) {
        assert((1 + later) * (timer.interval + gap) == (timer.interval + gap) + later * (
        timer.interval + gap)) by (nonlinear_arith);
    }
    assert(0 <= later * (timer.interval + gap)) by (nonlinear_arith)
        requires
            later >= 0,
            timer.interval + gap >= 0,
    ;
}

} // verus!
