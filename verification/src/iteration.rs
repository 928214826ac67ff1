//! One iteration of the loop, as it unfolds when the caller answers every
//! command truthfully: a poll with the front of the event queue, a reading of
//! the clock with the time, an invocation with the handler's return.
//!
//! The functions here are mathematical. They put the single steps of the
//! state machine together, and the laws below say what comes out: in which
//! order handlers are invoked, what of the queue is read, and how the run
//! stands afterwards.

use vstd::prelude::*;
use crate::event::{class_of, ends_run, route_of, RawEvent, Route};
use crate::machine::{Awaiting, Command, Lifecycle, Signal, Slots};
use crate::timing::{
    non_decreasing, rate_is_kept_up, rate_is_never_exceeded, spaced_within, Due, Timing,
};

verus! {

/// What has happened by the end of an iteration, or of a part of one.
pub struct Outcome {
    /// How the run stands.
    pub life: Lifecycle,
    /// The handler invocations that were performed, oldest first.
    pub invoked: Seq<Command>,
    /// The events that were never polled.
    pub unread: Seq<RawEvent>,
}

/// The handler invocation that one event calls for: that of the handler it
/// is routed to, if the slot is filled.
pub open spec fn invocation_for(slots: Slots, event: RawEvent) -> Option<Command> {
    match route_of(class_of(event)) {
        Route::Keyboard if slots.keyboard => Some(Command::InvokeKeyboard),
        Route::Mouse if slots.mouse => Some(Command::InvokeMouse),
        _ => None,
    }
}

/// The handler invocations that a sequence of events calls for, in the order
/// of the events.
pub open spec fn invocations_for(slots: Slots, events: Seq<RawEvent>) -> Seq<Command>
    decreases events.len(),
{
    if events.len() == 0 {
        Seq::empty()
    } else {
        let rest = invocations_for(slots, events.skip(1));
        match invocation_for(slots, events[0]) {
            Some(command) => seq![command] + rest,
            None => rest,
        }
    }
}

/// The handler invocations that one reading of the clock calls for: the tick
/// handler if the tick is due, the render handler after it if the frame is
/// due, each only where the slot is filled.
pub open spec fn invocations_at(slots: Slots, due: Due) -> Seq<Command> {
    let tick = if due.tick && slots.tick {
        seq![Command::InvokeTick]
    } else {
        Seq::empty()
    };
    let render = if due.render && slots.render {
        seq![Command::InvokeRender]
    } else {
        Seq::empty()
    };
    tick + render
}

/// How many handler returns and clock readings the engine can still ask for
/// before it polls again.
pub open spec fn steps_before_poll(life: Lifecycle) -> nat {
    match life {
        Lifecycle::Running { awaiting: Awaiting::Clock, .. } => 3,
        Lifecycle::Running { awaiting: Awaiting::Tick { .. }, .. } => 2,
        Lifecycle::Running { awaiting: Awaiting::Keyboard, .. }
        | Lifecycle::Running { awaiting: Awaiting::Mouse, .. }
        | Lifecycle::Running { awaiting: Awaiting::Render, .. } => 1,
        _ => 0,
    }
}

/// The input phase. While the engine asks for a poll, the caller polls and
/// reports the front of `queue`, or `None` when the queue is empty; when the
/// engine asks for the keyboard or the mouse handler, the caller invokes it
/// and reports its return. The phase is over when the engine asks for
/// anything else.
pub open spec fn input_phase(life: Lifecycle, slots: Slots, queue: Seq<RawEvent>) -> Outcome
    decreases queue.len(), steps_before_poll(life),
{
    match life {
        Lifecycle::Running { awaiting: Awaiting::Poll, .. } => {
            if queue.len() == 0 {
                Outcome {
                    life: life.following(slots, Signal::Polled(None)),
                    invoked: Seq::empty(),
                    unread: queue,
                }
            } else {
                input_phase(
                    life.following(slots, Signal::Polled(Some(queue[0]))),
                    slots,
                    queue.skip(1),
                )
            }
        },
        Lifecycle::Running { awaiting: Awaiting::Keyboard, .. }
        | Lifecycle::Running { awaiting: Awaiting::Mouse, .. } => {
            let rest = input_phase(life.following(slots, Signal::Returned), slots, queue);
            Outcome { invoked: seq![life.command()] + rest.invoked, ..rest }
        },
        _ => Outcome { life, invoked: Seq::empty(), unread: queue },
    }
}

/// The timer phase. When the engine asks for the clock, the caller reports
/// `now`; when it asks for the tick or the render handler, the caller invokes
/// it and reports its return. The phase is over when the engine asks for
/// anything else.
pub open spec fn timer_phase(life: Lifecycle, slots: Slots, now: u64) -> (Lifecycle, Seq<Command>)
    decreases steps_before_poll(life),
{
    match life {
        Lifecycle::Running { awaiting: Awaiting::Clock, .. } => timer_phase(
            life.following(slots, Signal::Clock(now)),
            slots,
            now,
        ),
        Lifecycle::Running { awaiting: Awaiting::Tick { .. }, .. }
        | Lifecycle::Running { awaiting: Awaiting::Render, .. } => {
            let (end, rest) = timer_phase(life.following(slots, Signal::Returned), slots, now);
            (end, seq![life.command()] + rest)
        },
        _ => (life, Seq::empty()),
    }
}

/// One whole iteration: the input phase on `queue`, and after it the timer
/// phase at `now`.
pub open spec fn iteration(life: Lifecycle, slots: Slots, queue: Seq<RawEvent>, now: u64) -> Outcome {
    let input = input_phase(life, slots, queue);
    let (end, fired) = timer_phase(input.life, slots, now);
    Outcome { life: end, invoked: input.invoked + fired, unread: input.unread }
}

/// The loop polls until the queue is empty before it looks at the clock.
/// With no event in the queue that ends the run, the input phase reads every
/// event, invokes for each the handler it calls for, in the order of arrival,
/// leaves the timers alone, and ends with the engine asking for the clock.
pub proof fn input_is_drained_before_the_clock_is_read(
    timing: Timing,
    slots: Slots,
    queue: Seq<RawEvent>,
)
    requires
        forall|i: int| 0 <= i < queue.len() ==> !ends_run(#[trigger] queue[i]),
    ensures
        ({
            let outcome = input_phase(
                Lifecycle::Running { awaiting: Awaiting::Poll, timing },
                slots,
                queue,
            );
            &&& outcome.life == Lifecycle::Running { awaiting: Awaiting::Clock, timing }
            &&& outcome.invoked == invocations_for(slots, queue)
            &&& outcome.unread.len() == 0
        }),
    decreases queue.len(),
{
    let polling = Lifecycle::Running { awaiting: Awaiting::Poll, timing };
    if queue.len() > 0 {
        let rest = queue.skip(1);
        assert forall|i: int| 0 <= i < rest.len() implies !ends_run(#[trigger] rest[i]) by {
            assert(rest[i] == queue[i + 1]);
        }
        input_is_drained_before_the_clock_is_read(timing, slots, rest);
        assert(!ends_run(queue[0]));
        let next = polling.following(slots, Signal::Polled(Some(queue[0])));
        if invocation_for(slots, queue[0]) is Some {
            assert(next.following(slots, Signal::Returned) == polling);
            assert(input_phase(next, slots, rest).invoked == seq![next.command()] + input_phase(
                polling,
                slots,
                rest,
            ).invoked);
        } else {
            assert(next == polling);
        }
    }
}

/// An event that ends the run ends it on the spot. With the first such
/// event at the index `at`, the input phase invokes the handlers that the
/// events before it call for, in the order of arrival, stops the engine, and
/// leaves every event behind it unread.
pub proof fn exit_event_stops_the_loop_at_once(
    timing: Timing,
    slots: Slots,
    queue: Seq<RawEvent>,
    at: int,
)
    requires
        0 <= at < queue.len(),
        ends_run(queue[at]),
        forall|i: int| 0 <= i < at ==> !ends_run(#[trigger] queue[i]),
    ensures
        ({
            let outcome = input_phase(
                Lifecycle::Running { awaiting: Awaiting::Poll, timing },
                slots,
                queue,
            );
            &&& outcome.life == Lifecycle::Stopped
            &&& outcome.invoked == invocations_for(slots, queue.take(at))
            &&& outcome.unread == queue.skip(at + 1)
        }),
    decreases queue.len(),
{
    let polling = Lifecycle::Running { awaiting: Awaiting::Poll, timing };
    let rest = queue.skip(1);
    let next = polling.following(slots, Signal::Polled(Some(queue[0])));
    if at == 0 {
        assert(next == Lifecycle::Stopped);
        assert(queue.take(0).len() == 0);
    } else {
        assert(rest[at - 1] == queue[at]);
        assert forall|i: int| 0 <= i < at - 1 implies !ends_run(#[trigger] rest[i]) by {
            assert(rest[i] == queue[i + 1]);
        }
        exit_event_stops_the_loop_at_once(timing, slots, rest, at - 1);
        assert(rest.take(at - 1) == queue.take(at).skip(1));
        assert(rest.skip(at) == queue.skip(at + 1));
        assert(queue.take(at)[0] == queue[0]);
        assert(!ends_run(queue[0]));
        if invocation_for(slots, queue[0]) is Some {
            assert(next.following(slots, Signal::Returned) == polling);
            assert(input_phase(next, slots, rest).invoked == seq![next.command()] + input_phase(
                polling,
                slots,
                rest,
            ).invoked);
        } else {
            assert(next == polling);
        }
    }
}

/// At one reading of the clock each timer fires at most once, however much
/// time has passed: the timer phase invokes the tick handler if the tick is
/// due, after it the render handler if the frame is due, restarts each timer
/// that was due from `now`, and ends with the engine asking for a poll.
pub proof fn each_timer_fires_at_most_once(timing: Timing, slots: Slots, now: u64)
    ensures
        ({
            let (end, fired) = timer_phase(
                Lifecycle::Running { awaiting: Awaiting::Clock, timing },
                slots,
                now,
            );
            &&& end == Lifecycle::Running { awaiting: Awaiting::Poll, timing: timing.after(now) }
            &&& fired == invocations_at(slots, timing.due_at(now))
            &&& (fired == Seq::<Command>::empty() || fired == seq![Command::InvokeTick] || fired
                == seq![Command::InvokeRender] || fired == seq![
                Command::InvokeTick,
                Command::InvokeRender,
            ])
        }),
{
    let reading = Lifecycle::Running { awaiting: Awaiting::Clock, timing };
    let next = reading.following(slots, Signal::Clock(now));
    let polling = Lifecycle::Running { awaiting: Awaiting::Poll, timing: timing.after(now) };
    let rendering = Lifecycle::Running { awaiting: Awaiting::Render, timing: timing.after(now) };
    assert(timer_phase(polling, slots, now) == (polling, Seq::<Command>::empty()));
    assert(rendering.following(slots, Signal::Returned) == polling);
    assert(timer_phase(rendering, slots, now).0 == polling);
    assert(timer_phase(rendering, slots, now).1 == seq![Command::InvokeRender]);
    let due = timing.due_at(now);
    if due.tick && slots.tick {
        let after_tick = next.following(slots, Signal::Returned);
        assert(after_tick == if due.render && slots.render {
            rendering
        } else {
            polling
        });
        assert(timer_phase(next, slots, now).1 == seq![Command::InvokeTick] + timer_phase(
            after_tick,
            slots,
            now,
        ).1);
    } else if due.render && slots.render {
        assert(next == rendering);
    } else {
        assert(next == polling);
    }
}

/// The order of one iteration. With no event in the queue that ends the
/// run, every event is read and handled first, the tick handler comes after
/// all of them, the render handler last, and the engine asks for the next
/// poll with its timers as the reading at `now` leaves them.
pub proof fn iteration_handles_input_then_tick_then_render(
    timing: Timing,
    slots: Slots,
    queue: Seq<RawEvent>,
    now: u64,
)
    requires
        forall|i: int| 0 <= i < queue.len() ==> !ends_run(#[trigger] queue[i]),
    ensures
        ({
            let outcome = iteration(
                Lifecycle::Running { awaiting: Awaiting::Poll, timing },
                slots,
                queue,
                now,
            );
            &&& outcome.life == Lifecycle::Running {
                awaiting: Awaiting::Poll,
                timing: timing.after(now),
            }
            &&& outcome.invoked == invocations_for(slots, queue) + invocations_at(
                slots,
                timing.due_at(now),
            )
            &&& outcome.unread.len() == 0
        }),
{
    input_is_drained_before_the_clock_is_read(timing, slots, queue);
    each_timer_fires_at_most_once(timing, slots, now);
}

/// An iteration in which an event ends the run never reaches the clock: no
/// timer fires, and the engine is stopped.
pub proof fn iteration_ends_with_the_exit_event(
    timing: Timing,
    slots: Slots,
    queue: Seq<RawEvent>,
    at: int,
    now: u64,
)
    requires
        0 <= at < queue.len(),
        ends_run(queue[at]),
        forall|i: int| 0 <= i < at ==> !ends_run(#[trigger] queue[i]),
    ensures
        ({
            let outcome = iteration(
                Lifecycle::Running { awaiting: Awaiting::Poll, timing },
                slots,
                queue,
                now,
            );
            &&& outcome.life == Lifecycle::Stopped
            &&& outcome.invoked == invocations_for(slots, queue.take(at))
            &&& outcome.unread == queue.skip(at + 1)
        }),
{
    exit_event_stops_the_loop_at_once(timing, slots, queue, at);
}

/// An engine that is not running does nothing: whatever is queued and
/// whatever the time, an iteration polls no event, invokes no handler and
/// leaves the engine as it was.
pub proof fn engine_at_rest_does_nothing(
    life: Lifecycle,
    slots: Slots,
    queue: Seq<RawEvent>,
    now: u64,
)
    requires
        !(life is Running),
    ensures
        iteration(life, slots, queue, now).life == life,
        iteration(life, slots, queue, now).invoked.len() == 0,
        iteration(life, slots, queue, now).unread == queue,
        forall|signal: Signal| #[trigger] life.following(slots, signal) == life,
        life.command() == Command::Exit,
{
}

/// A run of iterations, one for each reading of the clock: the first with
/// `queues[0]` in the event queue and the clock at `readings[0]`, and so on
/// while the engine runs. The result is how the run stands at the end, and
/// the handler invocations of all iterations, oldest first.
pub open spec fn iterations(
    life: Lifecycle,
    slots: Slots,
    queues: Seq<Seq<RawEvent>>,
    readings: Seq<u64>,
) -> (Lifecycle, Seq<Command>)
    recommends
        queues.len() == readings.len(),
    decreases readings.len(),
{
    if readings.len() == 0 || queues.len() == 0 {
        (life, Seq::empty())
    } else {
        let first = iteration(life, slots, queues[0], readings[0]);
        let (end, later) = iterations(first.life, slots, queues.skip(1), readings.skip(1));
        (end, first.invoked + later)
    }
}

/// How often `handler` is invoked in a sequence of invocations.
pub open spec fn times_invoked(invoked: Seq<Command>, handler: Command) -> nat
    decreases invoked.len(),
{
    if invoked.len() == 0 {
        0
    } else {
        let first: nat = if invoked[0] == handler {
            1
        } else {
            0
        };
        first + times_invoked(invoked.skip(1), handler)
    }
}

/// The invocations of two stretches of a run add up.
pub proof fn times_invoked_adds_up(earlier: Seq<Command>, later: Seq<Command>, handler: Command)
    ensures
        times_invoked(earlier + later, handler) == times_invoked(earlier, handler)
            + times_invoked(later, handler),
    decreases earlier.len(),
{
    if earlier.len() == 0 {
        assert(earlier + later == later);
    } else {
        assert((earlier + later).skip(1) == earlier.skip(1) + later);
        times_invoked_adds_up(earlier.skip(1), later, handler);
    }
}

/// Events call for the keyboard and the mouse handler only, never for the
/// tick or the render handler.
pub proof fn input_invokes_input_handlers_only(slots: Slots, events: Seq<RawEvent>)
    ensures
        times_invoked(invocations_for(slots, events), Command::InvokeTick) == 0,
        times_invoked(invocations_for(slots, events), Command::InvokeRender) == 0,
    decreases events.len(),
{
    if events.len() > 0 {
        input_invokes_input_handlers_only(slots, events.skip(1));
        let rest = invocations_for(slots, events.skip(1));
        match invocation_for(slots, events[0]) {
            Some(command) => {
                times_invoked_adds_up(seq![command], rest, Command::InvokeTick);
                times_invoked_adds_up(seq![command], rest, Command::InvokeRender);
                one_invocation_counts_once(command, Command::InvokeTick);
                one_invocation_counts_once(command, Command::InvokeRender);
            },
            None => {},
        }
    }
}

/// Over a run of iterations the handlers are invoked as their timers fire.
/// With no event in any queue that ends the run, the tick handler is invoked
/// exactly as often as the tick timer fires over the readings of the clock,
/// and the render handler as often as the frame timer does; a handler whose
/// slot is empty is not invoked at all. The engine runs on and asks for the
/// next poll.
pub proof fn handlers_are_invoked_as_their_timers_fire(
    timing: Timing,
    slots: Slots,
    queues: Seq<Seq<RawEvent>>,
    readings: Seq<u64>,
)
    requires
        queues.len() == readings.len(),
        forall|i: int, j: int|
            0 <= i < queues.len() && 0 <= j < queues[i].len() ==> !ends_run(
                #[trigger] queues[i][j],
            ),
    ensures
        ({
            let (end, invoked) = iterations(
                Lifecycle::Running { awaiting: Awaiting::Poll, timing },
                slots,
                queues,
                readings,
            );
            &&& end is Running
            &&& end->awaiting == Awaiting::Poll
            &&& times_invoked(invoked, Command::InvokeTick) == if slots.tick {
                timing.tick.firings(readings)
            } else {
                0
            }
            &&& times_invoked(invoked, Command::InvokeRender) == if slots.render {
                timing.frame.firings(readings)
            } else {
                0
            }
        }),
    decreases readings.len(),
{
    if readings.len() > 0 {
        let polling = Lifecycle::Running { awaiting: Awaiting::Poll, timing };
        let first = iteration(polling, slots, queues[0], readings[0]);
        let later_queues = queues.skip(1);
        let later_readings = readings.skip(1);
        let (end, later) = iterations(first.life, slots, later_queues, later_readings);
        assert forall|j: int| 0 <= j < queues[0].len() implies !ends_run(
            #[trigger] queues[0][j],
        ) by {}
        iteration_handles_input_then_tick_then_render(timing, slots, queues[0], readings[0]);
        assert forall|i: int, j: int|
            0 <= i < later_queues.len() && 0 <= j < later_queues[i].len() implies !ends_run(
            #[trigger] later_queues[i][j],
        ) by {
            assert(later_queues[i] == queues[i + 1]);
        }
        handlers_are_invoked_as_their_timers_fire(
            timing.after(readings[0]),
            slots,
            later_queues,
            later_readings,
        );
        let handled = invocations_for(slots, queues[0]);
        let fired = invocations_at(slots, timing.due_at(readings[0]));
        input_invokes_input_handlers_only(slots, queues[0]);
        times_invoked_adds_up(handled, fired, Command::InvokeTick);
        times_invoked_adds_up(handled, fired, Command::InvokeRender);
        times_invoked_adds_up(first.invoked, later, Command::InvokeTick);
        times_invoked_adds_up(first.invoked, later, Command::InvokeRender);
        timer_phase_invokes_what_is_due(slots, timing.due_at(readings[0]));
    }
}

/// One reading of the clock calls for the tick handler once if the tick is
/// due and the slot is filled, and for the render handler likewise.
pub proof fn timer_phase_invokes_what_is_due(slots: Slots, due: Due)
    ensures
        times_invoked(invocations_at(slots, due), Command::InvokeTick) == if due.tick
            && slots.tick {
            1nat
        } else {
            0nat
        },
        times_invoked(invocations_at(slots, due), Command::InvokeRender) == if due.render
            && slots.render {
            1nat
        } else {
            0nat
        },
{
    let tick = if due.tick && slots.tick {
        seq![Command::InvokeTick]
    } else {
        Seq::empty()
    };
    let render = if due.render && slots.render {
        seq![Command::InvokeRender]
    } else {
        Seq::empty()
    };
    times_invoked_adds_up(tick, render, Command::InvokeTick);
    times_invoked_adds_up(tick, render, Command::InvokeRender);
    one_invocation_counts_once(Command::InvokeTick, Command::InvokeTick);
    one_invocation_counts_once(Command::InvokeTick, Command::InvokeRender);
    one_invocation_counts_once(Command::InvokeRender, Command::InvokeRender);
    one_invocation_counts_once(Command::InvokeRender, Command::InvokeTick);
}

/// A single invocation counts once for its own handler and not at all for
/// any other.
proof fn one_invocation_counts_once(command: Command, handler: Command)
    ensures
        times_invoked(seq![command], handler) == if command == handler {
            1nat
        } else {
            0nat
        },
{
    let single = seq![command];
    assert(single.skip(1).len() == 0);
    assert(times_invoked(single.skip(1), handler) == 0);
}

/// The handlers keep to their rates, each on its own. Over a run of
/// iterations with no event that ends it, read off a clock that does not run
/// backwards, a handler that was invoked `k` times has had `k` of its
/// intervals of time to do so. And if the readings are at most `gap`
/// nanoseconds apart, the first of them no later than that after the start of
/// the timers, the last reading is no more than `k` spans of an interval and
/// `gap`, and one interval, away from the start: no invocation is lost but to
/// the coarseness of the readings.
pub proof fn invocations_keep_to_the_rates(
    timing: Timing,
    slots: Slots,
    queues: Seq<Seq<RawEvent>>,
    readings: Seq<u64>,
    gap: nat,
)
    requires
        queues.len() == readings.len(),
        readings.len() > 0,
        forall|i: int, j: int|
            0 <= i < queues.len() && 0 <= j < queues[i].len() ==> !ends_run(
                #[trigger] queues[i][j],
            ),
        non_decreasing(readings),
        spaced_within(readings, gap),
        readings[0] <= timing.tick.previous + gap,
        readings[0] <= timing.frame.previous + gap,
    ensures
        ({
            let invoked = iterations(
                Lifecycle::Running { awaiting: Awaiting::Poll, timing },
                slots,
                queues,
                readings,
            ).1;
            let ticks = times_invoked(invoked, Command::InvokeTick);
            let frames = times_invoked(invoked, Command::InvokeRender);
            &&& ticks > 0 ==> timing.tick.previous + ticks * timing.tick.interval
                <= readings.last()
            &&& frames > 0 ==> timing.frame.previous + frames * timing.frame.interval
                <= readings.last()
            &&& slots.tick ==> readings.last() <= timing.tick.previous + ticks * (
            timing.tick.interval + gap) + timing.tick.interval
            &&& slots.render ==> readings.last() <= timing.frame.previous + frames * (
            timing.frame.interval + gap) + timing.frame.interval
        }),
{
    handlers_are_invoked_as_their_timers_fire(timing, slots, queues, readings);
    rate_is_never_exceeded(timing.tick, readings);
    rate_is_never_exceeded(timing.frame, readings);
    rate_is_kept_up(timing.tick, readings, gap);
    rate_is_kept_up(timing.frame, readings, gap);
}

} // verus!
