//! The loop as a state machine: from the state of a run and a signal of the
//! caller to the next state and the command that the caller performs next.
//!
//! One iteration polls the input source until it is empty, handing each event
//! to its handler as it arrives; it reads the clock once; it invokes the tick
//! handler if the tick is due, and after it the render handler if the frame is
//! due. A quit request or a pressed Escape key ends the run on the spot.

use vstd::prelude::*;
use crate::event::{classify, class_of, ends_run, route, route_of, RawEvent, Route};
use crate::timing::{Due, Timing};

verus! {

/// What the engine asks its caller to do next.
#[derive(Clone, Copy, Debug, PartialEq, Eq, Structural)]
pub enum Command {
    /// Poll the input source once, without blocking, and report what came.
    Poll,
    /// Read the clock and report the time.
    ReadClock,
    /// Invoke the keyboard handler with the event that was polled last.
    InvokeKeyboard,
    /// Invoke the mouse handler with the event that was polled last.
    InvokeMouse,
    /// Invoke the tick handler.
    InvokeTick,
    /// Invoke the render handler.
    InvokeRender,
    /// Leave the loop: the engine is not running.
    Exit,
}

/// What the caller reports back to the engine.
#[derive(Clone, Copy, Debug, PartialEq, Eq, Structural)]
pub enum Signal {
    /// The outcome of one poll: the next pending event, or `None` when the
    /// queue is empty.
    Polled(Option<RawEvent>),
    /// The clock, in nanoseconds.
    Clock(u64),
    /// The handler that was to be invoked has returned.
    Returned,
}

/// What a running engine is waiting for.
#[derive(Clone, Copy, Debug, PartialEq, Eq, Structural)]
pub enum Awaiting {
    /// The outcome of a poll.
    Poll,
    /// The return of the keyboard handler.
    Keyboard,
    /// The return of the mouse handler.
    Mouse,
    /// The clock.
    Clock,
    /// The return of the tick handler; `render_next` says whether the render
    /// handler follows it in this iteration.
    Tick { render_next: bool },
    /// The return of the render handler.
    Render,
}

/// The life of an engine. It starts as `Configured`, runs once, and stays
/// `Stopped`. The timers exist while it runs.
#[derive(Clone, Copy, Debug, PartialEq, Eq, Structural)]
pub enum Lifecycle {
    Configured,
    Running { awaiting: Awaiting, timing: Timing },
    Stopped,
}

/// Which of the four handler slots are filled.
#[derive(Clone, Copy, Debug, PartialEq, Eq, Structural)]
pub struct Slots {
    pub tick: bool,
    pub render: bool,
    pub keyboard: bool,
    pub mouse: bool,
}

impl Awaiting {
    /// The command whose outcome is awaited.
    pub open spec fn command(self) -> Command {
        match self {
            Awaiting::Poll => Command::Poll,
            Awaiting::Keyboard => Command::InvokeKeyboard,
            Awaiting::Mouse => Command::InvokeMouse,
            Awaiting::Clock => Command::ReadClock,
            Awaiting::Tick { .. } => Command::InvokeTick,
            Awaiting::Render => Command::InvokeRender,
        }
    }

    /// Whether `signal` is the outcome that is awaited.
    pub open spec fn answered_by(self, signal: Signal) -> bool {
        match self {
            Awaiting::Poll => signal is Polled,
            Awaiting::Clock => signal is Clock,
            Awaiting::Keyboard | Awaiting::Mouse | Awaiting::Tick { .. } | Awaiting::Render =>
                signal is Returned,
        }
    }

    /// Whether the filled slots allow this wait: no handler is awaited whose
    /// slot is empty.
    pub open spec fn served_by(self, slots: Slots) -> bool {
        match self {
            Awaiting::Poll | Awaiting::Clock => true,
            Awaiting::Keyboard => slots.keyboard,
            Awaiting::Mouse => slots.mouse,
            Awaiting::Tick { render_next } => slots.tick && (render_next ==> slots.render),
            Awaiting::Render => slots.render,
        }
    }

    /// The command whose outcome is awaited.
    pub fn pending(&self) -> (command: Command)
        ensures
            command == self.command(),
    {
        match self {
            Awaiting::Poll => Command::Poll,
            Awaiting::Keyboard => Command::InvokeKeyboard,
            Awaiting::Mouse => Command::InvokeMouse,
            Awaiting::Clock => Command::ReadClock,
            Awaiting::Tick { .. } => Command::InvokeTick,
            Awaiting::Render => Command::InvokeRender,
        }
    }
}

/// What is awaited once an event with the given route has been polled: the
/// return of its handler if the slot is filled, the next poll if it is empty
/// or the event is dropped. `None` stands for the end of the run.
pub open spec fn awaited_after_event(slots: Slots, route: Route) -> Option<Awaiting> {
    match route {
        Route::Exit => None,
        Route::Keyboard => Some(
            if slots.keyboard {
                Awaiting::Keyboard
            } else {
                Awaiting::Poll
            },
        ),
        Route::Mouse => Some(
            if slots.mouse {
                Awaiting::Mouse
            } else {
                Awaiting::Poll
            },
        ),
        Route::Ignore => Some(Awaiting::Poll),
    }
}

/// What is awaited once the clock has been read and `due` has come out: the
/// tick handler first, the render handler after it, each only if it is due
/// and its slot is filled; the next poll if neither is.
pub open spec fn awaited_after_clock(slots: Slots, due: Due) -> Awaiting {
    if due.tick && slots.tick {
        Awaiting::Tick { render_next: due.render && slots.render }
    } else if due.render && slots.render {
        Awaiting::Render
    } else {
        Awaiting::Poll
    }
}

/// What is awaited once a handler has returned.
pub open spec fn awaited_after_return(awaiting: Awaiting) -> Awaiting {
    match awaiting {
        Awaiting::Tick { render_next: true } => Awaiting::Render,
        _ => Awaiting::Poll,
    }
}

impl Lifecycle {
    /// The command that the caller is to perform in this state.
    pub open spec fn command(self) -> Command {
        match self {
            Lifecycle::Running { awaiting, .. } => awaiting.command(),
            _ => Command::Exit,
        }
    }

    /// The state that follows this one when `signal` arrives.
    ///
    /// A signal that is not the awaited one changes nothing. An engine that
    /// is not running stays as it is.
    pub open spec fn following(self, slots: Slots, signal: Signal) -> Lifecycle {
        match self {
            Lifecycle::Running { awaiting, timing } => {
                if !awaiting.answered_by(signal) {
                    self
                } else {
                    match signal {
                        Signal::Polled(Some(event)) => match awaited_after_event(
                            slots,
                            route_of(class_of(event)),
                        ) {
                            Some(next) => Lifecycle::Running { awaiting: next, timing },
                            None => Lifecycle::Stopped,
                        },
                        Signal::Polled(None) => Lifecycle::Running {
                            awaiting: Awaiting::Clock,
                            timing,
                        },
                        Signal::Clock(now) => Lifecycle::Running {
                            awaiting: awaited_after_clock(slots, timing.due_at(now)),
                            timing: timing.after(now),
                        },
                        Signal::Returned => Lifecycle::Running {
                            awaiting: awaited_after_return(awaiting),
                            timing,
                        },
                    }
                }
            },
            _ => self,
        }
    }

    /// The command that the caller is to perform in this state.
    pub fn pending(&self) -> (command: Command)
        ensures
            command == self.command(),
    {
        match self {
            Lifecycle::Running { awaiting, .. } => awaiting.pending(),
            _ => Command::Exit,
        }
    }

    /// Takes in one signal and returns the command to perform next.
    pub fn step(&mut self, slots: Slots, signal: Signal) -> (command: Command)
        ensures
            *final(self) == old(self).following(slots, signal),
            command == final(self).command(),
    {
        let next: Lifecycle = match *self {
            Lifecycle::Running { awaiting, timing } => match (awaiting, signal) {
                (Awaiting::Poll, Signal::Polled(Some(event))) => match route(classify(&event)) {
                    Route::Exit => Lifecycle::Stopped,
                    Route::Keyboard if slots.keyboard => Lifecycle::Running {
                        awaiting: Awaiting::Keyboard,
                        timing,
                    },
                    Route::Mouse if slots.mouse => Lifecycle::Running {
                        awaiting: Awaiting::Mouse,
                        timing,
                    },
                    _ => Lifecycle::Running { awaiting: Awaiting::Poll, timing },
                },
                (Awaiting::Poll, Signal::Polled(None)) => Lifecycle::Running {
                    awaiting: Awaiting::Clock,
                    timing,
                },
                (Awaiting::Clock, Signal::Clock(now)) => {
                    let mut timing = timing;
                    let due: Due = timing.advance(now);
                    let awaiting: Awaiting = if due.tick && slots.tick {
                        Awaiting::Tick { render_next: due.render && slots.render }
                    } else if due.render && slots.render {
                        Awaiting::Render
                    } else {
                        Awaiting::Poll
                    };
                    Lifecycle::Running { awaiting, timing }
                },
                (Awaiting::Tick { render_next: true }, Signal::Returned) => Lifecycle::Running {
                    awaiting: Awaiting::Render,
                    timing,
                },
                (
                    Awaiting::Keyboard
                    | Awaiting::Mouse
                    | Awaiting::Tick { .. }
                    | Awaiting::Render,
                    Signal::Returned,
                ) => Lifecycle::Running { awaiting: Awaiting::Poll, timing },
                _ => *self,
            },
            _ => *self,
        };
        *self = next;
        self.pending()
    }
}

/// The life of an engine runs one way. Signals never start an engine and
/// never bring one back to where it can be configured; a stopped engine stays
/// stopped; and a running engine stops on one occasion only: when it has
/// asked for a poll and the poll brings an event that ends the run.
pub proof fn run_ends_only_on_an_exit_event(life: Lifecycle, slots: Slots, signal: Signal)
    ensures
        life.following(slots, signal) is Configured <==> life is Configured,
        life is Stopped ==> life.following(slots, signal) is Stopped,
        life is Running ==> (life.following(slots, signal) is Stopped <==> (life->awaiting
            == Awaiting::Poll && (signal matches Signal::Polled(Some(event)) && ends_run(
            event,
        )))),
{
}

/// While an engine runs, its timers keep their intervals, only a reading of
/// the clock that was asked for moves them, and no handler is awaited whose
/// slot is empty.
pub proof fn running_engine_keeps_its_shape(life: Lifecycle, slots: Slots, signal: Signal)
    requires
        life is Running,
        life.following(slots, signal) is Running,
    ensures
        life.following(slots, signal)->timing.tick.interval == life->timing.tick.interval,
        life.following(slots, signal)->timing.frame.interval == life->timing.frame.interval,
        !(life->awaiting == Awaiting::Clock && signal is Clock) ==> life.following(
            slots,
            signal,
        )->timing == life->timing,
        life->awaiting.served_by(slots) ==> life.following(slots, signal)->awaiting.served_by(
            slots,
        ),
{
}

} // verus!
