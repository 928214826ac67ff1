use rgbp::{Awaiting, Command, Lifecycle, RawEvent, Signal, Slots, Timer, Timing, KEYCODE_ESCAPE};

const ALL: Slots = Slots { tick: true, render: true, keyboard: true, mouse: true };
const NONE: Slots = Slots { tick: false, render: false, keyboard: false, mouse: false };

fn timing() -> Timing {
    Timing {
        tick: Timer { previous: 0, interval: 50 },
        frame: Timer { previous: 0, interval: 20 },
    }
}

fn polling() -> Lifecycle {
    Lifecycle::Running { awaiting: Awaiting::Poll, timing: timing() }
}

fn awaiting(awaiting: Awaiting) -> Lifecycle {
    Lifecycle::Running { awaiting, timing: timing() }
}

#[test]
fn pending_command_of_every_wait() {
    assert_eq!(Awaiting::Poll.pending(), Command::Poll);
    assert_eq!(Awaiting::Keyboard.pending(), Command::InvokeKeyboard);
    assert_eq!(Awaiting::Mouse.pending(), Command::InvokeMouse);
    assert_eq!(Awaiting::Clock.pending(), Command::ReadClock);
    assert_eq!(Awaiting::Tick { render_next: false }.pending(), Command::InvokeTick);
    assert_eq!(Awaiting::Tick { render_next: true }.pending(), Command::InvokeTick);
    assert_eq!(Awaiting::Render.pending(), Command::InvokeRender);
}

#[test]
fn pending_command_of_every_state() {
    assert_eq!(Lifecycle::Configured.pending(), Command::Exit);
    assert_eq!(Lifecycle::Stopped.pending(), Command::Exit);
    assert_eq!(polling().pending(), Command::Poll);
    assert_eq!(awaiting(Awaiting::Clock).pending(), Command::ReadClock);
}

#[test]
fn key_event_goes_to_the_keyboard_handler() {
    let mut life = polling();
    assert_eq!(life.step(ALL, Signal::Polled(Some(RawEvent::KeyUp))), Command::InvokeKeyboard);
    assert_eq!(life, awaiting(Awaiting::Keyboard));
    assert_eq!(life.step(ALL, Signal::Returned), Command::Poll);
    assert_eq!(life, polling());
}

#[test]
fn mouse_event_goes_to_the_mouse_handler() {
    for event in [
        RawEvent::MouseButtonDown,
        RawEvent::MouseButtonUp,
        RawEvent::MouseMotion,
        RawEvent::MouseWheel,
    ] {
        let mut life = polling();
        assert_eq!(life.step(ALL, Signal::Polled(Some(event))), Command::InvokeMouse);
        assert_eq!(life, awaiting(Awaiting::Mouse));
        assert_eq!(life.step(ALL, Signal::Returned), Command::Poll);
        assert_eq!(life, polling());
    }
}

#[test]
fn event_without_a_handler_is_skipped() {
    let mut life = polling();
    assert_eq!(life.step(NONE, Signal::Polled(Some(RawEvent::KeyUp))), Command::Poll);
    assert_eq!(life.step(NONE, Signal::Polled(Some(RawEvent::MouseWheel))), Command::Poll);
    assert_eq!(life, polling());
}

#[test]
fn other_event_is_dropped() {
    let mut life = polling();
    assert_eq!(life.step(ALL, Signal::Polled(Some(RawEvent::Other))), Command::Poll);
    assert_eq!(life, polling());
}

#[test]
fn quit_stops_the_run() {
    let mut life = polling();
    assert_eq!(life.step(ALL, Signal::Polled(Some(RawEvent::Quit))), Command::Exit);
    assert_eq!(life, Lifecycle::Stopped);
}

#[test]
fn escape_stops_the_run() {
    let mut life = polling();
    let escape = RawEvent::KeyDown { keycode: Some(KEYCODE_ESCAPE) };
    assert_eq!(life.step(NONE, Signal::Polled(Some(escape))), Command::Exit);
    assert_eq!(life, Lifecycle::Stopped);
}

#[test]
fn stopped_engine_stays_stopped() {
    let mut life = Lifecycle::Stopped;
    for signal in [
        Signal::Polled(None),
        Signal::Polled(Some(RawEvent::KeyUp)),
        Signal::Clock(u64::MAX),
        Signal::Returned,
    ] {
        assert_eq!(life.step(ALL, signal), Command::Exit);
        assert_eq!(life, Lifecycle::Stopped);
    }
}

#[test]
fn configured_engine_does_not_move() {
    let mut life = Lifecycle::Configured;
    for signal in [
        Signal::Polled(None),
        Signal::Polled(Some(RawEvent::Quit)),
        Signal::Clock(u64::MAX),
        Signal::Returned,
    ] {
        assert_eq!(life.step(ALL, signal), Command::Exit);
        assert_eq!(life, Lifecycle::Configured);
    }
}

#[test]
fn empty_queue_leads_to_the_clock() {
    let mut life = polling();
    assert_eq!(life.step(ALL, Signal::Polled(None)), Command::ReadClock);
    assert_eq!(life, awaiting(Awaiting::Clock));
}

#[test]
fn nothing_due_leads_back_to_the_poll() {
    let mut life = awaiting(Awaiting::Clock);
    assert_eq!(life.step(ALL, Signal::Clock(19)), Command::Poll);
    assert_eq!(life, polling());
}

#[test]
fn frame_due_alone_invokes_the_render_handler() {
    let mut life = awaiting(Awaiting::Clock);
    assert_eq!(life.step(ALL, Signal::Clock(20)), Command::InvokeRender);
    let after = Timing {
        tick: Timer { previous: 0, interval: 50 },
        frame: Timer { previous: 20, interval: 20 },
    };
    assert_eq!(life, Lifecycle::Running { awaiting: Awaiting::Render, timing: after });
    assert_eq!(life.step(ALL, Signal::Returned), Command::Poll);
    assert_eq!(life, Lifecycle::Running { awaiting: Awaiting::Poll, timing: after });
}

#[test]
fn tick_comes_before_render() {
    let mut life = awaiting(Awaiting::Clock);
    assert_eq!(life.step(ALL, Signal::Clock(50)), Command::InvokeTick);
    let after = Timing {
        tick: Timer { previous: 50, interval: 50 },
        frame: Timer { previous: 50, interval: 20 },
    };
    assert_eq!(
        life,
        Lifecycle::Running { awaiting: Awaiting::Tick { render_next: true }, timing: after }
    );
    assert_eq!(life.step(ALL, Signal::Returned), Command::InvokeRender);
    assert_eq!(life.step(ALL, Signal::Returned), Command::Poll);
    assert_eq!(life, Lifecycle::Running { awaiting: Awaiting::Poll, timing: after });
}

#[test]
fn tick_alone_when_the_frame_is_not_due() {
    let start = Timing {
        tick: Timer { previous: 0, interval: 50 },
        frame: Timer { previous: 40, interval: 20 },
    };
    let mut life = Lifecycle::Running { awaiting: Awaiting::Clock, timing: start };
    assert_eq!(life.step(ALL, Signal::Clock(50)), Command::InvokeTick);
    assert_eq!(life.step(ALL, Signal::Returned), Command::Poll);
    let after = Timing {
        tick: Timer { previous: 50, interval: 50 },
        frame: Timer { previous: 40, interval: 20 },
    };
    assert_eq!(life, Lifecycle::Running { awaiting: Awaiting::Poll, timing: after });
}

#[test]
fn timers_restart_even_without_handlers() {
    let mut life = awaiting(Awaiting::Clock);
    assert_eq!(life.step(NONE, Signal::Clock(1_000)), Command::Poll);
    let after = Timing {
        tick: Timer { previous: 1_000, interval: 50 },
        frame: Timer { previous: 1_000, interval: 20 },
    };
    assert_eq!(life, Lifecycle::Running { awaiting: Awaiting::Poll, timing: after });
}

#[test]
fn tick_without_render_slot_skips_render() {
    let slots = Slots { tick: true, render: false, keyboard: false, mouse: false };
    let mut life = awaiting(Awaiting::Clock);
    assert_eq!(life.step(slots, Signal::Clock(50)), Command::InvokeTick);
    assert_eq!(life.step(slots, Signal::Returned), Command::Poll);
}

#[test]
fn large_time_jump_fires_one_tick() {
    let mut life = awaiting(Awaiting::Clock);
    let mut ticks = 0;
    let mut command = life.step(ALL, Signal::Clock(1_000_000_000_000));
    while command != Command::Poll {
        if command == Command::InvokeTick {
            ticks += 1;
        }
        command = life.step(ALL, Signal::Returned);
    }
    assert_eq!(ticks, 1);
    assert_eq!(life.step(ALL, Signal::Polled(None)), Command::ReadClock);
    assert_eq!(life.step(ALL, Signal::Clock(1_000_000_000_000)), Command::Poll);
    assert_eq!(life.step(ALL, Signal::Polled(None)), Command::ReadClock);
    assert_eq!(life.step(ALL, Signal::Clock(1_000_000_000_019)), Command::Poll);
}

#[test]
fn signal_that_was_not_awaited_changes_nothing() {
    let cases = [
        (Awaiting::Poll, Signal::Clock(1_000)),
        (Awaiting::Poll, Signal::Returned),
        (Awaiting::Keyboard, Signal::Polled(Some(RawEvent::Quit))),
        (Awaiting::Mouse, Signal::Clock(1_000)),
        (Awaiting::Clock, Signal::Polled(None)),
        (Awaiting::Clock, Signal::Returned),
        (Awaiting::Tick { render_next: true }, Signal::Clock(1_000)),
        (Awaiting::Render, Signal::Polled(Some(RawEvent::Quit))),
    ];
    for (wait, signal) in cases {
        let mut life = awaiting(wait);
        assert_eq!(life.step(ALL, signal), wait.pending());
        assert_eq!(life, awaiting(wait));
    }
}
