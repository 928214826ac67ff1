//! The engine: a configuration, up to four handlers, the application state
//! that is threaded through them, and the state of the run.
//!
//! The engine never calls a handler and never inspects the application
//! state. It keeps both for its caller, tells the caller through a
//! [`Command`] which handler is to be invoked, and lends out the state for
//! the time of that invocation.

use vstd::prelude::*;
use crate::event::RawEvent;
use crate::iteration::{engine_at_rest_does_nothing, iteration};
use crate::machine::{Awaiting, Command, Lifecycle, Signal, Slots};
use crate::timing::{period_of, Timing};

verus! {

/// Frames per second of an engine that was given no other rate.
pub const DEFAULT_FPS: u32 = 60;

/// Logic ticks per second of an engine that was given no other rate.
pub const DEFAULT_TPS: u32 = 20;

/// Width of the window of an engine that was given no size.
pub const DEFAULT_WIDTH: u32 = 500;

/// Height of the window of an engine that was given no size.
pub const DEFAULT_HEIGHT: u32 = 500;

/// The frame rate or the tick rate is zero.
#[derive(Clone, Copy, Debug, PartialEq, Eq, Structural)]
pub struct ConfigurationError;

impl ConfigurationError {
    /// The error in words.
    pub fn message(&self) -> (text: String)
        ensures
            text@ == "fps and tps cannot be 0"@,
    {
        "fps and tps cannot be 0".to_string()
    }
}

/// A loop engine over an application state of type `GameState` and handlers
/// of the types `Tick`, `Render`, `Keyboard` and `Mouse`.
pub struct GameEngine<GameState, Tick, Render, Keyboard, Mouse> {
    title: String,
    width: u32,
    height: u32,
    fps: u32,
    tps: u32,
    state: Option<GameState>,
    tick_handler: Option<Tick>,
    render_handler: Option<Render>,
    keyboard_handler: Option<Keyboard>,
    mouse_handler: Option<Mouse>,
    life: Lifecycle,
}

/// The engine as a mathematical value.
pub struct EngineModel<GameState, Tick, Render, Keyboard, Mouse> {
    pub title: Seq<char>,
    pub width: u32,
    pub height: u32,
    pub fps: u32,
    pub tps: u32,
    pub state: Option<GameState>,
    pub tick_handler: Option<Tick>,
    pub render_handler: Option<Render>,
    pub keyboard_handler: Option<Keyboard>,
    pub mouse_handler: Option<Mouse>,
    pub life: Lifecycle,
}

impl<GameState, Tick, Render, Keyboard, Mouse> EngineModel<
    GameState,
    Tick,
    Render,
    Keyboard,
    Mouse,
> {
    /// A fresh engine: the given window, the default rates, no state, no
    /// handlers, not yet run.
    pub open spec fn fresh(title: Seq<char>, width: u32, height: u32) -> Self {
        EngineModel {
            title,
            width,
            height,
            fps: DEFAULT_FPS,
            tps: DEFAULT_TPS,
            state: None,
            tick_handler: None,
            render_handler: None,
            keyboard_handler: None,
            mouse_handler: None,
            life: Lifecycle::Configured,
        }
    }

    /// Which handler slots are filled.
    pub open spec fn slots(self) -> Slots {
        Slots {
            tick: self.tick_handler is Some,
            render: self.render_handler is Some,
            keyboard: self.keyboard_handler is Some,
            mouse: self.mouse_handler is Some,
        }
    }

    /// Both rates are positive.
    pub open spec fn rates_valid(self) -> bool {
        self.fps > 0 && self.tps > 0
    }

    /// The engine may still be configured: its run has not begun.
    pub open spec fn configurable(self) -> bool {
        self.life is Configured
    }

    /// Well-formedness. Once the run has begun the rates are positive; while
    /// it lasts the timers keep the periods of the configured rates, and no
    /// handler is awaited whose slot is empty.
    pub open spec fn wf(self) -> bool {
        match self.life {
            Lifecycle::Configured => true,
            Lifecycle::Running { awaiting, timing } => {
                &&& self.rates_valid()
                &&& timing.tick.interval == period_of(self.tps)
                &&& timing.frame.interval == period_of(self.fps)
                &&& awaiting.served_by(self.slots())
            },
            Lifecycle::Stopped => self.rates_valid(),
        }
    }

    /// `changed` if the engine may still be configured, the engine itself
    /// if its configuration is frozen.
    pub open spec fn unless_frozen(self, changed: Self) -> Self {
        if self.configurable() {
            changed
        } else {
            self
        }
    }

    /// The engine after the frame rate was set.
    pub open spec fn with_fps(self, fps: u32) -> Self {
        self.unless_frozen(EngineModel { fps, ..self })
    }

    /// The engine after the tick rate was set.
    pub open spec fn with_tps(self, tps: u32) -> Self {
        self.unless_frozen(EngineModel { tps, ..self })
    }

    /// The engine after the application state was set.
    pub open spec fn with_initial_state(self, state: GameState) -> Self {
        self.unless_frozen(EngineModel { state: Some(state), ..self })
    }

    /// The engine after the tick handler was set.
    pub open spec fn with_tick_handler(self, handler: Tick) -> Self {
        self.unless_frozen(EngineModel { tick_handler: Some(handler), ..self })
    }

    /// The engine after the render handler was set.
    pub open spec fn with_render_handler(self, handler: Render) -> Self {
        self.unless_frozen(EngineModel { render_handler: Some(handler), ..self })
    }

    /// The engine after the keyboard handler was set.
    pub open spec fn with_keyboard_handler(self, handler: Keyboard) -> Self {
        self.unless_frozen(EngineModel { keyboard_handler: Some(handler), ..self })
    }

    /// The engine after the mouse handler was set.
    pub open spec fn with_mouse_handler(self, handler: Mouse) -> Self {
        self.unless_frozen(EngineModel { mouse_handler: Some(handler), ..self })
    }

    /// The engine with `state` in place of its application state, as a
    /// handler leaves it.
    pub open spec fn with_state(self, state: Option<GameState>) -> Self {
        EngineModel { state, ..self }
    }

    /// The engine after `run` was called at `now`. With positive rates an
    /// engine that has not run yet starts polling, both timers counting from
    /// `now`; one that runs or has run is left alone. With a rate of zero
    /// nothing changes.
    pub open spec fn started(self, now: u64) -> Self {
        if self.rates_valid() && self.life is Configured {
            EngineModel {
                life: Lifecycle::Running {
                    awaiting: Awaiting::Poll,
                    timing: Timing::starting_at(now, self.fps, self.tps),
                },
                ..self
            }
        } else {
            self
        }
    }

    /// The engine after `signal` was taken in: the run moves on, all else
    /// stays.
    pub open spec fn stepped(self, signal: Signal) -> Self {
        EngineModel { life: self.life.following(self.slots(), signal), ..self }
    }

    /// The engine after each of `signals` was taken in, in turn.
    pub open spec fn stepped_through(self, signals: Seq<Signal>) -> Self
        decreases signals.len(),
    {
        if signals.len() == 0 {
            self
        } else {
            self.stepped(signals[0]).stepped_through(signals.skip(1))
        }
    }

    /// The engine with the run of `other` and all else its own.
    pub open spec fn with_life_of(self, other: Self) -> Self {
        EngineModel { life: other.life, ..self }
    }
}

impl<GameState, Tick, Render, Keyboard, Mouse> View for GameEngine<
    GameState,
    Tick,
    Render,
    Keyboard,
    Mouse,
> {
    type V = EngineModel<GameState, Tick, Render, Keyboard, Mouse>;

    closed spec fn view(&self) -> Self::V {
        EngineModel {
            title: self.title@,
            width: self.width,
            height: self.height,
            fps: self.fps,
            tps: self.tps,
            state: self.state,
            tick_handler: self.tick_handler,
            render_handler: self.render_handler,
            keyboard_handler: self.keyboard_handler,
            mouse_handler: self.mouse_handler,
            life: self.life,
        }
    }
}

impl<GameState, Tick, Render, Keyboard, Mouse> GameEngine<
    GameState,
    Tick,
    Render,
    Keyboard,
    Mouse,
> {
    /// An engine for a window with the given title and size, at the default
    /// rates, with no state and no handlers, ready to be configured.
    pub fn new(title: &str, width: u32, height: u32) -> (engine: Self)
        ensures
            engine@ == EngineModel::<GameState, Tick, Render, Keyboard, Mouse>::fresh(
                title@,
                width,
                height,
            ),
            engine@.wf(),
    {
        GameEngine {
            title: title.to_string(),
            width,
            height,
            fps: DEFAULT_FPS,
            tps: DEFAULT_TPS,
            state: None,
            tick_handler: None,
            render_handler: None,
            keyboard_handler: None,
            mouse_handler: None,
            life: Lifecycle::Configured,
        }
    }

    /// Sets the frame rate. The last rate set before the run wins; once the
    /// run has begun the configuration is frozen and the call changes nothing.
    pub fn set_fps(self, fps: u32) -> (engine: Self)
        ensures
            engine@ == self@.with_fps(fps),
            self@.wf() ==> engine@.wf(),
    {
        let mut engine = self;
        if let Lifecycle::Configured = engine.life {
            engine.fps = fps;
        }
        engine
    }

    /// Sets the tick rate. The last rate set before the run wins; once the
    /// run has begun the configuration is frozen and the call changes nothing.
    pub fn set_tps(self, tps: u32) -> (engine: Self)
        ensures
            engine@ == self@.with_tps(tps),
            self@.wf() ==> engine@.wf(),
    {
        let mut engine = self;
        if let Lifecycle::Configured = engine.life {
            engine.tps = tps;
        }
        engine
    }

    /// Gives the engine its application state, in place of any it had. Once
    /// the run has begun the call changes nothing.
    pub fn set_state(self, state: GameState) -> (engine: Self)
        ensures
            engine@ == self@.with_initial_state(state),
            self@.wf() ==> engine@.wf(),
    {
        let mut engine = self;
        if let Lifecycle::Configured = engine.life {
            engine.state = Some(state);
        }
        engine
    }

    /// Fills the tick slot, in place of any handler it held. Once the run
    /// has begun the call changes nothing.
    pub fn set_tick_handler(self, tick_handler: Tick) -> (engine: Self)
        ensures
            engine@ == self@.with_tick_handler(tick_handler),
            self@.wf() ==> engine@.wf(),
    {
        let mut engine = self;
        if let Lifecycle::Configured = engine.life {
            engine.tick_handler = Some(tick_handler);
        }
        engine
    }

    /// Fills the render slot, in place of any handler it held. Once the run
    /// has begun the call changes nothing.
    pub fn set_render_handler(self, render_handler: Render) -> (engine: Self)
        ensures
            engine@ == self@.with_render_handler(render_handler),
            self@.wf() ==> engine@.wf(),
    {
        let mut engine = self;
        if let Lifecycle::Configured = engine.life {
            engine.render_handler = Some(render_handler);
        }
        engine
    }

    /// Fills the keyboard slot, in place of any handler it held. Once the
    /// run has begun the call changes nothing.
    pub fn set_keyboard_handler(self, keyboard_handler: Keyboard) -> (engine: Self)
        ensures
            engine@ == self@.with_keyboard_handler(keyboard_handler),
            self@.wf() ==> engine@.wf(),
    {
        let mut engine = self;
        if let Lifecycle::Configured = engine.life {
            engine.keyboard_handler = Some(keyboard_handler);
        }
        engine
    }

    /// Fills the mouse slot, in place of any handler it held. Once the run
    /// has begun the call changes nothing.
    pub fn set_mouse_handler(self, mouse_handler: Mouse) -> (engine: Self)
        ensures
            engine@ == self@.with_mouse_handler(mouse_handler),
            self@.wf() ==> engine@.wf(),
    {
        let mut engine = self;
        if let Lifecycle::Configured = engine.life {
            engine.mouse_handler = Some(mouse_handler);
        }
        engine
    }

    /// Begins the run at the time `now`.
    ///
    /// With a frame rate or a tick rate of zero the run is refused and the
    /// engine stays as it was. Otherwise an engine that has not run yet
    /// starts both timers at `now` and asks for the first poll; an engine
    /// that runs or has run is left alone, and the result repeats the
    /// command that it stands at.
    pub fn run(&mut self, now: u64) -> (outcome: Result<Command, ConfigurationError>)
        ensures
            final(self)@ == old(self)@.started(now),
            outcome == if old(self)@.rates_valid() {
                Ok::<Command, ConfigurationError>(final(self)@.life.command())
            } else {
                Err::<Command, ConfigurationError>(ConfigurationError)
            },
            old(self)@.wf() ==> final(self)@.wf(),
    {
        match Timing::start(now, self.fps, self.tps) {
            None => Err(ConfigurationError),
            Some(timing) => {
                if let Lifecycle::Configured = self.life {
                    self.life = Lifecycle::Running { awaiting: Awaiting::Poll, timing };
                }
                Ok(self.life.pending())
            },
        }
    }

    /// Takes in one signal of the caller and returns the command to perform
    /// next. The configuration, the handlers and the application state are
    /// not touched.
    pub fn step(&mut self, signal: Signal) -> (command: Command)
        ensures
            final(self)@ == old(self)@.stepped(signal),
            command == final(self)@.life.command(),
            old(self)@.wf() ==> final(self)@.wf(),
    {
        let slots: Slots = self.slots();
        self.life.step(slots, signal)
    }

    /// Lends out the application state for one handler invocation. What the
    /// handler writes through the reference is the state from there on; an
    /// engine without a state lends out nothing.
    pub fn state_mut(&mut self) -> (state: Option<&mut GameState>)
        ensures
            match state {
                Some(lent) => old(self)@.state == Some(*lent) && final(self)@ == old(
                    self,
                )@.with_state(Some(*final(lent))),
                None => old(self)@.state is None && final(self)@ == old(self)@,
            },
            old(self)@.wf() ==> final(self)@.wf(),
    {
        match &mut self.state {
            Some(lent) => Some(lent),
            None => None,
        }
    }

    /// The application state, if the engine has one.
    pub fn state(&self) -> (state: Option<&GameState>)
        ensures
            state is Some <==> self@.state is Some,
            state is Some ==> *state->0 == self@.state->0,
    {
        self.state.as_ref()
    }

    /// The tick handler, if the slot is filled.
    pub fn tick_handler(&self) -> (handler: Option<&Tick>)
        ensures
            handler is Some <==> self@.tick_handler is Some,
            handler is Some ==> *handler->0 == self@.tick_handler->0,
    {
        self.tick_handler.as_ref()
    }

    /// The render handler, if the slot is filled.
    pub fn render_handler(&self) -> (handler: Option<&Render>)
        ensures
            handler is Some <==> self@.render_handler is Some,
            handler is Some ==> *handler->0 == self@.render_handler->0,
    {
        self.render_handler.as_ref()
    }

    /// The keyboard handler, if the slot is filled.
    pub fn keyboard_handler(&self) -> (handler: Option<&Keyboard>)
        ensures
            handler is Some <==> self@.keyboard_handler is Some,
            handler is Some ==> *handler->0 == self@.keyboard_handler->0,
    {
        self.keyboard_handler.as_ref()
    }

    /// The mouse handler, if the slot is filled.
    pub fn mouse_handler(&self) -> (handler: Option<&Mouse>)
        ensures
            handler is Some <==> self@.mouse_handler is Some,
            handler is Some ==> *handler->0 == self@.mouse_handler->0,
    {
        self.mouse_handler.as_ref()
    }

    /// Which handler slots are filled.
    pub fn slots(&self) -> (slots: Slots)
        ensures
            slots == self@.slots(),
    {
        Slots {
            tick: self.tick_handler.is_some(),
            render: self.render_handler.is_some(),
            keyboard: self.keyboard_handler.is_some(),
            mouse: self.mouse_handler.is_some(),
        }
    }

    /// The window and the rates: title, width, height, frames per second,
    /// ticks per second.
    pub fn config(&self) -> (config: (&str, u32, u32, u32, u32))
        ensures
            config.0@ == self@.title,
            config.1 == self@.width,
            config.2 == self@.height,
            config.3 == self@.fps,
            config.4 == self@.tps,
    {
        (self.title.as_str(), self.width, self.height, self.fps, self.tps)
    }

    /// Where the engine stands in its life.
    pub fn lifecycle(&self) -> (life: Lifecycle)
        ensures
            life == self@.life,
    {
        self.life
    }

    /// The command that the caller is to perform as the engine stands.
    pub fn pending(&self) -> (command: Command)
        ensures
            command == self@.life.command(),
    {
        self.life.pending()
    }
}

impl<GameState, Tick, Render, Keyboard, Mouse> Default for GameEngine<
    GameState,
    Tick,
    Render,
    Keyboard,
    Mouse,
> {
    /// An engine with every setting at its default: a window of 500 by 500
    /// with the title "My Game", 60 frames and 20 ticks per second.
    fn default() -> (engine: Self)
        ensures
            engine@ == EngineModel::<GameState, Tick, Render, Keyboard, Mouse>::fresh(
                "My Game"@,
                DEFAULT_WIDTH,
                DEFAULT_HEIGHT,
            ),
            engine@.wf(),
    {
        GameEngine::new("My Game", DEFAULT_WIDTH, DEFAULT_HEIGHT)
    }
}

/// The last setting wins: of two calls of one setter on an engine that has
/// not run yet, the second alone counts. Once the run has begun no setter
/// changes anything.
pub proof fn last_setting_wins<GameState, Tick, Render, Keyboard, Mouse>(
    engine: EngineModel<GameState, Tick, Render, Keyboard, Mouse>,
    rates: (u32, u32),
    states: (GameState, GameState),
    ticks: (Tick, Tick),
    renders: (Render, Render),
    keyboards: (Keyboard, Keyboard),
    mice: (Mouse, Mouse),
)
    ensures
        engine.with_fps(rates.0).with_fps(rates.1) == engine.with_fps(rates.1),
        engine.with_tps(rates.0).with_tps(rates.1) == engine.with_tps(rates.1),
        engine.with_initial_state(states.0).with_initial_state(states.1)
            == engine.with_initial_state(states.1),
        engine.with_tick_handler(ticks.0).with_tick_handler(ticks.1) == engine.with_tick_handler(
            ticks.1,
        ),
        engine.with_render_handler(renders.0).with_render_handler(renders.1)
            == engine.with_render_handler(renders.1),
        engine.with_keyboard_handler(keyboards.0).with_keyboard_handler(keyboards.1)
            == engine.with_keyboard_handler(keyboards.1),
        engine.with_mouse_handler(mice.0).with_mouse_handler(mice.1) == engine.with_mouse_handler(
            mice.1,
        ),
        !engine.configurable() ==> engine.with_fps(rates.0) == engine && engine.with_tps(rates.0)
            == engine && engine.with_initial_state(states.0) == engine
            && engine.with_tick_handler(ticks.0) == engine && engine.with_render_handler(
            renders.0,
        ) == engine && engine.with_keyboard_handler(keyboards.0) == engine
            && engine.with_mouse_handler(mice.0) == engine,
{
}

/// A run with a frame rate or a tick rate of zero is refused before anything
/// happens: the engine is left as it was, not running, and a caller that
/// drove it all the same would poll no event and invoke no handler.
pub proof fn refused_run_does_nothing<GameState, Tick, Render, Keyboard, Mouse>(
    engine: EngineModel<GameState, Tick, Render, Keyboard, Mouse>,
    now: u64,
    queue: Seq<RawEvent>,
    later: u64,
)
    requires
        engine.wf(),
        !engine.rates_valid(),
    ensures
        engine.started(now) == engine,
        engine.life is Configured,
        engine.life.command() == Command::Exit,
        iteration(engine.life, engine.slots(), queue, later).unread == queue,
        iteration(engine.life, engine.slots(), queue, later).invoked.len() == 0,
        iteration(engine.life, engine.slots(), queue, later).life == engine.life,
{
    engine_at_rest_does_nothing(engine.life, engine.slots(), queue, later);
}

/// A run that is accepted begins with a poll, both timers started at `now`
/// with the periods of the configured rates.
pub proof fn accepted_run_begins_with_a_poll<GameState, Tick, Render, Keyboard, Mouse>(
    engine: EngineModel<GameState, Tick, Render, Keyboard, Mouse>,
    now: u64,
)
    requires
        engine.life is Configured,
        engine.rates_valid(),
    ensures
        engine.started(now).life == (Lifecycle::Running {
            awaiting: Awaiting::Poll,
            timing: Timing::starting_at(now, engine.fps, engine.tps),
        }),
        engine.started(now).life.command() == Command::Poll,
        engine.started(now).wf(),
{
}

/// Taking in a signal keeps a well-formed engine well-formed.
pub proof fn step_keeps_well_formed<GameState, Tick, Render, Keyboard, Mouse>(
    engine: EngineModel<GameState, Tick, Render, Keyboard, Mouse>,
    signal: Signal,
)
    requires
        engine.wf(),
    ensures
        engine.stepped(signal).wf(),
{
}

/// The steps of a run touch the run alone. Whatever signals come in, the
/// configuration, the handlers and the application state stay as they were,
/// and a well-formed engine stays well-formed.
pub proof fn steps_touch_the_run_alone<GameState, Tick, Render, Keyboard, Mouse>(
    engine: EngineModel<GameState, Tick, Render, Keyboard, Mouse>,
    signals: Seq<Signal>,
)
    ensures
        engine.stepped_through(signals) == engine.with_life_of(engine.stepped_through(signals)),
        engine.wf() ==> engine.stepped_through(signals).wf(),
    decreases signals.len(),
{
    if signals.len() > 0 {
        if engine.wf() {
            step_keeps_well_formed(engine, signals[0]);
        }
        steps_touch_the_run_alone(engine.stepped(signals[0]), signals.skip(1));
    }
}

/// The application state is threaded through the handlers. What one handler
/// has written is what the engine holds from there on, through any number of
/// steps, so the handler that is invoked next is lent that state; and what
/// the state holds has no influence on the run.
pub proof fn state_is_threaded_through_handlers<GameState, Tick, Render, Keyboard, Mouse>(
    engine: EngineModel<GameState, Tick, Render, Keyboard, Mouse>,
    written: Option<GameState>,
    signals: Seq<Signal>,
)
    ensures
        engine.with_state(written).stepped_through(signals).state == written,
        engine.with_state(written).stepped_through(signals).life == engine.stepped_through(
            signals,
        ).life,
    decreases signals.len(),
{
    steps_touch_the_run_alone(engine.with_state(written), signals);
    if signals.len() > 0 {
        assert(engine.with_state(written).stepped(signals[0]) == engine.stepped(
            signals[0],
        ).with_state(written));
        state_is_threaded_through_handlers(engine.stepped(signals[0]), written, signals.skip(1));
    }
}

/// What the tick handler writes is what the render handler of the same
/// iteration finds: when the tick handler returns and the frame is due, the
/// engine asks for the render handler next, holding the state as the tick
/// handler left it.
pub proof fn tick_mutation_reaches_render<GameState, Tick, Render, Keyboard, Mouse>(
    engine: EngineModel<GameState, Tick, Render, Keyboard, Mouse>,
    written: GameState,
)
    requires
        engine.life is Running,
        engine.life->awaiting == (Awaiting::Tick { render_next: true }),
    ensures
        engine.with_state(Some(written)).stepped(Signal::Returned).life.command()
            == Command::InvokeRender,
        engine.with_state(Some(written)).stepped(Signal::Returned).state == Some(written),
{
}

} // verus!
