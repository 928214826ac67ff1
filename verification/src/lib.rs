//! A fixed-rate application loop, kept free of input and output.
//!
//! The crate holds the decisions of a real-time loop: how a raw input event
//! is classified and routed, when the logic tick and the frame are due, and
//! in which order polling, ticking and rendering follow one another. The
//! caller owns the window and the input source, performs each command that
//! the engine issues and reports back with a signal.

pub mod engine;
pub mod event;
pub mod iteration;
pub mod machine;
pub mod timing;

pub use event::{classify, route, EventClass, RawEvent, Route, KEYCODE_ESCAPE};
pub use timing::{interval_nanos, Due, Timer, Timing, NANOS_PER_SECOND};
pub use machine::{Awaiting, Command, Lifecycle, Signal, Slots};
pub use engine::{
    ConfigurationError, EngineModel, GameEngine, DEFAULT_FPS, DEFAULT_HEIGHT, DEFAULT_TPS,
    DEFAULT_WIDTH,
};
