//! Raw input events, their classification, and the handler each class is
//! routed to.

use vstd::prelude::*;

verus! {

/// The key code that SDL reports for the Escape key.
pub const KEYCODE_ESCAPE: i32 = 27;

/// What the input source reports of one event: its tag and, for a pressed
/// key, the key code.
#[derive(Clone, Copy, Debug, PartialEq, Eq, Structural)]
pub enum RawEvent {
    Quit,
    KeyDown { keycode: Option<i32> },
    KeyUp,
    MouseButtonDown,
    MouseButtonUp,
    MouseMotion,
    MouseWheel,
    Other,
}

/// The classes into which every raw event falls, each event into exactly one.
#[derive(Clone, Copy, Debug, PartialEq, Eq, Structural)]
pub enum EventClass {
    Quit,
    EscapePressed,
    KeyDown,
    KeyUp,
    MouseButtonDown,
    MouseButtonUp,
    MouseMove,
    MouseWheel,
    Other,
}

/// Where the loop sends an event of a given class.
#[derive(Clone, Copy, Debug, PartialEq, Eq, Structural)]
pub enum Route {
    /// Leave the loop at once.
    Exit,
    /// Hand the event to the keyboard handler.
    Keyboard,
    /// Hand the event to the mouse handler.
    Mouse,
    /// Drop the event.
    Ignore,
}

/// The class of a raw event. A pressed Escape key is a class of its own;
/// every other pressed key is a `KeyDown`.
pub open spec fn class_of(event: RawEvent) -> EventClass {
    match event {
        RawEvent::Quit => EventClass::Quit,
        RawEvent::KeyDown { keycode } => if keycode == Some(KEYCODE_ESCAPE) {
            EventClass::EscapePressed
        } else {
            EventClass::KeyDown
        },
        RawEvent::KeyUp => EventClass::KeyUp,
        RawEvent::MouseButtonDown => EventClass::MouseButtonDown,
        RawEvent::MouseButtonUp => EventClass::MouseButtonUp,
        RawEvent::MouseMotion => EventClass::MouseMove,
        RawEvent::MouseWheel => EventClass::MouseWheel,
        RawEvent::Other => EventClass::Other,
    }
}

/// The route of a class: quitting and Escape leave the loop, key events go
/// to the keyboard handler, mouse events to the mouse handler, the rest is
/// dropped.
pub open spec fn route_of(class: EventClass) -> Route {
    match class {
        EventClass::Quit | EventClass::EscapePressed => Route::Exit,
        EventClass::KeyDown | EventClass::KeyUp => Route::Keyboard,
        EventClass::MouseButtonDown
        | EventClass::MouseButtonUp
        | EventClass::MouseMove
        | EventClass::MouseWheel => Route::Mouse,
        EventClass::Other => Route::Ignore,
    }
}

/// Whether an event ends the run: a quit request or a pressed Escape key.
pub open spec fn ends_run(event: RawEvent) -> bool {
    route_of(class_of(event)) == Route::Exit
}

/// Classifies a raw event.
pub fn classify(event: &RawEvent) -> (class: EventClass)
    ensures
        class == class_of(*event),
{
    match event {
        RawEvent::Quit => EventClass::Quit,
        RawEvent::KeyDown { keycode: Some(code) } => {
            if *code == KEYCODE_ESCAPE {
                EventClass::EscapePressed
            } else {
                EventClass::KeyDown
            }
        },
        RawEvent::KeyDown { keycode: None } => EventClass::KeyDown,
        RawEvent::KeyUp => EventClass::KeyUp,
        RawEvent::MouseButtonDown => EventClass::MouseButtonDown,
        RawEvent::MouseButtonUp => EventClass::MouseButtonUp,
        RawEvent::MouseMotion => EventClass::MouseMove,
        RawEvent::MouseWheel => EventClass::MouseWheel,
        RawEvent::Other => EventClass::Other,
    }
}

/// Routes a class to the handler that receives it.
pub fn route(class: EventClass) -> (r: Route)
    ensures
        r == route_of(class),
{
    match class {
        EventClass::Quit | EventClass::EscapePressed => Route::Exit,
        EventClass::KeyDown | EventClass::KeyUp => Route::Keyboard,
        EventClass::MouseButtonDown
        | EventClass::MouseButtonUp
        | EventClass::MouseMove
        | EventClass::MouseWheel => Route::Mouse,
        EventClass::Other => Route::Ignore,
    }
}

/// The keyboard handler receives key events only, the mouse handler mouse
/// events only, and an event leaves the loop exactly when it is a quit
/// request or a pressed Escape key.
pub proof fn routing_respects_event_kind(event: RawEvent)
    ensures
        route_of(class_of(event)) == Route::Keyboard <==> (event is KeyUp || (event is KeyDown
            && event->keycode != Some(KEYCODE_ESCAPE))),
        route_of(class_of(event)) == Route::Mouse <==> (event is MouseButtonDown
            || event is MouseButtonUp || event is MouseMotion || event is MouseWheel),
        route_of(class_of(event)) == Route::Exit <==> (event is Quit || event
            == (RawEvent::KeyDown { keycode: Some(KEYCODE_ESCAPE) })),
        ends_run(event) <==> (class_of(event) == EventClass::Quit || class_of(event)
            == EventClass::EscapePressed),
        route_of(class_of(event)) == Route::Ignore <==> event is Other,
{
}

} // verus!
