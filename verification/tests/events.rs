use rgbp::{classify, route, EventClass, RawEvent, Route, KEYCODE_ESCAPE};

fn all_events() -> Vec<RawEvent> {
    vec![
        RawEvent::Quit,
        RawEvent::KeyDown { keycode: Some(KEYCODE_ESCAPE) },
        RawEvent::KeyDown { keycode: Some(119) },
        RawEvent::KeyDown { keycode: None },
        RawEvent::KeyUp,
        RawEvent::MouseButtonDown,
        RawEvent::MouseButtonUp,
        RawEvent::MouseMotion,
        RawEvent::MouseWheel,
        RawEvent::Other,
    ]
}

#[test]
fn escape_key_code_is_27() {
    assert_eq!(KEYCODE_ESCAPE, 27);
}

#[test]
fn escape_key_down_is_its_own_class() {
    let event = RawEvent::KeyDown { keycode: Some(KEYCODE_ESCAPE) };
    assert_eq!(classify(&event), EventClass::EscapePressed);
    assert_eq!(route(classify(&event)), Route::Exit);
}

#[test]
fn every_event_has_its_class() {
    let classes: Vec<EventClass> = all_events().iter().map(classify).collect();
    assert_eq!(
        classes,
        vec![
            EventClass::Quit,
            EventClass::EscapePressed,
            EventClass::KeyDown,
            EventClass::KeyDown,
            EventClass::KeyUp,
            EventClass::MouseButtonDown,
            EventClass::MouseButtonUp,
            EventClass::MouseMove,
            EventClass::MouseWheel,
            EventClass::Other,
        ]
    );
}

#[test]
fn every_class_has_its_route() {
    assert_eq!(route(EventClass::Quit), Route::Exit);
    assert_eq!(route(EventClass::EscapePressed), Route::Exit);
    assert_eq!(route(EventClass::KeyDown), Route::Keyboard);
    assert_eq!(route(EventClass::KeyUp), Route::Keyboard);
    assert_eq!(route(EventClass::MouseButtonDown), Route::Mouse);
    assert_eq!(route(EventClass::MouseButtonUp), Route::Mouse);
    assert_eq!(route(EventClass::MouseMove), Route::Mouse);
    assert_eq!(route(EventClass::MouseWheel), Route::Mouse);
    assert_eq!(route(EventClass::Other), Route::Ignore);
}

#[test]
fn escape_key_up_does_not_leave_the_loop() {
    assert_eq!(route(classify(&RawEvent::KeyUp)), Route::Keyboard);
}

#[test]
fn key_down_without_key_code_goes_to_the_keyboard() {
    let event = RawEvent::KeyDown { keycode: None };
    assert_eq!(classify(&event), EventClass::KeyDown);
    assert_eq!(route(classify(&event)), Route::Keyboard);
}

#[test]
fn neighbours_of_the_escape_code_are_plain_keys() {
    for code in [26, 28, -27, 0, i32::MAX, i32::MIN] {
        let event = RawEvent::KeyDown { keycode: Some(code) };
        assert_eq!(classify(&event), EventClass::KeyDown);
    }
}

#[test]
fn keyboard_route_is_for_key_events_only() {
    for event in all_events() {
        let is_key = matches!(event, RawEvent::KeyUp)
            || (matches!(event, RawEvent::KeyDown { .. })
                && event != RawEvent::KeyDown { keycode: Some(KEYCODE_ESCAPE) });
        assert_eq!(route(classify(&event)) == Route::Keyboard, is_key);
    }
}

#[test]
fn mouse_route_is_for_mouse_events_only() {
    for event in all_events() {
        let is_mouse = matches!(
            event,
            RawEvent::MouseButtonDown
                | RawEvent::MouseButtonUp
                | RawEvent::MouseMotion
                | RawEvent::MouseWheel
        );
        assert_eq!(route(classify(&event)) == Route::Mouse, is_mouse);
    }
}
