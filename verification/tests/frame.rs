use rotary_dial::frame::{FrameState, RenderScheduler};
use rotary_dial::touch::{TouchPoint, TouchSnapshot};

#[test]
fn unchanged_input_redraws_exactly_once() {
    // Two consecutive ticks with identical state: only the first redraws.
    let mut scheduler = RenderScheduler::new();
    let state = FrameState { angle: 90, pressed: false, touches: TouchSnapshot::empty() };
    assert!(scheduler.observe(state));
    assert!(!scheduler.observe(state));
    assert!(!scheduler.observe(state));
}

#[test]
fn first_tick_always_redraws() {
    let mut scheduler = RenderScheduler::new();
    let state = FrameState { angle: 0, pressed: false, touches: TouchSnapshot::empty() };
    assert!(scheduler.observe(state));
}

#[test]
fn angle_change_redraws() {
    let mut scheduler = RenderScheduler::new();
    let touches = TouchSnapshot::empty();
    scheduler.observe(FrameState { angle: 10, pressed: false, touches });
    assert!(scheduler.observe(FrameState { angle: 11, pressed: false, touches }));
}

#[test]
fn button_change_redraws() {
    let mut scheduler = RenderScheduler::new();
    let touches = TouchSnapshot::empty();
    scheduler.observe(FrameState { angle: 10, pressed: false, touches });
    assert!(scheduler.observe(FrameState { angle: 10, pressed: true, touches }));
}

#[test]
fn touch_only_change_redraws() {
    // A change in the touch snapshot alone still triggers a full redraw.
    let mut scheduler = RenderScheduler::new();
    scheduler.observe(FrameState { angle: 10, pressed: false, touches: TouchSnapshot::empty() });
    let touched = TouchSnapshot { first: Some(TouchPoint { x: 5, y: 6 }), second: None };
    assert!(scheduler.observe(FrameState { angle: 10, pressed: false, touches: touched }));
    // And lifting the finger is a change again.
    assert!(scheduler.observe(FrameState { angle: 10, pressed: false, touches: TouchSnapshot::empty() }));
}

#[test]
fn state_comparison_is_field_by_field() {
    let touches = TouchSnapshot { first: Some(TouchPoint { x: 1, y: 2 }), second: None };
    let a = FrameState { angle: 5, pressed: true, touches };
    let b = FrameState { angle: 5, pressed: true, touches };
    assert!(a.same_as(&b));
    let c = FrameState {
        angle: 5,
        pressed: true,
        touches: TouchSnapshot { first: Some(TouchPoint { x: 1, y: 3 }), second: None },
    };
    assert!(!a.same_as(&c));
}
