use rotary_dial::controller::tick;
use rotary_dial::frame::{FrameState, InputSnapshot, RenderScheduler};
use rotary_dial::scene::{compose, map_touch_to_display, DrawOp};
use rotary_dial::touch::{TouchPoint, TouchSnapshot};
use rotary_dial::trig::{cos_mil, sin_mil};

#[test]
fn trig_exact_at_quarter_turns() {
    assert_eq!(sin_mil(0), 0);
    assert_eq!(sin_mil(90), 1000);
    assert_eq!(sin_mil(180), 0);
    assert_eq!(sin_mil(270), -1000);
    assert_eq!(cos_mil(0), 1000);
    assert_eq!(cos_mil(90), 0);
    assert_eq!(cos_mil(180), -1000);
    assert_eq!(cos_mil(270), 0);
}

#[test]
fn touch_maps_rotated_quarter_turn() {
    // A touch at controller (x, y) lands at display (y, 240 - x).
    let q = map_touch_to_display(TouchPoint { x: 10, y: 20 });
    assert_eq!(q, (20, 230));
}

#[test]
fn press_changes_diameter_and_nothing_else() {
    // With the angle fixed at 90 degrees, toggling the button moves the
    // diameter between 40 and 20 and leaves the center untouched.
    let touches = TouchSnapshot::empty();
    let released = compose(&FrameState { angle: 90, pressed: false, touches });
    let pressed = compose(&FrameState { angle: 90, pressed: true, touches });
    assert_eq!(released.len(), 2);
    assert_eq!(pressed.len(), 2);
    assert_eq!(released[0], pressed[0]);
    match (released[1], pressed[1]) {
        (
            DrawOp::FilledCircle { cx: rx, cy: ry, diameter: rd, .. },
            DrawOp::FilledCircle { cx: px, cy: py, diameter: pd, .. },
        ) => {
            assert_eq!((rx, ry), (120, 220));
            assert_eq!((px, py), (120, 220));
            assert_eq!(rd, 40);
            assert_eq!(pd, 20);
        }
        _ => panic!("indicator circle missing"),
    }
}

#[test]
fn scene_draws_touch_markers() {
    let touches = TouchSnapshot {
        first: Some(TouchPoint { x: 10, y: 20 }),
        second: Some(TouchPoint { x: 100, y: 200 }),
    };
    let ops = compose(&FrameState { angle: 0, pressed: false, touches });
    assert_eq!(ops.len(), 4);
    assert_eq!(
        ops[2],
        DrawOp::FilledCircle {
            cx: 20,
            cy: 230,
            diameter: 60,
            stroke_width: 2,
            stroke_color: 0xFFFF,
            fill_color: 0xF800,
        }
    );
    assert_eq!(
        ops[3],
        DrawOp::FilledCircle {
            cx: 200,
            cy: 140,
            diameter: 60,
            stroke_width: 2,
            stroke_color: 0xFFFF,
            fill_color: 0xF800,
        }
    );
}

#[test]
fn end_to_end_midpoint_frame() {
    // Raw counter 64 of a 128 period, zero offset: angle 180, indicator
    // centered at (20, 120) for radius 100 around (120, 120).
    let mut scheduler = RenderScheduler::new();
    let inputs = InputSnapshot { pressed: false, touches: TouchSnapshot::empty() };
    let ops = tick(&mut scheduler, 64, 0, inputs);
    assert_eq!(ops.len(), 2);
    assert_eq!(ops[0], DrawOp::Clear { color: 0x001F });
    assert_eq!(
        ops[1],
        DrawOp::FilledCircle {
            cx: 20,
            cy: 120,
            diameter: 40,
            stroke_width: 4,
            stroke_color: 0xFFE0,
            fill_color: 0x0000,
        }
    );
    // An unchanged second tick performs no draw calls.
    let second = tick(&mut scheduler, 64, 0, inputs);
    assert!(second.is_empty());
}

#[test]
fn tick_recomposes_on_touch_change() {
    let mut scheduler = RenderScheduler::new();
    let quiet = InputSnapshot { pressed: false, touches: TouchSnapshot::empty() };
    let ops = tick(&mut scheduler, 0, 0, quiet);
    assert_eq!(ops.len(), 2);
    let touched = InputSnapshot {
        pressed: false,
        touches: TouchSnapshot { first: Some(TouchPoint { x: 1, y: 2 }), second: None },
    };
    let ops = tick(&mut scheduler, 0, 0, touched);
    assert_eq!(ops.len(), 3);
}
