//! Scene composition: from a frame state to a fixed set of draw primitives.
//!
//! The frame is cleared to the background color; one circular indicator is
//! placed on a circle of radius `DIAL_RADIUS` around the display center at
//! the resolved angle, with a smaller diameter while the button is pressed;
//! and up to two circles mark the touch points.  Touch coordinates arrive
//! rotated a quarter turn against the display's native axes (a known panel
//! mounting mismatch), so a touch `(x, y)` lands at display `(y, 240 - x)`.
//! Circle centers are computed in fixed-point integer arithmetic, rounding
//! the radial offsets toward negative infinity.

use vstd::prelude::*;
use crate::frame::FrameState;
use crate::touch::{TouchPoint, TouchSnapshot};
use crate::trig::{cos_mil, cos_scaled, sin_mil, sin_scaled, TRIG_SCALE};

verus! {

/// Side of the square display frame, in pixels.
pub const FRAME_SIZE: i32 = 240;

/// Coordinate of the display center on each axis.
pub const DISPLAY_CENTER: i32 = 120;

/// Radius of the circle the indicator rides on.
pub const DIAL_RADIUS: i32 = 100;

/// Indicator diameter while the button is pressed.
pub const DIAL_DIAMETER_PRESSED: u32 = 20;

/// Indicator diameter while the button is released.
pub const DIAL_DIAMETER_RELEASED: u32 = 40;

pub const DIAL_STROKE_WIDTH: u32 = 4;

/// Diameter of a touch marker circle.
pub const TOUCH_DIAMETER: u32 = 60;

pub const TOUCH_STROKE_WIDTH: u32 = 2;

/// Colors as 16-bit RGB565 values.
pub const BACKGROUND_COLOR: u16 = 0x001F;

pub const DIAL_STROKE_COLOR: u16 = 0xFFE0;

pub const DIAL_FILL_COLOR: u16 = 0x0000;

pub const TOUCH_STROKE_COLOR: u16 = 0xFFFF;

pub const TOUCH_FILL_COLOR: u16 = 0xF800;

/// One drawing primitive handed to the external rasterizer.  Circles are
/// given by their center.
#[derive(Clone, Copy, PartialEq, Eq, Structural, Debug)]
pub enum DrawOp {
    /// Clear the whole frame to one color.
    Clear { color: u16 },
    /// A stroked and filled circle.
    FilledCircle {
        cx: i32,
        cy: i32,
        diameter: u32,
        stroke_width: u32,
        stroke_color: u16,
        fill_color: u16,
    },
}

/// Display x of a touch point: the controller's y axis.
pub open spec fn touch_display_x(p: TouchPoint) -> int {
    p.y as int
}

/// Display y of a touch point: the frame height minus the controller's x.
pub open spec fn touch_display_y(p: TouchPoint) -> int {
    FRAME_SIZE - p.x as int
}

/// Rotate a touch point into display coordinates: `(x, y)` maps to
/// `(y, 240 - x)`.
pub fn map_touch_to_display(p: TouchPoint) -> (q: (i32, i32))
    ensures
        q.0 == touch_display_x(p),
        q.1 == touch_display_y(p),
{
    (p.y as i32, FRAME_SIZE - p.x as i32)
}

/// Horizontal center of the indicator: the display center plus the scaled
/// cosine of the angle, rounded toward negative infinity.
pub open spec fn indicator_center_x(angle: int) -> int {
    DISPLAY_CENTER + (DIAL_RADIUS * (cos_scaled(angle) + TRIG_SCALE)) / (TRIG_SCALE as int)
        - DIAL_RADIUS
}

/// Vertical center of the indicator, from the scaled sine.
pub open spec fn indicator_center_y(angle: int) -> int {
    DISPLAY_CENTER + (DIAL_RADIUS * (sin_scaled(angle) + TRIG_SCALE)) / (TRIG_SCALE as int)
        - DIAL_RADIUS
}

/// Center of the indicator circle for a resolved angle.
pub fn indicator_center(angle: u16) -> (c: (i32, i32))
    requires
        angle < 360,
    ensures
        c.0 == indicator_center_x(angle as int),
        c.1 == indicator_center_y(angle as int),
        DISPLAY_CENTER - DIAL_RADIUS <= c.0 <= DISPLAY_CENTER + DIAL_RADIUS,
        DISPLAY_CENTER - DIAL_RADIUS <= c.1 <= DISPLAY_CENTER + DIAL_RADIUS,
{
    let cosine: i32 = cos_mil(angle);
    let sine: i32 = sin_mil(angle);
    let cx: i32 = DISPLAY_CENTER + DIAL_RADIUS * (cosine + TRIG_SCALE) / TRIG_SCALE
        - DIAL_RADIUS;
    let cy: i32 = DISPLAY_CENTER + DIAL_RADIUS * (sine + TRIG_SCALE) / TRIG_SCALE - DIAL_RADIUS;
    (cx, cy)
}

/// The indicator diameter: smaller while pressed, larger while released — a
/// visual affordance of the button state.
pub open spec fn spec_indicator_diameter(pressed: bool) -> u32 {
    if pressed {
        DIAL_DIAMETER_PRESSED
    } else {
        DIAL_DIAMETER_RELEASED
    }
}

pub fn indicator_diameter(pressed: bool) -> (d: u32)
    ensures
        d == spec_indicator_diameter(pressed),
{
    if pressed {
        DIAL_DIAMETER_PRESSED
    } else {
        DIAL_DIAMETER_RELEASED
    }
}

/// The clear that opens every redraw.
pub open spec fn background_op() -> DrawOp {
    DrawOp::Clear { color: BACKGROUND_COLOR }
}

/// The indicator circle for an angle and button state.  Its center depends
/// on the angle alone; the button state sets only the diameter.
pub open spec fn indicator_op(angle: int, pressed: bool) -> DrawOp {
    DrawOp::FilledCircle {
        cx: indicator_center_x(angle) as i32,
        cy: indicator_center_y(angle) as i32,
        diameter: spec_indicator_diameter(pressed),
        stroke_width: DIAL_STROKE_WIDTH,
        stroke_color: DIAL_STROKE_COLOR,
        fill_color: DIAL_FILL_COLOR,
    }
}

/// The marker circle for one touch point, at its display coordinates.
pub open spec fn touch_op(p: TouchPoint) -> DrawOp {
    DrawOp::FilledCircle {
        cx: touch_display_x(p) as i32,
        cy: touch_display_y(p) as i32,
        diameter: TOUCH_DIAMETER,
        stroke_width: TOUCH_STROKE_WIDTH,
        stroke_color: TOUCH_STROKE_COLOR,
        fill_color: TOUCH_FILL_COLOR,
    }
}

/// The touch markers of a snapshot: one per reported point, first point
/// first.
pub open spec fn touch_ops(t: TouchSnapshot) -> Seq<DrawOp> {
    match (t.first, t.second) {
        (Some(p1), None) => seq![touch_op(p1)],
        (Some(p1), Some(p2)) => seq![touch_op(p1), touch_op(p2)],
        _ => Seq::empty(),
    }
}

/// The whole scene for one frame state: clear, indicator, touch markers.
pub open spec fn scene_ops(state: FrameState) -> Seq<DrawOp> {
    seq![background_op(), indicator_op(state.angle as int, state.pressed)] + touch_ops(
        state.touches,
    )
}

/// Compose the draw list for one frame state.
pub fn compose(state: &FrameState) -> (ops: Vec<DrawOp>)
    requires
        state.angle < 360,
    ensures
        ops@ == scene_ops(*state),
        2 <= ops@.len() <= 4,
{
    let mut ops: Vec<DrawOp> = Vec::new();
    ops.push(DrawOp::Clear { color: BACKGROUND_COLOR });
    let center = indicator_center(state.angle);
    ops.push(
        DrawOp::FilledCircle {
            cx: center.0,
            cy: center.1,
            diameter: indicator_diameter(state.pressed),
            stroke_width: DIAL_STROKE_WIDTH,
            stroke_color: DIAL_STROKE_COLOR,
            fill_color: DIAL_FILL_COLOR,
        },
    );
    match (&state.touches.first, &state.touches.second) {
        (Some(p1), None) => {
            push_touch_marker(&mut ops, *p1);
        },
        (Some(p1), Some(p2)) => {
            push_touch_marker(&mut ops, *p1);
            push_touch_marker(&mut ops, *p2);
        },
        _ => {},
    }
    proof {
        assert(ops@ =~= scene_ops(*state));
    }
    ops
}

/// Append the marker circle of one touch point.
fn push_touch_marker(ops: &mut Vec<DrawOp>, p: TouchPoint)
    ensures
        final(ops)@ == old(ops)@.push(touch_op(p)),
{
    let q = map_touch_to_display(p);
    ops.push(
        DrawOp::FilledCircle {
            cx: q.0,
            cy: q.1,
            diameter: TOUCH_DIAMETER,
            stroke_width: TOUCH_STROKE_WIDTH,
            stroke_color: TOUCH_STROKE_COLOR,
            fill_color: TOUCH_FILL_COLOR,
        },
    );
}

/// The button state reaches exactly one place in the scene: the indicator's
/// diameter.  With the angle and touch state fixed, pressing changes neither
/// the clear, nor the indicator's center, stroke or colors, nor any touch
/// marker.
pub proof fn lemma_press_changes_only_diameter(angle: int, touches: TouchSnapshot)
    ensures
        ({
            let while_pressed = scene_ops(
                FrameState { angle: angle as u16, pressed: true, touches },
            );
            let while_released = scene_ops(
                FrameState { angle: angle as u16, pressed: false, touches },
            );
            &&& while_pressed.len() == while_released.len()
            &&& while_pressed[0] == while_released[0]
            &&& while_pressed[1]->cx == while_released[1]->cx
            &&& while_pressed[1]->cy == while_released[1]->cy
            &&& while_pressed[1]->stroke_width == while_released[1]->stroke_width
            &&& while_pressed[1]->stroke_color == while_released[1]->stroke_color
            &&& while_pressed[1]->fill_color == while_released[1]->fill_color
            &&& while_pressed[1]->diameter == DIAL_DIAMETER_PRESSED
            &&& while_released[1]->diameter == DIAL_DIAMETER_RELEASED
            &&& forall|i: int|
                2 <= i < while_pressed.len() ==> while_pressed[i] == while_released[i]
        }),
{
}

} // verus!
