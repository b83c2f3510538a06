//! The per-tick pipeline of the render loop.
//!
//! Each iteration of the foreground loop reads the bounded count, the
//! accumulated offset and the input snapshot, and hands them here: the angle
//! is resolved, the frame state built, the change gate consulted, and — only
//! when something changed — the scene composed.  The caller performs the
//! actual draw calls and the fixed frame delay.

use vstd::prelude::*;
use crate::angle::{angle_of_position, resolve_angle};
use crate::frame::{FrameState, InputSnapshot, RenderScheduler, redraw_needed};
use crate::scene::{compose, scene_ops};

verus! {

/// The frame state a tick derives from the raw readings.
pub open spec fn resolved_state(count: int, offset: int, inputs: InputSnapshot) -> FrameState {
    FrameState {
        angle: angle_of_position(count + offset) as u16,
        pressed: inputs.pressed,
        touches: inputs.touches,
    }
}

/// One tick: resolve the state, and return the draw list — the full scene
/// when the state differs from the previously accepted frame (or on the
/// first tick), an empty list otherwise.
pub fn tick(scheduler: &mut RenderScheduler, count: i16, offset: i32, inputs: InputSnapshot) -> (ops:
    Vec<crate::scene::DrawOp>)
    ensures
        ({
            let state = resolved_state(count as int, offset as int, inputs);
            &&& final(scheduler).last == Some(state)
            &&& redraw_needed(old(scheduler).last, state) ==> ops@ == scene_ops(state)
            &&& !redraw_needed(old(scheduler).last, state) ==> ops@ == Seq::<
                crate::scene::DrawOp,
            >::empty()
        }),
{
    let angle: u16 = resolve_angle(count, offset);
    let state = FrameState { angle, pressed: inputs.pressed, touches: inputs.touches };
    let redraw: bool = scheduler.observe(state);
    if redraw {
        compose(&state)
    } else {
        Vec::new()
    }
}

} // verus!
