//! Per-tick state and change-gated render scheduling.
//!
//! Each tick produces a fresh `FrameState` from the resolved angle and the
//! input snapshot.  The scheduler compares it field by field against the
//! previous accepted state and asks for a redraw only when something changed;
//! the very first tick always redraws so the initial frame is never skipped.

use vstd::prelude::*;
use crate::touch::TouchSnapshot;

verus! {

/// Immutable record of the inputs polled in one tick.
#[derive(Clone, Copy, Debug)]
pub struct InputSnapshot {
    /// Button state, already converted from the active-low line: true means
    /// pressed.
    pub pressed: bool,
    /// Touch points reported this tick.
    pub touches: TouchSnapshot,
}

/// The unit of change detection: everything a redraw depends on.
#[derive(Clone, Copy, Debug)]
pub struct FrameState {
    /// Resolved angle in whole degrees, `[0, 360)`.
    pub angle: u16,
    pub pressed: bool,
    pub touches: TouchSnapshot,
}

impl FrameState {
    /// Field-by-field comparison against another frame state.
    pub fn same_as(&self, other: &FrameState) -> (same: bool)
        ensures
            same <==> *self == *other,
    {
        self.angle == other.angle && self.pressed == other.pressed && self.touches.same_as(
            &other.touches,
        )
    }
}

/// Whether a tick that resolved `state` must redraw, given the previously
/// accepted frame: on the very first tick (no previous frame) always, later
/// exactly when some field changed.
pub open spec fn redraw_needed(last: Option<FrameState>, state: FrameState) -> bool {
    last != Some(state)
}

/// The change-gating core of the render loop.
pub struct RenderScheduler {
    /// The last accepted frame state; `None` before the first tick.
    pub last: Option<FrameState>,
}

impl RenderScheduler {
    pub fn new() -> (s: RenderScheduler)
        ensures
            s.last is None,
    {
        RenderScheduler { last: None }
    }

    /// Present this tick's state: decides whether to redraw and adopts the
    /// state as the new previous frame.
    pub fn observe(&mut self, state: FrameState) -> (redraw: bool)
        ensures
            redraw == redraw_needed(old(self).last, state),
            final(self).last == Some(state),
    {
        let redraw: bool = match &self.last {
            None => true,
            Some(prev) => !prev.same_as(&state),
        };
        self.last = Some(state);
        redraw
    }
}

/// Idempotence of the redraw gate: a first tick always redraws, and once a
/// state has been adopted, a second tick with the unchanged state performs no
/// redraw — so an unchanged input sequence redraws exactly once, on its first
/// tick.
pub proof fn lemma_unchanged_tick_skips_redraw(last: Option<FrameState>, state: FrameState)
    ensures
        !redraw_needed(Some(state), state),
        last is None ==> redraw_needed(last, state),
{
}

} // verus!
