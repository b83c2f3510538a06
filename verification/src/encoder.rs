//! Quadrature counter and overflow accumulation.
//!
//! The hardware pulse counter holds a signed count bounded to
//! `[LOW_LIMIT, HIGH_LIMIT]`; on reaching either bound it fires an event and
//! resets to zero, and the interrupt folds one `SATURATION_STEP` into a
//! process-wide offset per event.  `Encoder` models that coupled pair, so the
//! absolute position `count + offset` can be shown saturation-transparent.

use vstd::prelude::*;

verus! {

/// Lower bound of the hardware counter.
pub const LOW_LIMIT: i16 = -100;

/// Upper bound of the hardware counter.
pub const HIGH_LIMIT: i16 = 100;

/// Amount folded into the offset on each saturation event: the full bound
/// range, so that resetting the counter loses no position.
pub const SATURATION_STEP: i32 = 100;

/// Hardware-imposed maximum of the debounce filter width.
pub const MAX_FILTER: u16 = 1023;

/// Cap a requested debounce filter width at the hardware maximum.
pub fn clamp_filter(width: u16) -> (clamped: u16)
    ensures
        clamped == if width <= MAX_FILTER { width as int } else { MAX_FILTER as int },
{
    if width <= MAX_FILTER {
        width
    } else {
        MAX_FILTER
    }
}

/// Saturation events reported by the counter, as returned by its
/// get-and-clear-events capability.
pub struct BoundEvents {
    pub low_limit: bool,
    pub high_limit: bool,
}

/// The offset that one interrupt invocation leaves behind.  If both flags are
/// somehow set at once, the high bound takes priority and the step is applied
/// exactly once: a deterministic tie-break, not a double application.
pub open spec fn serviced_offset(offset: int, events: BoundEvents) -> int {
    if events.high_limit {
        offset + SATURATION_STEP
    } else if events.low_limit {
        offset - SATURATION_STEP
    } else {
        offset
    }
}

/// The interrupt handler's whole decision: do nothing when the hardware
/// interrupt flag was not actually set (a spurious invocation is a no-op, not
/// an error), otherwise fold the event into the offset and acknowledge.
pub fn interrupt_service(pending: bool, events: BoundEvents, offset: i32) -> (r: (i32, bool))
    requires
        i32::MIN + SATURATION_STEP <= offset <= i32::MAX - SATURATION_STEP,
    ensures
        pending ==> r.0 == serviced_offset(offset as int, events) && r.1,
        !pending ==> r.0 == offset && !r.1,
        events.high_limit && events.low_limit ==> r.0 != offset - SATURATION_STEP,
{
    if pending {
        let serviced: i32 = if events.high_limit {
            offset + SATURATION_STEP
        } else if events.low_limit {
            offset - SATURATION_STEP
        } else {
            offset
        };
        (serviced, true)
    } else {
        (offset, false)
    }
}

/// Mathematical model of the counter/offset pair.
pub struct EncoderView {
    pub count: int,
    pub offset: int,
}

impl EncoderView {
    /// The counter rests strictly between its bounds: on touching a bound the
    /// hardware has already reset it to zero.
    pub open spec fn wf(self) -> bool {
        LOW_LIMIT < self.count < HIGH_LIMIT
    }

    /// Absolute position before modulo wrapping.
    pub open spec fn position(self) -> int {
        self.count + self.offset
    }
}

/// One counted edge on one channel: the count moves by one; on reaching a
/// bound the hardware resets it to zero and the interrupt folds the step into
/// the offset.
pub open spec fn unit_step(v: EncoderView, up: bool) -> EncoderView {
    let moved = if up {
        v.count + 1
    } else {
        v.count - 1
    };
    if moved == HIGH_LIMIT {
        EncoderView { count: 0, offset: v.offset + SATURATION_STEP }
    } else if moved == LOW_LIMIT {
        EncoderView { count: 0, offset: v.offset - SATURATION_STEP }
    } else {
        EncoderView { count: moved, offset: v.offset }
    }
}

/// One physical quadrature edge: the two mirrored channels each count it, so
/// a single edge moves the position by two.
pub open spec fn edge_step(v: EncoderView, clockwise: bool) -> EncoderView {
    unit_step(unit_step(v, clockwise), clockwise)
}

/// The state after a whole sequence of physical edges.
pub open spec fn run_edges(v: EncoderView, edges: Seq<bool>) -> EncoderView
    decreases edges.len(),
{
    if edges.len() == 0 {
        v
    } else {
        run_edges(edge_step(v, edges[0]), edges.drop_first())
    }
}

/// Net signed edge count of a sequence: clockwise edges minus
/// counter-clockwise edges.
pub open spec fn net_edges(edges: Seq<bool>) -> int
    decreases edges.len(),
{
    if edges.len() == 0 {
        0
    } else {
        (if edges[0] {
            1int
        } else {
            -1int
        }) + net_edges(edges.drop_first())
    }
}

/// A single counted edge moves the position by exactly one, whether or not it
/// saturated the counter.
pub proof fn lemma_unit_step_position(v: EncoderView, up: bool)
    ensures
        unit_step(v, up).position() == v.position() + (if up {
            1int
        } else {
            -1int
        }),
{
}

/// The absolute position is saturation-transparent: over any sequence of
/// physical quadrature edges it changes by exactly the net signed edge count,
/// scaled by the channel-doubling factor, no matter how many saturation
/// events fired in between.
pub proof fn lemma_position_saturation_transparent(v: EncoderView, edges: Seq<bool>)
    ensures
        run_edges(v, edges).position() == v.position() + 2 * net_edges(edges),
    decreases edges.len(),
{
    if edges.len() == 0 {
    } else {
        lemma_unit_step_position(v, edges[0]);
        lemma_unit_step_position(unit_step(v, edges[0]), edges[0]);
        lemma_position_saturation_transparent(edge_step(v, edges[0]), edges.drop_first());
    }
}

/// Executable model of the counter/offset pair, used to simulate rotation.
pub struct Encoder {
    /// Bounded hardware count.
    pub count: i16,
    /// Process-wide offset accumulated by the interrupt.
    pub offset: i32,
}

impl View for Encoder {
    type V = EncoderView;

    open spec fn view(&self) -> EncoderView {
        EncoderView { count: self.count as int, offset: self.offset as int }
    }
}

impl Encoder {
    /// Headroom so that folding one more step into the offset cannot
    /// overflow.
    pub open spec fn offset_in_range(self) -> bool {
        i32::MIN + SATURATION_STEP <= self.offset <= i32::MAX - SATURATION_STEP
    }

    pub fn new() -> (e: Encoder)
        ensures
            e@.wf(),
            e@.position() == 0,
            e.offset_in_range(),
    {
        Encoder { count: 0, offset: 0 }
    }

    /// Non-blocking read of the bounded count.
    pub fn read(&self) -> (count: i16)
        ensures
            count == self@.count,
    {
        self.count
    }

    /// One counted edge on one channel.
    pub fn step(&mut self, up: bool)
        requires
            old(self)@.wf(),
            old(self).offset_in_range(),
        ensures
            final(self)@ == unit_step(old(self)@, up),
            final(self)@.wf(),
    {
        let moved: i16 = if up {
            self.count + 1
        } else {
            self.count - 1
        };
        if moved == HIGH_LIMIT {
            self.count = 0;
            self.offset = self.offset + SATURATION_STEP;
        } else if moved == LOW_LIMIT {
            self.count = 0;
            self.offset = self.offset - SATURATION_STEP;
        } else {
            self.count = moved;
        }
    }

    /// One physical quadrature edge, counted once by each of the two mirrored
    /// channels.
    pub fn edge(&mut self, clockwise: bool)
        requires
            old(self)@.wf(),
            i32::MIN + 2 * SATURATION_STEP <= old(self).offset <= i32::MAX - 2 * SATURATION_STEP,
        ensures
            final(self)@ == edge_step(old(self)@, clockwise),
            final(self)@.wf(),
            final(self)@.position() == old(self)@.position() + (if clockwise {
                2int
            } else {
                -2int
            }),
    {
        self.step(clockwise);
        self.step(clockwise);
        proof {
            lemma_unit_step_position(old(self)@, clockwise);
            lemma_unit_step_position(unit_step(old(self)@, clockwise), clockwise);
        }
    }
}

} // verus!
