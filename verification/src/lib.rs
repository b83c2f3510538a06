//! Core of a rotary-dial display controller.
//!
//! A hardware pulse counter decodes a quadrature-encoded knob into a bounded
//! signed count; an interrupt folds each saturation of that counter into a
//! process-wide offset; each frame tick the two are combined into an absolute
//! angle, merged with button and touch input, and a redraw is issued only when
//! that combined state has changed.  Everything here is pure logic on plain
//! values: the hardware peripherals, the bus I/O and the display sink live
//! outside and hand values in and out.

pub mod angle;
pub mod encoder;
pub mod touch;
pub mod trig;
pub mod frame;
pub mod scene;
pub mod controller;
pub mod display;
