//! Touch input sampling.
//!
//! The touch controller is read as a fixed burst of thirteen registers each
//! tick.  A failed read of a single register keeps that byte at its previous
//! value rather than aborting the sample, so one bus hiccup never blanks the
//! touch state.  The status byte carries the point count; up to two 12-bit
//! `(x, y)` pairs follow and are extracted only when the count says they are
//! present.

use vstd::prelude::*;

verus! {

/// Number of touch-controller registers read each tick.
pub const TOUCH_REGISTER_COUNT: usize = 13;

/// Index of the status byte holding the touch point count.
pub const REG_STATUS: usize = 2;

/// Indices of the first point's coordinate bytes.
pub const REG_TP1_XH: usize = 3;

pub const REG_TP1_XL: usize = 4;

pub const REG_TP1_YH: usize = 5;

pub const REG_TP1_YL: usize = 6;

/// Indices of the second point's coordinate bytes.
pub const REG_TP2_XH: usize = 9;

pub const REG_TP2_XL: usize = 10;

pub const REG_TP2_YH: usize = 11;

pub const REG_TP2_YL: usize = 12;

/// One reported touch point, in controller coordinates.
#[derive(Clone, Copy, PartialEq, Eq, Structural, Debug)]
pub struct TouchPoint {
    pub x: u16,
    pub y: u16,
}

/// Up to two touch points reported in one sample.
#[derive(Clone, Copy, Debug)]
pub struct TouchSnapshot {
    pub first: Option<TouchPoint>,
    pub second: Option<TouchPoint>,
}

impl TouchSnapshot {
    pub fn empty() -> (snap: TouchSnapshot)
        ensures
            snap.first is None,
            snap.second is None,
    {
        TouchSnapshot { first: None, second: None }
    }

    /// Whether two snapshots report the same points.
    pub fn same_as(&self, other: &TouchSnapshot) -> (same: bool)
        ensures
            same <==> *self == *other,
    {
        same_point(&self.first, &other.first) && same_point(&self.second, &other.second)
    }
}

/// Whether two optional points are equal.
pub fn same_point(a: &Option<TouchPoint>, b: &Option<TouchPoint>) -> (same: bool)
    ensures
        same <==> *a == *b,
{
    match (a, b) {
        (None, None) => true,
        (Some(p), Some(q)) => p.x == q.x && p.y == q.y,
        _ => false,
    }
}

/// A 12-bit coordinate from its high and low register bytes: the low nibble
/// of the high byte, shifted over the whole low byte.
pub open spec fn coord_of_bytes(hi: u8, lo: u8) -> u16 {
    (((hi & 0x0F) as u16) << 8) | (lo as u16)
}

/// The first point of a sample buffer, present when the status count is at
/// least one.
pub open spec fn decoded_first(buf: Seq<u8>) -> Option<TouchPoint> {
    if buf[REG_STATUS as int] > 0 {
        Some(
            TouchPoint {
                x: coord_of_bytes(buf[REG_TP1_XH as int], buf[REG_TP1_XL as int]),
                y: coord_of_bytes(buf[REG_TP1_YH as int], buf[REG_TP1_YL as int]),
            },
        )
    } else {
        None
    }
}

/// The second point of a sample buffer, present when the status count is at
/// least two.
pub open spec fn decoded_second(buf: Seq<u8>) -> Option<TouchPoint> {
    if buf[REG_STATUS as int] > 1 {
        Some(
            TouchPoint {
                x: coord_of_bytes(buf[REG_TP2_XH as int], buf[REG_TP2_XL as int]),
                y: coord_of_bytes(buf[REG_TP2_YH as int], buf[REG_TP2_YL as int]),
            },
        )
    } else {
        None
    }
}

/// Decode one register burst into the touch points it reports.
pub fn decode_touch(buf: &Vec<u8>) -> (snap: TouchSnapshot)
    requires
        buf.len() == TOUCH_REGISTER_COUNT,
    ensures
        snap.first == decoded_first(buf@),
        snap.second == decoded_second(buf@),
{
    let count: u8 = buf[REG_STATUS];
    let first: Option<TouchPoint> = if count > 0 {
        Some(
            TouchPoint {
                x: (((buf[REG_TP1_XH] & 0x0F) as u16) << 8) | (buf[REG_TP1_XL] as u16),
                y: (((buf[REG_TP1_YH] & 0x0F) as u16) << 8) | (buf[REG_TP1_YL] as u16),
            },
        )
    } else {
        None
    };
    let second: Option<TouchPoint> = if count > 1 {
        Some(
            TouchPoint {
                x: (((buf[REG_TP2_XH] & 0x0F) as u16) << 8) | (buf[REG_TP2_XL] as u16),
                y: (((buf[REG_TP2_YH] & 0x0F) as u16) << 8) | (buf[REG_TP2_YL] as u16),
            },
        )
    } else {
        None
    };
    TouchSnapshot { first, second }
}

/// The byte a sample keeps for one register: the fresh read where it
/// succeeded, the previous byte where it failed.
pub open spec fn merged_byte(previous: u8, read: Option<u8>) -> u8 {
    match read {
        Some(b) => b,
        None => previous,
    }
}

/// Fold one burst of per-register read results into the previous buffer,
/// keeping the old byte wherever a read failed.
pub fn merge_reads(previous: &Vec<u8>, reads: &Vec<Option<u8>>) -> (buf: Vec<u8>)
    requires
        previous.len() == TOUCH_REGISTER_COUNT,
        reads.len() == TOUCH_REGISTER_COUNT,
    ensures
        buf.len() == TOUCH_REGISTER_COUNT,
        forall|i: int|
            0 <= i < TOUCH_REGISTER_COUNT ==> buf[i] == merged_byte(previous[i], reads[i]),
{
    let mut buf: Vec<u8> = Vec::new();
    let mut i: usize = 0;
    while i < TOUCH_REGISTER_COUNT
        invariant
            i <= TOUCH_REGISTER_COUNT,
            buf.len() == i,
            previous.len() == TOUCH_REGISTER_COUNT,
            reads.len() == TOUCH_REGISTER_COUNT,
            forall|j: int| 0 <= j < i ==> buf[j] == merged_byte(previous[j], reads[j]),
        decreases TOUCH_REGISTER_COUNT - i,
    {
        let byte: u8 = match reads[i] {
            Some(b) => b,
            None => previous[i],
        };
        buf.push(byte);
        i = i + 1;
    }
    buf
}

/// The touch controller's register file as the sampler knows it: the burst
/// of thirteen bytes last seen, kept so that a failed read can fall back to
/// the previous value.  The bus reads themselves happen outside and arrive
/// here as per-register results.
pub struct FT3267 {
    pub registers: Vec<u8>,
}

impl FT3267 {
    pub open spec fn wf(self) -> bool {
        self.registers@.len() == TOUCH_REGISTER_COUNT
    }

    /// A sampler that has seen nothing yet: every register byte defaults to
    /// zero, which reports no touch.
    pub fn new() -> (sampler: FT3267)
        ensures
            sampler.wf(),
            forall|i: int| 0 <= i < TOUCH_REGISTER_COUNT ==> sampler.registers[i] == 0,
    {
        let mut registers: Vec<u8> = Vec::new();
        let mut i: usize = 0;
        while i < TOUCH_REGISTER_COUNT
            invariant
                i <= TOUCH_REGISTER_COUNT,
                registers.len() == i,
                forall|j: int| 0 <= j < i ==> registers[j] == 0,
            decreases TOUCH_REGISTER_COUNT - i,
        {
            registers.push(0);
            i = i + 1;
        }
        FT3267 { registers }
    }

    /// One sample: fold this tick's read results over the previous bytes and
    /// decode up to two touch points from the result.
    pub fn touch(&mut self, reads: &Vec<Option<u8>>) -> (snap: TouchSnapshot)
        requires
            old(self).wf(),
            reads.len() == TOUCH_REGISTER_COUNT,
        ensures
            final(self).wf(),
            forall|i: int|
                0 <= i < TOUCH_REGISTER_COUNT ==> final(self).registers[i] == merged_byte(
                    old(self).registers[i],
                    reads[i],
                ),
            snap.first == decoded_first(final(self).registers@),
            snap.second == decoded_second(final(self).registers@),
    {
        self.registers = merge_reads(&self.registers, reads);
        decode_touch(&self.registers)
    }
}

} // verus!
