//! GC9A01 panel driver, modeled by the byte stream it emits.
//!
//! The physical driver writes commands and data bytes over SPI, toggling a
//! data/command line.  Here the driver is the stream itself: every method
//! appends the exact bus words the panel must receive, and a thin outer layer
//! drains the stream onto the wire.  The panel's configuration table is plain
//! data handed in by the caller.

use vstd::prelude::*;

verus! {

/// Communication failure with the panel.
#[derive(Debug)]
pub struct CommError;

/// Column address set.
pub const GC9A01_CA_SET: u8 = 0x2A;

/// Row address set.
pub const GC9A01_RA_SET: u8 = 0x2B;

/// Memory write.
pub const GC9A01_RAM_WR: u8 = 0x2C;

/// Side of the square panel, in pixels.
pub const PANEL_SIZE: u16 = 240;

/// One word on the panel bus: a command byte (data/command line low) or a
/// data byte (line high).
#[derive(Clone, Copy, PartialEq, Eq, Structural, Debug)]
pub enum BusWord {
    Command(u8),
    Data(u8),
}

/// What one configuration step asks for.
#[derive(Clone, Copy, PartialEq, Eq, Structural, Debug)]
pub enum StepKind {
    Start,
    Cmd,
    Data,
    Delay,
    End,
}

/// One step of a panel configuration table.
#[derive(Clone, Copy, PartialEq, Eq, Structural, Debug)]
pub struct ConfigStep {
    pub kind: StepKind,
    pub value: u8,
}

/// High byte of a 16-bit value.
pub open spec fn hi_byte(v: u16) -> u8 {
    (v >> 8) as u8
}

/// Low byte of a 16-bit value.
pub open spec fn lo_byte(v: u16) -> u8 {
    (v & 0xFF) as u8
}

/// The address-window sequence: column bounds, row bounds, then the memory
/// write command that the pixel data follows.
pub open spec fn frame_words(x1: u16, y1: u16, x2: u16, y2: u16) -> Seq<BusWord> {
    seq![
        BusWord::Command(GC9A01_CA_SET),
        BusWord::Data(hi_byte(x1)),
        BusWord::Data(lo_byte(x1)),
        BusWord::Data(hi_byte(x2)),
        BusWord::Data(lo_byte(x2)),
        BusWord::Command(GC9A01_RA_SET),
        BusWord::Data(hi_byte(y1)),
        BusWord::Data(lo_byte(y1)),
        BusWord::Data(hi_byte(y2)),
        BusWord::Data(lo_byte(y2)),
        BusWord::Command(GC9A01_RAM_WR),
    ]
}

/// `n` pixels of one color: two data bytes each, high byte first.
pub open spec fn pixel_words(color: u16, n: nat) -> Seq<BusWord>
    decreases n,
{
    if n == 0 {
        Seq::empty()
    } else {
        pixel_words(color, (n - 1) as nat) + seq![
            BusWord::Data(hi_byte(color)),
            BusWord::Data(lo_byte(color)),
        ]
    }
}

/// The bus words one configuration step emits: its byte as a command or as
/// data; start, end and delay steps touch the bus not at all (the delay is
/// the caller's).
pub open spec fn step_words(step: ConfigStep) -> Seq<BusWord> {
    match step.kind {
        StepKind::Cmd => seq![BusWord::Command(step.value)],
        StepKind::Data => seq![BusWord::Data(step.value)],
        _ => Seq::empty(),
    }
}

/// The words a whole configuration table emits, in order.
pub open spec fn setup_words(table: Seq<ConfigStep>) -> Seq<BusWord>
    decreases table.len(),
{
    if table.len() == 0 {
        Seq::empty()
    } else {
        setup_words(table.drop_last()) + step_words(table.last())
    }
}

/// Extent of a fill after clamping to the panel edge.
pub open spec fn clamped_extent(start: u16, len: u16) -> int {
    if start + len - 1 > PANEL_SIZE {
        PANEL_SIZE - start
    } else {
        len as int
    }
}

/// The GC9A01 driver, modeled by the stream of bus words it has emitted.
pub struct GC9A01 {
    pub stream: Vec<BusWord>,
}

impl GC9A01 {
    pub fn default() -> (d: GC9A01)
        ensures
            d.stream@ == Seq::<BusWord>::empty(),
    {
        GC9A01::new()
    }

    pub fn new() -> (d: GC9A01)
        ensures
            d.stream@ == Seq::<BusWord>::empty(),
    {
        GC9A01 { stream: Vec::new() }
    }

    /// Emit one command byte.
    pub fn command(&mut self, cmd: u8)
        ensures
            final(self).stream@ == old(self).stream@.push(BusWord::Command(cmd)),
    {
        self.stream.push(BusWord::Command(cmd));
    }

    /// Emit one data byte.
    pub fn data(&mut self, data: u8)
        ensures
            final(self).stream@ == old(self).stream@.push(BusWord::Data(data)),
    {
        self.stream.push(BusWord::Data(data));
    }

    /// Walk a configuration table, emitting its command and data bytes.
    pub fn setup(&mut self, table: &Vec<ConfigStep>)
        ensures
            final(self).stream@ == old(self).stream@ + setup_words(table@),
    {
        let ghost base = self.stream@;
        let mut i: usize = 0;
        while i < table.len()
            invariant
                i <= table.len(),
                self.stream@ == base + setup_words(table@.take(i as int)),
            decreases table.len() - i,
        {
            let step = table[i];
            match step.kind {
                StepKind::Cmd => {
                    self.command(step.value);
                },
                StepKind::Data => {
                    self.data(step.value);
                },
                _ => {},
            }
            proof {
                assert(table@.take(i + 1).drop_last() =~= table@.take(i as int));
                assert(table@.take(i + 1).last() == table@[i as int]);
                assert(self.stream@ =~= base + setup_words(table@.take(i + 1)));
            }
            i = i + 1;
        }
        proof {
            assert(table@.take(table@.len() as int) =~= table@);
        }
    }

    /// Select the address window the following pixel data fills.
    pub fn set_frame(&mut self, x1: u16, y1: u16, x2: u16, y2: u16)
        ensures
            final(self).stream@ == old(self).stream@ + frame_words(x1, y1, x2, y2),
    {
        self.command(GC9A01_CA_SET);
        self.data((x1 >> 8) as u8);
        self.data((x1 & 0xFF) as u8);
        self.data((x2 >> 8) as u8);
        self.data((x2 & 0xFF) as u8);
        self.command(GC9A01_RA_SET);
        self.data((y1 >> 8) as u8);
        self.data((y1 & 0xFF) as u8);
        self.data((y2 >> 8) as u8);
        self.data((y2 & 0xFF) as u8);
        self.command(GC9A01_RAM_WR);
        proof {
            assert(self.stream@ =~= old(self).stream@ + frame_words(x1, y1, x2, y2));
        }
    }

    /// Fill a rectangle with one color, clamping its extent to the panel
    /// edge: the address window, then two data bytes per pixel.
    pub fn fill_rect(&mut self, x: u16, y: u16, w: u16, h: u16, color: u16)
        requires
            1 <= w,
            1 <= h,
            x <= PANEL_SIZE,
            y <= PANEL_SIZE,
            x + w <= u16::MAX,
            y + h <= u16::MAX,
        ensures
            final(self).stream@ == old(self).stream@ + frame_words(
                x,
                y,
                (x + clamped_extent(x, w) - 1) as u16,
                (y + clamped_extent(y, h) - 1) as u16,
            ) + pixel_words(color, (clamped_extent(x, w) * clamped_extent(y, h)) as nat),
    {
        let clamped_w: u16 = if (x + w - 1) > PANEL_SIZE {
            PANEL_SIZE - x
        } else {
            w
        };
        let clamped_h: u16 = if (y + h - 1) > PANEL_SIZE {
            PANEL_SIZE - y
        } else {
            h
        };
        self.set_frame(x, y, x + clamped_w - 1, y + clamped_h - 1);

        let hi: u8 = (color >> 8) as u8;
        let lo: u8 = (color & 0xFF) as u8;
        assert(clamped_w * clamped_h <= 241 * 241) by (nonlinear_arith)
            requires
                0 <= clamped_w <= 241,
                0 <= clamped_h <= 241,
        ;
        let total: u32 = (clamped_w as u32) * (clamped_h as u32);
        let ghost base = self.stream@;
        let mut i: u32 = 0;
        while i < total
            invariant
                i <= total,
                self.stream@ == base + pixel_words(color, i as nat),
                hi == hi_byte(color),
                lo == lo_byte(color),
            decreases total - i,
        {
            self.data(hi);
            self.data(lo);
            proof {
                assert(self.stream@ =~= base + pixel_words(color, (i + 1) as nat));
            }
            i = i + 1;
        }
        proof {
            assert(total == clamped_extent(x, w) * clamped_extent(y, h)) by (nonlinear_arith)
                requires
                    clamped_w == clamped_extent(x, w),
                    clamped_h == clamped_extent(y, h),
                    total == clamped_w * clamped_h,
            ;
        }
    }

    /// Write one pixel if it lies on the panel; coordinates off the panel
    /// are ignored.  The communication itself cannot fail here, so the
    /// result is always `Ok`.
    pub fn set_pixel(&mut self, x: u32, y: u32, color: u16) -> (r: Result<(), CommError>)
        ensures
            r is Ok,
            x < PANEL_SIZE && y < PANEL_SIZE ==> final(self).stream@ == old(self).stream@
                + frame_words(x as u16, y as u16, x as u16, y as u16) + seq![
                BusWord::Data(hi_byte(color)),
                BusWord::Data(lo_byte(color)),
            ],
            !(x < PANEL_SIZE && y < PANEL_SIZE) ==> final(self).stream@ == old(self).stream@,
    {
        let hi: u8 = (color >> 8) as u8;
        let lo: u8 = (color & 0xFF) as u8;
        if x < PANEL_SIZE as u32 && y < PANEL_SIZE as u32 {
            self.set_frame(x as u16, y as u16, x as u16, y as u16);
            self.data(hi);
            self.data(lo);
            proof {
                assert(self.stream@ =~= old(self).stream@ + frame_words(
                    x as u16,
                    y as u16,
                    x as u16,
                    y as u16,
                ) + seq![BusWord::Data(hi_byte(color)), BusWord::Data(lo_byte(color))]);
            }
        }
        Ok(())
    }

    /// The panel's fixed dimensions.
    pub fn size(&self) -> (s: (u32, u32))
        ensures
            s.0 == PANEL_SIZE,
            s.1 == PANEL_SIZE,
    {
        (PANEL_SIZE as u32, PANEL_SIZE as u32)
    }

    /// Draw a batch of pixels, each skipped if it lies off the panel.
    pub fn draw_iter(&mut self, pixels: &Vec<(u32, u32, u16)>)
        ensures
            final(self).stream@ == old(self).stream@ + pixels_drawn(pixels@),
    {
        let ghost base = self.stream@;
        let mut i: usize = 0;
        while i < pixels.len()
            invariant
                i <= pixels.len(),
                self.stream@ == base + pixels_drawn(pixels@.take(i as int)),
            decreases pixels.len() - i,
        {
            let (x, y, color) = pixels[i];
            let r = self.set_pixel(x, y, color);
            proof {
                assert(pixels@.take(i + 1).drop_last() =~= pixels@.take(i as int));
                assert(pixels@.take(i + 1).last() == pixels@[i as int]);
                assert(self.stream@ =~= base + pixels_drawn(pixels@.take(i + 1)));
            }
            i = i + 1;
        }
        proof {
            assert(pixels@.take(pixels@.len() as int) =~= pixels@);
        }
    }
}

/// The words a batch of pixels emits: the window-and-data words of each
/// on-panel pixel, in order.
pub open spec fn pixels_drawn(pixels: Seq<(u32, u32, u16)>) -> Seq<BusWord>
    decreases pixels.len(),
{
    if pixels.len() == 0 {
        Seq::empty()
    } else {
        pixels_drawn(pixels.drop_last()) + pixel_draw_words(pixels.last())
    }
}

/// The words one pixel of a batch emits; none if it lies off the panel.
pub open spec fn pixel_draw_words(p: (u32, u32, u16)) -> Seq<BusWord> {
    if p.0 < PANEL_SIZE && p.1 < PANEL_SIZE {
        frame_words(p.0 as u16, p.1 as u16, p.0 as u16, p.1 as u16) + seq![
            BusWord::Data(hi_byte(p.2)),
            BusWord::Data(lo_byte(p.2)),
        ]
    } else {
        Seq::empty()
    }
}

} // verus!
