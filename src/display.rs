use vstd::prelude::*;
use vstd::string::StrSliceExecFns;
use crate::geometry::{Point, Rect};

verus! {

/// A 16-bit RGB565 color.
#[derive(Copy, Clone, Debug, PartialEq, Eq, Structural)]
pub struct Color {
    pub value: u16,
}

pub open spec fn spec_rgb(r: u8, g: u8, b: u8) -> u16 {
    ((r as int / 8) * 2048 + (g as int / 4) * 32 + (b as int / 8)) as u16
}

/// One channel of `fg` laid over `bg` with opacity `alpha` out of 255.
pub open spec fn spec_blend(fg: int, bg: int, alpha: int) -> int {
    (fg * alpha + bg * (255 - alpha)) / 255
}

impl Color {
    pub open spec fn spec_r(self) -> int {
        (self.value as int / 2048) * 8
    }

    pub open spec fn spec_g(self) -> int {
        ((self.value as int / 32) % 64) * 4
    }

    pub open spec fn spec_b(self) -> int {
        (self.value as int % 32) * 8
    }

    /// Color from 8-bit channels; the low bits that RGB565 cannot hold are
    /// dropped.
    pub fn rgb(r: u8, g: u8, b: u8) -> (c: Color)
        ensures
            c.value == spec_rgb(r, g, b),
    {
        let rr: u16 = (r / 8) as u16;
        let gg: u16 = (g / 4) as u16;
        let bb: u16 = (b / 8) as u16;
        Color { value: rr * 2048 + gg * 32 + bb }
    }

    pub fn r(self) -> (v: u8)
        ensures
            v == self.spec_r(),
    {
        ((self.value / 2048) * 8) as u8
    }

    pub fn g(self) -> (v: u8)
        ensures
            v == self.spec_g(),
    {
        (((self.value / 32) % 64) * 4) as u8
    }

    pub fn b(self) -> (v: u8)
        ensures
            v == self.spec_b(),
    {
        ((self.value % 32) * 8) as u8
    }

    /// The color `(r, g, b)` with opacity `alpha` (out of 255) laid over `bg`.
    pub fn rgba(bg: Color, r: u8, g: u8, b: u8, alpha: u8) -> (c: Color)
        ensures
            c.value == spec_rgb(
                spec_blend(r as int, bg.spec_r(), alpha as int) as u8,
                spec_blend(g as int, bg.spec_g(), alpha as int) as u8,
                spec_blend(b as int, bg.spec_b(), alpha as int) as u8,
            ),
    {
        let nr = Self::blend(r, bg.r(), alpha);
        let ng = Self::blend(g, bg.g(), alpha);
        let nb = Self::blend(b, bg.b(), alpha);
        Self::rgb(nr, ng, nb)
    }

    fn blend(fg: u8, bg: u8, alpha: u8) -> (v: u8)
        ensures
            v == spec_blend(fg as int, bg as int, alpha as int),
    {
        let a: u32 = alpha as u32;
        let f: u32 = fg as u32;
        let k: u32 = bg as u32;
        proof {
            assert(f * a <= 255 * 255) by (nonlinear_arith)
                requires f <= 255, a <= 255;
            assert(k * (255 - a) <= 255 * 255) by (nonlinear_arith)
                requires k <= 255, a <= 255;
            assert(f * a + k * (255 - a) <= 255 * 255) by (nonlinear_arith)
                requires f <= 255, k <= 255, a <= 255;
        }
        ((f * a + k * (255 - a)) / 255) as u8
    }

    /// The bitwise complement, used for inverted text.
    pub fn negate(self) -> (c: Color)
        ensures
            c.value == 0xFFFF - self.value,
    {
        Color { value: 0xFFFF - self.value }
    }
}

/// The fonts of the rendering backend, with the metrics that layout needs.
#[derive(Copy, Clone, Debug, PartialEq, Eq, Structural)]
pub enum Font {
    Normal,
    Medium,
    Bold,
    Mono,
}

/// Texts longer than this are measured as if they had this many characters.
pub const MAX_MEASURED_LEN: usize = 1000;

impl Font {
    pub open spec fn spec_advance(self) -> int {
        match self {
            Font::Normal => 6,
            Font::Medium => 7,
            Font::Bold => 7,
            Font::Mono => 6,
        }
    }

    pub open spec fn spec_line_height(self) -> int {
        match self {
            Font::Normal => 10,
            Font::Medium => 12,
            Font::Bold => 10,
            Font::Mono => 10,
        }
    }

    pub open spec fn spec_text_width(self, len: int) -> int {
        self.spec_advance() * if len > MAX_MEASURED_LEN as int {
            MAX_MEASURED_LEN as int
        } else {
            len
        }
    }

    /// Width of one glyph cell in pixels.
    pub fn advance(self) -> (r: i32)
        ensures
            r == self.spec_advance(),
    {
        match self {
            Font::Normal => 6,
            Font::Medium => 7,
            Font::Bold => 7,
            Font::Mono => 6,
        }
    }

    pub fn line_height(self) -> (r: i32)
        ensures
            r == self.spec_line_height(),
    {
        match self {
            Font::Normal => 10,
            Font::Medium => 12,
            Font::Bold => 10,
            Font::Mono => 10,
        }
    }

    /// Width in pixels of a text (one glyph cell per character).
    pub fn text_width(self, text: &str) -> (r: i32)
        ensures
            r == self.spec_text_width(text@.len() as int),
            0 <= r <= 7 * MAX_MEASURED_LEN,
    {
        let n: usize = text.unicode_len();
        let m: i32 = if n > MAX_MEASURED_LEN {
            MAX_MEASURED_LEN as i32
        } else {
            n as i32
        };
        self.advance() * m
    }
}

/// How a text is placed relative to its anchor point.
#[derive(Copy, Clone, Debug, PartialEq, Eq, Structural)]
pub enum Align {
    Left,
    Center,
    Right,
}

/// Icons of the resource set that the rendering backend decodes.
#[derive(Copy, Clone, Debug, PartialEq, Eq, Structural)]
pub enum IconId {
    Cancel,
    Confirm,
    Space,
    Back,
    Click,
    Next,
    Close,
    Reset,
    FwInfo,
    Reboot,
    Menu,
    Receive,
    Info,
}

/// One primitive for the rendering backend.
#[derive(Debug)]
pub enum DrawOp {
    FillRect { area: Rect, color: Color },
    FillRounded { area: Rect, color: Color, background: Color },
    Text { at: Point, text: String, font: Font, fg: Color, bg: Color, align: Align },
    Icon { center: Point, icon: IconId, fg: Color, bg: Color },
    Loader { progress: u16, fg: Color, bg: Color, overlay: Option<IconId> },
}

/// What a draw operation shows, with its text as characters.
pub enum Draw {
    FillRect { area: Rect, color: Color },
    FillRounded { area: Rect, color: Color, background: Color },
    Text { at: Point, text: Seq<char>, font: Font, fg: Color, bg: Color, align: Align },
    Icon { center: Point, icon: IconId, fg: Color, bg: Color },
    Loader { progress: u16, fg: Color, bg: Color, overlay: Option<IconId> },
}

impl DrawOp {
    pub open spec fn view(&self) -> Draw {
        match self {
            DrawOp::FillRect { area, color } => Draw::FillRect { area: *area, color: *color },
            DrawOp::FillRounded { area, color, background } => Draw::FillRounded {
                area: *area,
                color: *color,
                background: *background,
            },
            DrawOp::Text { at, text, font, fg, bg, align } => Draw::Text {
                at: *at,
                text: text@,
                font: *font,
                fg: *fg,
                bg: *bg,
                align: *align,
            },
            DrawOp::Icon { center, icon, fg, bg } => Draw::Icon {
                center: *center,
                icon: *icon,
                fg: *fg,
                bg: *bg,
            },
            DrawOp::Loader { progress, fg, bg, overlay } => Draw::Loader {
                progress: *progress,
                fg: *fg,
                bg: *bg,
                overlay: *overlay,
            },
        }
    }
}

/// The display list that painting appends to; the host hands it to the
/// rendering backend.
pub struct Canvas {
    pub ops: Vec<DrawOp>,
}

impl Canvas {
    pub open spec fn view(&self) -> Seq<Draw> {
        self.ops@.map_values(|o: DrawOp| o.view())
    }

    pub fn new() -> (c: Canvas)
        ensures
            c@ == Seq::<Draw>::empty(),
    {
        let c = Canvas { ops: Vec::new() };
        assert(c@ =~= Seq::<Draw>::empty());
        c
    }

    pub fn push(&mut self, op: DrawOp)
        ensures
            final(self)@ == old(self)@.push(op.view()),
    {
        self.ops.push(op);
        assert(self@ =~= old(self)@.push(op.view()));
    }

    pub fn fill_rect(&mut self, area: Rect, color: Color)
        ensures
            final(self)@ == old(self)@.push(Draw::FillRect { area, color }),
    {
        self.push(DrawOp::FillRect { area, color });
    }

    pub fn fill_rounded(&mut self, area: Rect, color: Color, background: Color)
        ensures
            final(self)@ == old(self)@.push(Draw::FillRounded { area, color, background }),
    {
        self.push(DrawOp::FillRounded { area, color, background });
    }

    pub fn text(&mut self, at: Point, text: &str, font: Font, fg: Color, bg: Color, align: Align)
        ensures
            final(self)@ == old(self)@.push(Draw::Text { at, text: text@, font, fg, bg, align }),
    {
        self.push(DrawOp::Text { at, text: text.to_owned(), font, fg, bg, align });
    }

    pub fn icon(&mut self, center: Point, icon: IconId, fg: Color, bg: Color)
        ensures
            final(self)@ == old(self)@.push(Draw::Icon { center, icon, fg, bg }),
    {
        self.push(DrawOp::Icon { center, icon, fg, bg });
    }

    pub fn loader(&mut self, progress: u16, fg: Color, bg: Color, overlay: Option<IconId>)
        ensures
            final(self)@ == old(self)@.push(Draw::Loader { progress, fg, bg, overlay }),
    {
        self.push(DrawOp::Loader { progress, fg, bg, overlay });
    }
}

} // verus!
