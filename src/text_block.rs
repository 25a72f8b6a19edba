use vstd::prelude::*;
use crate::component::Component;
use crate::display::{Align, Canvas, Color, Draw, Font};
use crate::event::{Event, EventCtx};
use crate::geometry::{Point, Rect};

verus! {

/// Most lines a text block holds.
pub const MAX_LINES: usize = 16;

/// Lines of running text, one below the other from the top left corner of
/// its area.
pub struct TextBlock {
    pub lines: Vec<String>,
    pub font: Font,
    pub fg: Color,
    pub bg: Color,
    pub area: Rect,
}

impl TextBlock {
    pub open spec fn wf(&self) -> bool {
        self.lines@.len() <= MAX_LINES && self.area.wf()
    }

    pub fn new(font: Font, fg: Color, bg: Color) -> (t: TextBlock)
        ensures
            t.lines@.len() == 0,
            t.font == font && t.fg == fg && t.bg == bg,
            t.area == Rect::zero_spec(),
            t.wf(),
    {
        TextBlock { lines: Vec::new(), font, fg, bg, area: Rect::zero() }
    }

    /// Adds a line below the others.
    pub fn add(self, text: &str) -> (t: TextBlock)
        requires
            self.lines@.len() < MAX_LINES,
        ensures
            t.lines@.len() == self.lines@.len() + 1,
            forall|i: int| 0 <= i < self.lines@.len() ==> t.lines@[i] == self.lines@[i],
            t.lines@.last()@ == text@,
            t.font == self.font && t.fg == self.fg && t.bg == self.bg && t.area == self.area,
    {
        let mut t = self;
        t.lines.push(text.to_owned());
        t
    }

    pub open spec fn line_at(&self, i: int) -> Draw {
        Draw::Text {
            at: Point { x: self.area.x0, y: (self.area.y0 + (i + 1) * self.font.spec_line_height()) as i32 },
            text: self.lines@[i]@,
            font: self.font,
            fg: self.fg,
            bg: self.bg,
            align: Align::Left,
        }
    }
}

impl Component for TextBlock {
    type Msg = ();

    open spec fn inv(&self) -> bool {
        self.wf()
    }

    open spec fn spec_paint(&self) -> Seq<Draw> {
        Seq::new(self.lines@.len(), |i: int| self.line_at(i))
    }

    fn place(&mut self, bounds: Rect) -> (r: Rect) {
        self.area = bounds;
        bounds
    }

    /// Text does not react to input.
    fn event(&mut self, ctx: &mut EventCtx, event: Event) -> (msg: Option<()>) {
        None
    }

    fn paint(&self, canvas: &mut Canvas) {
        let lh = self.font.line_height();
        let mut i: usize = 0;
        assert(Seq::new(0, |k: int| self.line_at(k)) =~= Seq::<Draw>::empty());
        assert(old(canvas)@ + Seq::<Draw>::empty() =~= old(canvas)@);
        while i < self.lines.len()
            invariant
                self.wf(),
                lh == self.font.spec_line_height(),
                i <= self.lines@.len(),
                canvas@ == old(canvas)@ + Seq::new(i as nat, |k: int| self.line_at(k)),
            decreases self.lines@.len() - i,
        {
            let at = Point::new(self.area.x0, self.area.y0 + ((i + 1) as i32) * lh);
            canvas.text(at, self.lines[i].as_str(), self.font, self.fg, self.bg, Align::Left);
            assert(Seq::new((i + 1) as nat, |k: int| self.line_at(k)) =~= Seq::new(
                i as nat,
                |k: int| self.line_at(k),
            ).push(self.line_at(i as int)));
            i = i + 1;
        }
    }

    fn bounds(&self, sink: &mut Vec<Rect>) {
        sink.push(self.area);
        assert(sink@.subrange(0, old(sink)@.len() as int) =~= old(sink)@);
    }
}

} // verus!
