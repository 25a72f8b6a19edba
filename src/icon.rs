use vstd::prelude::*;
use crate::component::Component;
use crate::display::{Canvas, Color, Draw, IconId};
use crate::event::{Event, EventCtx, TouchEvent};
use crate::geometry::{Point, Rect};
use crate::tt_theme;

verus! {

#[derive(Copy, Clone, Debug, PartialEq, Eq, Structural)]
pub enum IconMsg {
    Touched,
}

/// An icon on a filled background that reports touches inside it.
pub struct Icon {
    pub area: Rect,
    pub content: IconId,
    pub background: Color,
    pub foreground: Color,
}

impl Icon {
    pub fn new(content: IconId) -> (i: Icon)
        ensures
            i.area == Rect::zero_spec(),
            i.content == content,
            i.background == (Color { value: tt_theme::FG }),
            i.foreground == (Color { value: 0x9CD3 }),
    {
        Icon {
            area: Rect::zero(),
            content,
            background: Color { value: tt_theme::FG },
            foreground: Color::rgb(0x99, 0x99, 0x99),
        }
    }

    /// Takes the whole of `bounds`.
    pub fn place(&mut self, bounds: Rect) -> (r: Rect)
        ensures
            *final(self) == (Icon { area: bounds, ..*old(self) }),
            r == bounds,
    {
        self.area = bounds;
        bounds
    }

    pub fn area(&self) -> (r: Rect)
        ensures
            r == self.area,
    {
        self.area
    }

    pub fn paint_background(&self, canvas: &mut Canvas)
        ensures
            final(canvas)@ == old(canvas)@.push(Draw::FillRect { area: self.area, color: self.background }),
    {
        canvas.fill_rect(self.area, self.background);
    }

    pub fn paint_content(&self, canvas: &mut Canvas)
        requires
            self.area.wf(),
        ensures
            final(canvas)@ == old(canvas)@.push(
                Draw::Icon {
                    center: Point {
                        x: (self.area.x0 + self.area.spec_width() / 2) as i32,
                        y: (self.area.y0 + self.area.spec_height() / 2) as i32,
                    },
                    icon: self.content,
                    fg: self.foreground,
                    bg: self.background,
                },
            ),
    {
        canvas.icon(self.area.center(), self.content, self.foreground, self.background);
    }

    /// A touch that starts inside the icon.
    pub fn touched(&self, event: Event) -> (r: Option<IconMsg>)
        ensures
            r == (if event matches Event::Touch(TouchEvent::TouchStart(p)) && self.area.spec_contains(p) {
                Some(IconMsg::Touched)
            } else {
                None
            }),
    {
        match event {
            Event::Touch(TouchEvent::TouchStart(pos)) => {
                if self.area.contains(pos) {
                    return Some(IconMsg::Touched);
                }
                None
            },
            _ => None,
        }
    }
}

impl Component for Icon {
    type Msg = IconMsg;

    open spec fn inv(&self) -> bool {
        self.area.wf()
    }

    open spec fn spec_paint(&self) -> Seq<Draw> {
        seq![
            Draw::FillRect { area: self.area, color: self.background },
            Draw::Icon {
                center: Point {
                    x: (self.area.x0 + self.area.spec_width() / 2) as i32,
                    y: (self.area.y0 + self.area.spec_height() / 2) as i32,
                },
                icon: self.content,
                fg: self.foreground,
                bg: self.background,
            },
        ]
    }

    fn place(&mut self, bounds: Rect) -> (r: Rect) {
        Icon::place(self, bounds)
    }

    fn event(&mut self, ctx: &mut EventCtx, event: Event) -> (msg: Option<IconMsg>) {
        self.touched(event)
    }

    fn paint(&self, canvas: &mut Canvas) {
        self.paint_background(canvas);
        self.paint_content(canvas);
        assert(canvas@ =~= old(canvas)@ + self.spec_paint());
    }

    fn bounds(&self, sink: &mut Vec<Rect>) {
        sink.push(self.area);
        assert(sink@.subrange(0, old(sink)@.len() as int) =~= old(sink)@);
    }
}

} // verus!
