use vstd::prelude::*;
use crate::display::{Canvas, Color, Draw};
use crate::geometry::Rect;

verus! {

/// A background area that is filled with its color once it was cleared.
pub struct Pad {
    pub area: Rect,
    pub color: Color,
    pub clear: bool,
}

impl Pad {
    pub fn with_background(color: Color) -> (p: Pad)
        ensures
            p.area == Rect::zero_spec(),
            p.color == color,
            !p.clear,
    {
        Pad { area: Rect::zero(), color, clear: false }
    }

    /// Marks the area to be filled on the next paint.
    pub fn clear(&mut self)
        ensures
            final(self).clear,
            final(self).area == old(self).area,
            final(self).color == old(self).color,
    {
        self.clear = true;
    }

    pub fn place(&mut self, area: Rect) -> (r: Rect)
        ensures
            final(self).area == area,
            final(self).color == old(self).color,
            final(self).clear == old(self).clear,
            r == area,
    {
        self.area = area;
        area
    }

    pub open spec fn spec_paint(self) -> Seq<Draw> {
        if self.clear {
            seq![Draw::FillRect { area: self.area, color: self.color }]
        } else {
            Seq::empty()
        }
    }

    pub fn paint(&self, canvas: &mut Canvas)
        ensures
            final(canvas)@ == old(canvas)@ + self.spec_paint(),
    {
        if self.clear {
            canvas.fill_rect(self.area, self.color);
        }
        assert(canvas@ =~= old(canvas)@ + self.spec_paint());
    }
}

} // verus!
