use vstd::prelude::*;
use crate::display::{Canvas, Draw};
use crate::event::{Event, EventCtx};
use crate::geometry::Rect;

verus! {

/// The contract every widget keeps: it lays itself out in a rectangle,
/// consumes events (emitting a message only for a complete action), paints
/// from layout and state alone, and reports the areas it owns.
pub trait Component {
    type Msg;

    spec fn inv(&self) -> bool;

    /// What painting draws in the current state.
    spec fn spec_paint(&self) -> Seq<Draw>;

    fn place(&mut self, bounds: Rect) -> (r: Rect)
        requires
            old(self).inv(),
            bounds.wf(),
        ensures
            final(self).inv(),
    ;

    fn event(&mut self, ctx: &mut EventCtx, event: Event) -> (msg: Option<Self::Msg>)
        requires
            old(self).inv(),
        ensures
            final(self).inv(),
    ;

    /// Painting changes nothing but the canvas, so painting twice in a row
    /// draws the same thing twice.
    fn paint(&self, canvas: &mut Canvas)
        requires
            self.inv(),
        ensures
            final(canvas)@ == old(canvas)@ + self.spec_paint(),
    ;

    fn bounds(&self, sink: &mut Vec<Rect>)
        ensures
            old(sink)@.len() <= final(sink)@.len(),
            final(sink)@.subrange(0, old(sink)@.len() as int) == old(sink)@,
    ;
}

/// A full-screen bootloader component: it can repaint just its interactive
/// parts and turn its messages into the numbers the firmware expects.
pub trait BootloaderFrame: Component {
    spec fn spec_repaint(&self) -> Seq<Draw>;

    spec fn spec_messages(&self, msg: Self::Msg) -> Option<u32>;

    fn repaint(&self, canvas: &mut Canvas)
        requires
            self.inv(),
        ensures
            final(canvas)@ == old(canvas)@ + self.spec_repaint(),
    ;

    fn messages(&self, msg: Self::Msg) -> (r: Option<u32>)
        ensures
            r == self.spec_messages(msg),
    ;
}

/// A screen message that the calling firmware receives as a number.
pub trait ReturnToC {
    spec fn spec_return_to_c(&self) -> u32;

    fn return_to_c(&self) -> (r: u32)
        ensures
            r == self.spec_return_to_c(),
    ;
}

} // verus!
