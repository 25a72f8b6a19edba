use vstd::prelude::*;
use crate::component::Component;
use crate::display::{Align, Canvas, Color, Draw, IconId};
use crate::event::{Event, EventCtx};
use crate::geometry::{Point, Rect};
use crate::install::{button_cancel_spec, button_confirm_spec, confirm_header, paint_confirm_header};
use crate::tt_button::{Button, ButtonContent, ButtonMsg, ButtonStyleSheet};
use crate::tt_theme::{self, HEIGHT, WIDTH};

verus! {

#[derive(Copy, Clone, Debug, PartialEq, Eq, Structural)]
pub enum WipeMsg<L, R> {
    Left(L),
    Right(R),
}

/// Red cancel button on white.
pub fn button_cancel() -> (s: ButtonStyleSheet)
    ensures
        s == button_cancel_spec(),
{
    crate::install::button_cancel()
}

/// Green confirm button on white.
pub fn button_confirm() -> (s: ButtonStyleSheet)
    ensures
        s == button_confirm_spec(),
{
    crate::install::button_confirm()
}

/// The text under a wipe confirmation.
pub const WIPE_WARNING: &'static str = "Seed will be erased!";

/// Confirmation of a device wipe: a title, an optional icon, a message, a
/// fixed warning, and cancel (left) and confirm (right) buttons.
pub struct Wipe<M> {
    pub label: &'static str,
    pub icon: Option<IconId>,
    pub message: M,
    pub left: Button,
    pub right: Button,
}

impl<M: Component> Wipe<M> {
    pub fn new(label: &'static str, icon: Option<IconId>, message: M) -> (w: Wipe<M>)
        ensures
            w.label == label && w.icon == icon && w.message == message,
            w.left == (Button { styles: button_cancel_spec(), ..Button::spec_new(ButtonContent::Icon(tt_theme::ICON_CANCEL)) }),
            w.right == (Button { styles: button_confirm_spec(), ..Button::spec_new(ButtonContent::Icon(tt_theme::ICON_CONFIRM)) }),
    {
        Wipe {
            label,
            icon,
            message,
            left: Button::with_icon(tt_theme::ICON_CANCEL).styled(button_cancel()),
            right: Button::with_icon(tt_theme::ICON_CONFIRM).styled(button_confirm()),
        }
    }

    pub fn inner(&self) -> (m: &M)
        ensures
            *m == self.message,
    {
        &self.message
    }

    pub open spec fn spec_msg(&self, event: Event) -> Option<WipeMsg<ButtonMsg, ButtonMsg>> {
        match self.left.spec_touch(event).1 {
            Some(m) => Some(WipeMsg::Left(m)),
            None => match self.right.spec_touch(event).1 {
                Some(m) => Some(WipeMsg::Right(m)),
                None => None,
            },
        }
    }

    /// The left button sees the event first; the right only when the left
    /// emitted nothing.
    pub fn dispatch(&mut self, ctx: &mut EventCtx, event: Event) -> (msg: Option<WipeMsg<ButtonMsg, ButtonMsg>>)
        requires
            old(self).inv(),
        ensures
            final(self).inv(),
            msg == old(self).spec_msg(event),
    {
        match self.left.touch(ctx, event) {
            Some(m) => Some(WipeMsg::Left(m)),
            None => match self.right.touch(ctx, event) {
                Some(m) => Some(WipeMsg::Right(m)),
                None => None,
            },
        }
    }
}

impl<M: Component> Component for Wipe<M> {
    type Msg = WipeMsg<ButtonMsg, ButtonMsg>;

    open spec fn inv(&self) -> bool {
        self.message.inv() && self.left.wf() && self.right.wf()
    }

    open spec fn spec_paint(&self) -> Seq<Draw> {
        confirm_header(self.label, self.icon, Some(WIPE_WARNING)) + self.message.spec_paint() + (
        self.left.spec_button_paint() + self.right.spec_button_paint())
    }

    fn place(&mut self, bounds: Rect) -> (r: Rect) {
        self.message.place(Rect::new(Point::new(55, 52), Point::new(WIDTH - 12, HEIGHT - 80)));
        self.left.place(Rect::new(Point::new(9, 184), Point::new(117, 234)));
        self.right.place(Rect::new(Point::new(123, 184), Point::new(231, 234)));
        bounds
    }

    fn event(&mut self, ctx: &mut EventCtx, event: Event) -> (msg: Option<WipeMsg<ButtonMsg, ButtonMsg>>) {
        self.dispatch(ctx, event)
    }

    fn paint(&self, canvas: &mut Canvas) {
        paint_confirm_header(self.label, self.icon, Some(WIPE_WARNING), canvas);
        self.message.paint(canvas);
        self.left.paint(canvas);
        self.right.paint(canvas);
        assert(canvas@ =~= old(canvas)@ + self.spec_paint());
    }

    fn bounds(&self, sink: &mut Vec<Rect>) {
        sink.push(self.left.area);
        sink.push(self.right.area);
        assert(sink@.subrange(0, old(sink)@.len() as int) =~= old(sink)@);
    }
}

} // verus!
