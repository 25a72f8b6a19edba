use vstd::prelude::*;
use crate::component::{Component, ReturnToC};
use crate::display::Canvas;
use crate::event::{touch_eval, Event, EventCtx, TouchEvent};
use crate::geometry::{Point, Rect};
use crate::tt_theme::{HEIGHT, WIDTH};

pub mod confirm;
pub mod intro;
pub mod menu;

verus! {

/// The whole touch screen.
pub fn screen() -> (r: Rect)
    ensures
        r == (Rect { x0: 0, y0: 0, x1: WIDTH, y1: HEIGHT }),
        r.wf(),
{
    Rect::new(Point::new(0, 0), Point::new(WIDTH, HEIGHT))
}

/// Raw result of the USB handler that means "nothing happened yet".
pub const USB_IDLE: u32 = 0;
/// What the USB handler reports when the host asked to leave the screen.
pub const USB_DONE: u32 = 0xAAAA_AAAA;
/// Returned for a USB handler that ended without a result.
pub const USB_GONE: u32 = 0xBBBB_BBBB;

/// Maps the USB handler's result to a screen result: zero when the screen
/// should go on.
pub fn usb_eval(usb_result: u32) -> (r: u32)
    ensures
        usb_result == USB_IDLE ==> r == USB_GONE,
        usb_result == USB_DONE ==> r == USB_DONE,
        usb_result != USB_IDLE && usb_result != USB_DONE ==> r == 0,
{
    if usb_result == USB_IDLE {
        return USB_GONE;
    }
    if usb_result == USB_DONE {
        return USB_DONE;
    }
    0
}

/// Drives a full-screen component from touch samples and hands its final
/// message back as a number.
pub struct BootloaderLayout<F> {
    pub frame: F,
}

impl<F: Component> BootloaderLayout<F> where F::Msg: ReturnToC {
    pub fn new(frame: F) -> (l: BootloaderLayout<F>)
        ensures
            l.frame == frame,
    {
        BootloaderLayout { frame }
    }

    /// Lays the frame out on the whole screen and paints it.
    pub fn start(&mut self, canvas: &mut Canvas)
        requires
            old(self).frame.inv(),
        ensures
            final(self).frame.inv(),
            final(canvas)@ == old(canvas)@ + final(self).frame.spec_paint(),
    {
        self.frame.place(screen());
        self.frame.paint(canvas);
    }

    /// One raw touch sample: a malformed or empty one changes nothing;
    /// otherwise the frame handles it and is painted again, and a message
    /// ends the screen with its number.
    pub fn process(&mut self, ctx: &mut EventCtx, raw: u32, x: u16, y: u16, canvas: &mut Canvas) -> (r:
        Option<u32>)
        requires
            old(self).frame.inv(),
        ensures
            final(self).frame.inv(),
            touch_eval_spec(raw, x, y) is None ==> r is None && final(canvas)@ == old(canvas)@,
            touch_eval_spec(raw, x, y) is Some ==> final(canvas)@ == old(canvas)@
                + final(self).frame.spec_paint(),
    {
        match touch_eval(raw, x, y) {
            Some(e) => {
                let msg = self.frame.event(ctx, Event::Touch(e));
                self.frame.paint(canvas);
                match msg {
                    Some(m) => Some(m.return_to_c()),
                    None => None,
                }
            },
            None => None,
        }
    }
}

/// The event that `touch_eval` makes of a raw sample.
pub open spec fn touch_eval_spec(raw: u32, x: u16, y: u16) -> Option<TouchEvent> {
    if raw == 0 {
        None
    } else {
        match TouchEvent::new_spec(raw / 0x100_0000, x as u32, y as u32) {
            Ok(e) => Some(e),
            Err(_) => None,
        }
    }
}

} // verus!
