use vstd::prelude::*;
use crate::bld_intro::{bld_title, paint_bld_title};
use crate::component::{Component, ReturnToC};
use crate::display::{Canvas, Color, Draw};
use crate::event::{Event, EventCtx};
use crate::geometry::{Point, Rect};
use crate::pad::Pad;
use crate::text_block::TextBlock;
use crate::tt_button::{Button, ButtonMsg};
use crate::tt_theme::{self, BLD_BG, BLD_FG, FONT_MEDIUM, HEIGHT, WIDTH};

verus! {

#[derive(Copy, Clone, Debug, PartialEq, Eq, Structural)]
pub enum BldIntroMsg {
    Menu,
    Host,
}

impl ReturnToC for BldIntroMsg {
    open spec fn spec_return_to_c(&self) -> u32 {
        match self {
            BldIntroMsg::Menu => 1,
            BldIntroMsg::Host => 2,
        }
    }

    /// Menu is 1, host 2.
    fn return_to_c(&self) -> (r: u32) {
        match self {
            BldIntroMsg::Menu => 1,
            BldIntroMsg::Host => 2,
        }
    }
}

/// The bootloader's welcome: a text, a menu button and a button to wait for
/// the host.
pub struct BldIntro {
    pub bg: Pad,
    pub menu: Button,
    pub host: Button,
    pub text1: TextBlock,
}

impl BldIntro {
    pub fn new() -> (b: BldIntro)
        ensures
            b.inv(),
            b.bg.clear,
    {
        let p1 = TextBlock::new(FONT_MEDIUM, Color { value: BLD_FG }, Color { value: BLD_BG }).add(
            "This is a bootloader. It does something.",
        );
        let mut instance = BldIntro {
            bg: Pad::with_background(Color { value: BLD_BG }),
            menu: Button::with_icon(tt_theme::MENU).styled(tt_theme::button_bld_menu()),
            host: Button::with_text("Connect to host").styled(tt_theme::button_bld_menu_item()),
            text1: p1,
        };
        instance.bg.clear();
        instance
    }

    pub open spec fn spec_msg(&self, event: Event) -> Option<BldIntroMsg> {
        if self.menu.spec_touch(event).1 == Some(ButtonMsg::Clicked) {
            Some(BldIntroMsg::Menu)
        } else if self.host.spec_touch(event).1 == Some(ButtonMsg::Clicked) {
            Some(BldIntroMsg::Host)
        } else {
            None
        }
    }

    /// Both buttons see the event unless the menu button was clicked.
    pub fn dispatch(&mut self, ctx: &mut EventCtx, event: Event) -> (msg: Option<BldIntroMsg>)
        requires
            old(self).inv(),
        ensures
            final(self).inv(),
            msg == old(self).spec_msg(event),
    {
        if let Some(ButtonMsg::Clicked) = self.menu.touch(ctx, event) {
            return Some(BldIntroMsg::Menu);
        }
        if let Some(ButtonMsg::Clicked) = self.host.touch(ctx, event) {
            return Some(BldIntroMsg::Host);
        }
        None
    }
}

impl Component for BldIntro {
    type Msg = BldIntroMsg;

    open spec fn inv(&self) -> bool {
        self.menu.wf() && self.host.wf() && self.text1.wf()
    }

    open spec fn spec_paint(&self) -> Seq<Draw> {
        self.bg.spec_paint() + bld_title(Color { value: BLD_BG }) + (self.text1.spec_paint()
            + self.host.spec_button_paint() + self.menu.spec_button_paint())
    }

    fn place(&mut self, bounds: Rect) -> (r: Rect) {
        self.bg.place(Rect::new(Point::new(0, 0), Point::new(WIDTH, HEIGHT)));
        self.menu.place(Rect::new(Point::new(187, 15), Point::new(187 + 38, 15 + 38)));
        self.host.place(Rect::new(Point::new(16, 178), Point::new(16 + 209, 178 + 48)));
        self.text1.place(Rect::new(Point::new(15, 75), Point::new(225, 200)));
        bounds
    }

    fn event(&mut self, ctx: &mut EventCtx, event: Event) -> (msg: Option<BldIntroMsg>) {
        self.dispatch(ctx, event)
    }

    fn paint(&self, canvas: &mut Canvas) {
        self.bg.paint(canvas);
        paint_bld_title(Color { value: BLD_BG }, canvas);
        self.text1.paint(canvas);
        self.host.paint(canvas);
        self.menu.paint(canvas);
        assert(canvas@ =~= old(canvas)@ + self.spec_paint());
    }

    fn bounds(&self, sink: &mut Vec<Rect>) {
        sink.push(self.menu.area);
        assert(sink@.subrange(0, old(sink)@.len() as int) =~= old(sink)@);
    }
}

} // verus!
