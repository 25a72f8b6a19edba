use vstd::prelude::*;
use crate::bld_intro::{bld_title, paint_bld_title};
use crate::component::{Component, ReturnToC};
use crate::display::{Canvas, Color, Draw};
use crate::event::{Event, EventCtx};
use crate::geometry::{Point, Rect};
use crate::pad::Pad;
use crate::tt_button::{Button, ButtonMsg, IconText};
use crate::tt_theme::{self, BLD_BG, HEIGHT, WIDTH};

verus! {

#[derive(Copy, Clone, Debug, PartialEq, Eq, Structural)]
pub enum MenuMsg {
    Close,
    Reboot,
    FactoryReset,
    FwInfo,
}

impl ReturnToC for MenuMsg {
    open spec fn spec_return_to_c(&self) -> u32 {
        match self {
            MenuMsg::Close => 1,
            MenuMsg::Reboot => 2,
            MenuMsg::FactoryReset => 3,
            MenuMsg::FwInfo => 4,
        }
    }

    /// Close 1, reboot 2, factory reset 3, firmware info 4.
    fn return_to_c(&self) -> (r: u32) {
        match self {
            MenuMsg::Close => 1,
            MenuMsg::Reboot => 2,
            MenuMsg::FactoryReset => 3,
            MenuMsg::FwInfo => 4,
        }
    }
}

/// The bootloader menu: close, reboot, firmware info and factory reset.
pub struct Menu {
    pub bg: Pad,
    pub close: Button,
    pub reboot: Button,
    pub fwinfo: Button,
    pub reset: Button,
}

impl Menu {
    pub fn new() -> (m: Menu)
        ensures
            m.inv(),
            m.bg.clear,
    {
        let content_reboot = IconText::new("REBOOT", tt_theme::REBOOT, 46, 25);
        let content_fwinfo = IconText::new("FW INFO", tt_theme::FWINFO, 46, 25);
        let content_reset = IconText::new("FACTORY RESET", tt_theme::RESET, 46, 25);
        let mut instance = Menu {
            bg: Pad::with_background(Color { value: BLD_BG }),
            close: Button::with_icon(tt_theme::CLOSE).styled(tt_theme::button_bld_menu()),
            reboot: Button::with_icon_and_text(content_reboot).styled(tt_theme::button_bld_menu_item()),
            fwinfo: Button::with_icon_and_text(content_fwinfo).styled(tt_theme::button_bld_menu_item()),
            reset: Button::with_icon_and_text(content_reset).styled(tt_theme::button_bld_menu_item()),
        };
        instance.bg.clear();
        instance
    }

    /// A click on the first button, in the order close, reboot, firmware
    /// info, reset, that was clicked.
    pub open spec fn spec_msg(&self, event: Event) -> Option<MenuMsg> {
        if self.close.spec_touch(event).1 == Some(ButtonMsg::Clicked) {
            Some(MenuMsg::Close)
        } else if self.reboot.spec_touch(event).1 == Some(ButtonMsg::Clicked) {
            Some(MenuMsg::Reboot)
        } else if self.fwinfo.spec_touch(event).1 == Some(ButtonMsg::Clicked) {
            Some(MenuMsg::FwInfo)
        } else if self.reset.spec_touch(event).1 == Some(ButtonMsg::Clicked) {
            Some(MenuMsg::FactoryReset)
        } else {
            None
        }
    }

    pub fn dispatch(&mut self, ctx: &mut EventCtx, event: Event) -> (msg: Option<MenuMsg>)
        requires
            old(self).inv(),
        ensures
            final(self).inv(),
            msg == old(self).spec_msg(event),
    {
        if let Some(ButtonMsg::Clicked) = self.close.touch(ctx, event) {
            return Some(MenuMsg::Close);
        }
        if let Some(ButtonMsg::Clicked) = self.reboot.touch(ctx, event) {
            return Some(MenuMsg::Reboot);
        }
        if let Some(ButtonMsg::Clicked) = self.fwinfo.touch(ctx, event) {
            return Some(MenuMsg::FwInfo);
        }
        if let Some(ButtonMsg::Clicked) = self.reset.touch(ctx, event) {
            return Some(MenuMsg::FactoryReset);
        }
        None
    }
}

impl Component for Menu {
    type Msg = MenuMsg;

    open spec fn inv(&self) -> bool {
        self.close.wf() && self.reboot.wf() && self.fwinfo.wf() && self.reset.wf()
    }

    open spec fn spec_paint(&self) -> Seq<Draw> {
        self.bg.spec_paint() + bld_title(Color { value: BLD_BG }) + (self.close.spec_button_paint()
            + self.reboot.spec_button_paint() + self.fwinfo.spec_button_paint() + self.reset.spec_button_paint())
    }

    fn place(&mut self, bounds: Rect) -> (r: Rect) {
        self.bg.place(Rect::new(Point::new(0, 0), Point::new(WIDTH, HEIGHT)));
        self.close.place(Rect::new(Point::new(187, 15), Point::new(187 + 38, 15 + 38)));
        self.reboot.place(Rect::new(Point::new(16, 66), Point::new(16 + 209, 66 + 48)));
        self.fwinfo.place(Rect::new(Point::new(16, 122), Point::new(16 + 209, 122 + 48)));
        self.reset.place(Rect::new(Point::new(16, 178), Point::new(16 + 209, 178 + 48)));
        bounds
    }

    fn event(&mut self, ctx: &mut EventCtx, event: Event) -> (msg: Option<MenuMsg>) {
        self.dispatch(ctx, event)
    }

    fn paint(&self, canvas: &mut Canvas) {
        self.bg.paint(canvas);
        paint_bld_title(Color { value: BLD_BG }, canvas);
        self.close.paint(canvas);
        self.reboot.paint(canvas);
        self.fwinfo.paint(canvas);
        self.reset.paint(canvas);
        assert(canvas@ =~= old(canvas)@ + self.spec_paint());
    }

    fn bounds(&self, sink: &mut Vec<Rect>) {
        sink.push(self.close.area);
        sink.push(self.reboot.area);
        sink.push(self.fwinfo.area);
        sink.push(self.reset.area);
        assert(sink@.subrange(0, old(sink)@.len() as int) =~= old(sink)@);
    }
}

} // verus!
