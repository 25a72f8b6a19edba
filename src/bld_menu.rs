use vstd::prelude::*;
use crate::bld_intro::{bld_title, paint_bld_title};
use crate::component::{BootloaderFrame, Component};
use crate::display::{Canvas, Color, Draw, Font};
use crate::event::{Event, EventCtx};
use crate::geometry::{Point, Rect};
use crate::tt_button::{Button, ButtonMsg, ButtonStyle, ButtonStyleSheet, IconText};
use crate::tt_theme::{
    self, TextTheme, BLD_BG, BLD_BTN_MENUITEM_COLOR, BLD_BTN_MENU_COLOR, BLD_BTN_MENU_COLOR_ACTIVE, BLD_FG,
    FONT_BOLD, FONT_MEDIUM, FONT_MONO, FONT_NORMAL, GREY_LIGHT, RED,
};

verus! {

/// Colors of the bootloader menu: its blue, white text and translucent
/// buttons (RGB565 values).
pub const BG_COLOR: u16 = BLD_BG;
pub const FG_COLOR: u16 = BLD_FG;
pub const BTN_CLOSE_COLOR: u16 = BLD_BTN_MENU_COLOR;
pub const BTN_CLOSE_COLOR_ACTIVE: u16 = BLD_BTN_MENU_COLOR_ACTIVE;
pub const BTN_MENU_COLOR: u16 = BLD_BTN_MENUITEM_COLOR;
pub const BTN_MENU_COLOR_ACTIVE: u16 = BLD_BTN_MENU_COLOR_ACTIVE;

/// White medium text on the bootloader blue.
pub struct TTBootloaderText2;

impl TTBootloaderText2 {
    pub fn theme() -> (t: TextTheme)
        ensures
            t.background_color == (Color { value: BG_COLOR }),
            t.text_font == FONT_MEDIUM,
            t.text_color == (Color { value: FG_COLOR }),
    {
        tt_theme::TTBootloaderText::theme()
    }
}

#[derive(Copy, Clone, Debug, PartialEq, Eq, Structural)]
pub enum BldMenuMsg<M> {
    Close(M),
    Reboot(M),
    FwInfo(M),
    FactoryReset(M),
}

pub open spec fn flat_style(text: u16, button: u16) -> ButtonStyle {
    ButtonStyle {
        font: FONT_BOLD,
        text_color: Color { value: text },
        button_color: Color { value: button },
        background_color: Color { value: BG_COLOR },
        border_color: Color { value: BG_COLOR },
        border_radius: 4,
        border_width: 0,
    }
}

/// The close button: translucent white on the menu blue.
pub fn button_cancel() -> (s: ButtonStyleSheet)
    ensures
        s.normal == flat_style(FG_COLOR, BTN_CLOSE_COLOR),
        s.active == flat_style(FG_COLOR, BTN_CLOSE_COLOR_ACTIVE),
        s.disabled == (ButtonStyle { border_color: Color { value: FG_COLOR }, ..flat_style(GREY_LIGHT, RED) }),
{
    let normal = ButtonStyle {
        font: FONT_BOLD,
        text_color: Color { value: FG_COLOR },
        button_color: Color { value: BTN_CLOSE_COLOR },
        background_color: Color { value: BG_COLOR },
        border_color: Color { value: BG_COLOR },
        border_radius: 4,
        border_width: 0,
    };
    ButtonStyleSheet {
        normal,
        active: ButtonStyle { button_color: Color { value: BTN_CLOSE_COLOR_ACTIVE }, ..normal },
        disabled: ButtonStyle {
            text_color: Color { value: GREY_LIGHT },
            button_color: Color { value: RED },
            border_color: Color { value: FG_COLOR },
            ..normal
        },
    }
}

/// The menu entries: more opaque white on the menu blue.
pub fn button_menu() -> (s: ButtonStyleSheet)
    ensures
        s.normal == flat_style(FG_COLOR, BTN_MENU_COLOR),
        s.active == flat_style(FG_COLOR, BTN_MENU_COLOR_ACTIVE),
        s.disabled == (ButtonStyle { border_color: Color { value: FG_COLOR }, ..flat_style(GREY_LIGHT, RED) }),
{
    let normal = ButtonStyle {
        font: FONT_BOLD,
        text_color: Color { value: FG_COLOR },
        button_color: Color { value: BTN_MENU_COLOR },
        background_color: Color { value: BG_COLOR },
        border_color: Color { value: BG_COLOR },
        border_radius: 4,
        border_width: 0,
    };
    ButtonStyleSheet {
        normal,
        active: ButtonStyle { button_color: Color { value: BTN_MENU_COLOR_ACTIVE }, ..normal },
        disabled: ButtonStyle {
            text_color: Color { value: GREY_LIGHT },
            button_color: Color { value: RED },
            border_color: Color { value: FG_COLOR },
            ..normal
        },
    }
}

/// The bootloader menu: close, reboot, firmware info and factory reset.
pub struct BldMenu {
    pub close: Button,
    pub reboot: Button,
    pub fwinfo: Button,
    pub reset: Button,
}

impl BldMenu {
    pub fn new() -> (m: BldMenu)
        ensures
            m.inv(),
            m.close.content == crate::tt_button::ButtonContent::Icon(tt_theme::CLOSE),
    {
        let content_reboot = IconText::new("REBOOT", tt_theme::REBOOT, 46, 25);
        let content_fwinfo = IconText::new("FW INFO", tt_theme::FWINFO, 46, 25);
        let content_reset = IconText::new("FACTORY RESET", tt_theme::RESET, 46, 25);
        BldMenu {
            close: Button::with_icon(tt_theme::CLOSE).styled(button_cancel()),
            reboot: Button::with_icon_and_text(content_reboot).styled(button_menu()),
            fwinfo: Button::with_icon_and_text(content_fwinfo).styled(button_menu()),
            reset: Button::with_icon_and_text(content_reset).styled(button_menu()),
        }
    }

    /// The first button, in the order close, reboot, firmware info, reset,
    /// that emits a message.
    pub open spec fn spec_msg(&self, event: Event) -> Option<BldMenuMsg<ButtonMsg>> {
        match self.close.spec_touch(event).1 {
            Some(m) => Some(BldMenuMsg::Close(m)),
            None => match self.reboot.spec_touch(event).1 {
                Some(m) => Some(BldMenuMsg::Reboot(m)),
                None => match self.fwinfo.spec_touch(event).1 {
                    Some(m) => Some(BldMenuMsg::FwInfo(m)),
                    None => match self.reset.spec_touch(event).1 {
                        Some(m) => Some(BldMenuMsg::FactoryReset(m)),
                        None => None,
                    },
                },
            },
        }
    }

    pub fn dispatch(&mut self, ctx: &mut EventCtx, event: Event) -> (msg: Option<BldMenuMsg<ButtonMsg>>)
        requires
            old(self).inv(),
        ensures
            final(self).inv(),
            msg == old(self).spec_msg(event),
    {
        if let Some(m) = self.close.touch(ctx, event) {
            return Some(BldMenuMsg::Close(m));
        }
        if let Some(m) = self.reboot.touch(ctx, event) {
            return Some(BldMenuMsg::Reboot(m));
        }
        if let Some(m) = self.fwinfo.touch(ctx, event) {
            return Some(BldMenuMsg::FwInfo(m));
        }
        if let Some(m) = self.reset.touch(ctx, event) {
            return Some(BldMenuMsg::FactoryReset(m));
        }
        None
    }
}

impl Component for BldMenu {
    type Msg = BldMenuMsg<ButtonMsg>;

    open spec fn inv(&self) -> bool {
        self.close.wf() && self.reboot.wf() && self.fwinfo.wf() && self.reset.wf()
    }

    open spec fn spec_paint(&self) -> Seq<Draw> {
        bld_title(Color { value: BG_COLOR }) + (self.close.spec_button_paint() + self.reboot.spec_button_paint()
            + self.fwinfo.spec_button_paint() + self.reset.spec_button_paint())
    }

    fn place(&mut self, bounds: Rect) -> (r: Rect) {
        self.close.place(Rect::new(Point::new(187, 15), Point::new(187 + 38, 15 + 38)));
        self.reboot.place(Rect::new(Point::new(16, 66), Point::new(16 + 209, 66 + 48)));
        self.fwinfo.place(Rect::new(Point::new(16, 122), Point::new(16 + 209, 122 + 48)));
        self.reset.place(Rect::new(Point::new(16, 178), Point::new(16 + 209, 178 + 48)));
        bounds
    }

    fn event(&mut self, ctx: &mut EventCtx, event: Event) -> (msg: Option<BldMenuMsg<ButtonMsg>>) {
        self.dispatch(ctx, event)
    }

    fn paint(&self, canvas: &mut Canvas) {
        paint_bld_title(Color { value: BG_COLOR }, canvas);
        self.repaint(canvas);
        assert(canvas@ =~= old(canvas)@ + self.spec_paint());
    }

    fn bounds(&self, sink: &mut Vec<Rect>) {
        sink.push(self.close.area);
        sink.push(self.reboot.area);
        sink.push(self.fwinfo.area);
        sink.push(self.reset.area);
        assert(sink@.subrange(0, old(sink)@.len() as int) =~= old(sink)@);
    }
}

impl BootloaderFrame for BldMenu {
    open spec fn spec_repaint(&self) -> Seq<Draw> {
        self.close.spec_button_paint() + self.reboot.spec_button_paint() + self.fwinfo.spec_button_paint()
            + self.reset.spec_button_paint()
    }

    open spec fn spec_messages(&self, msg: BldMenuMsg<ButtonMsg>) -> Option<u32> {
        match msg {
            BldMenuMsg::Close(ButtonMsg::Clicked) => Some(1),
            BldMenuMsg::Reboot(ButtonMsg::Clicked) => Some(2),
            BldMenuMsg::FactoryReset(ButtonMsg::Clicked) => Some(3),
            _ => None,
        }
    }

    fn repaint(&self, canvas: &mut Canvas) {
        self.close.paint(canvas);
        self.reboot.paint(canvas);
        self.fwinfo.paint(canvas);
        self.reset.paint(canvas);
        assert(canvas@ =~= old(canvas)@ + self.spec_repaint());
    }

    /// Clicks: close 1, reboot 2, factory reset 3.
    fn messages(&self, msg: BldMenuMsg<ButtonMsg>) -> (r: Option<u32>) {
        match msg {
            BldMenuMsg::Close(ButtonMsg::Clicked) => Some(1),
            BldMenuMsg::Reboot(ButtonMsg::Clicked) => Some(2),
            BldMenuMsg::FactoryReset(ButtonMsg::Clicked) => Some(3),
            _ => None,
        }
    }
}

} // verus!
