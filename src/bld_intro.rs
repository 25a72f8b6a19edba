use vstd::prelude::*;
use crate::component::{BootloaderFrame, Component};
use crate::display::{Align, Canvas, Color, Draw};
use crate::event::{Event, EventCtx};
use crate::geometry::{Point, Rect};
use crate::text_block::TextBlock;
use crate::tt_button::{Button, ButtonContent, ButtonMsg};
use crate::tt_theme::{self, BLD_BG, BLD_FG, BLD_TITLE_COLOR, FONT_BOLD, FONT_MEDIUM, HEIGHT, WIDTH};

verus! {

#[derive(Copy, Clone, Debug, PartialEq, Eq, Structural)]
pub enum BldIntroMsg<M> {
    Menu(M),
}

/// The bootloader title in the top left corner, on the bootloader blue.
pub open spec fn bld_title(background: Color) -> Seq<Draw> {
    seq![
        Draw::FillRect { area: Rect { x0: 0, y0: 0, x1: WIDTH, y1: HEIGHT }, color: background },
        Draw::Text {
            at: Point { x: 15, y: 24 },
            text: BOOTLOADER_TITLE@,
            font: FONT_BOLD,
            fg: Color { value: BLD_TITLE_COLOR },
            bg: background,
            align: Align::Left,
        },
    ]
}

pub const BOOTLOADER_TITLE: &'static str = "BOOTLOADER";

pub fn paint_bld_title(background: Color, canvas: &mut Canvas)
    ensures
        final(canvas)@ == old(canvas)@ + bld_title(background),
{
    canvas.fill_rect(Rect::new(Point::new(0, 0), Point::new(WIDTH, HEIGHT)), background);
    canvas.text(Point::new(15, 24), BOOTLOADER_TITLE, FONT_BOLD, Color { value: BLD_TITLE_COLOR }, background, Align::Left);
    assert(canvas@ =~= old(canvas)@ + bld_title(background));
}

/// The bootloader's first screen: a short text and a menu button.
pub struct BldIntro {
    pub menu: Button,
    pub text1: TextBlock,
}

impl BldIntro {
    pub fn new() -> (b: BldIntro)
        ensures
            b.menu == (Button { styles: tt_theme::button_bld_menu_spec(), ..Button::spec_new(ButtonContent::Icon(tt_theme::MENU)) }),
            b.text1.lines@.len() == 3,
            b.inv(),
    {
        let text1 = TextBlock::new(FONT_MEDIUM, Color { value: BLD_FG }, Color { value: BLD_BG })
            .add("This is a bootloader. It does something.")
            .add("")
            .add("Follow instructions in ur PC to do stuff.");
        BldIntro { menu: Button::with_icon(tt_theme::MENU).styled(tt_theme::button_bld_menu()), text1 }
    }

    pub open spec fn spec_msg(&self, event: Event) -> Option<BldIntroMsg<ButtonMsg>> {
        match self.menu.spec_touch(event).1 {
            Some(m) => Some(BldIntroMsg::Menu(m)),
            None => None,
        }
    }
}

impl Component for BldIntro {
    type Msg = BldIntroMsg<ButtonMsg>;

    open spec fn inv(&self) -> bool {
        self.menu.wf() && self.text1.wf()
    }

    open spec fn spec_paint(&self) -> Seq<Draw> {
        bld_title(Color { value: BLD_BG }) + (self.text1.spec_paint() + self.menu.spec_button_paint())
    }

    fn place(&mut self, bounds: Rect) -> (r: Rect) {
        self.menu.place(Rect::new(Point::new(187, 15), Point::new(187 + 38, 15 + 38)));
        self.text1.place(Rect::new(Point::new(15, 75), Point::new(225, 200)));
        bounds
    }

    fn event(&mut self, ctx: &mut EventCtx, event: Event) -> (msg: Option<BldIntroMsg<ButtonMsg>>) {
        self.text1.event(ctx, event);
        match self.menu.touch(ctx, event) {
            Some(m) => Some(BldIntroMsg::Menu(m)),
            None => None,
        }
    }

    fn paint(&self, canvas: &mut Canvas) {
        paint_bld_title(Color { value: BLD_BG }, canvas);
        self.repaint(canvas);
        assert(canvas@ =~= old(canvas)@ + self.spec_paint());
    }

    fn bounds(&self, sink: &mut Vec<Rect>) {
        sink.push(self.menu.area);
        assert(sink@.subrange(0, old(sink)@.len() as int) =~= old(sink)@);
    }
}

impl BootloaderFrame for BldIntro {
    open spec fn spec_repaint(&self) -> Seq<Draw> {
        self.text1.spec_paint() + self.menu.spec_button_paint()
    }

    open spec fn spec_messages(&self, msg: BldIntroMsg<ButtonMsg>) -> Option<u32> {
        match msg {
            BldIntroMsg::Menu(ButtonMsg::Clicked) => Some(1),
            _ => None,
        }
    }

    fn repaint(&self, canvas: &mut Canvas) {
        self.text1.paint(canvas);
        self.menu.paint(canvas);
    }

    /// A click on the menu button is 1.
    fn messages(&self, msg: BldIntroMsg<ButtonMsg>) -> (r: Option<u32>) {
        match msg {
            BldIntroMsg::Menu(ButtonMsg::Clicked) => Some(1),
            _ => None,
        }
    }
}

} // verus!
