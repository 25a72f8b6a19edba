use vstd::prelude::*;
use crate::component::{BootloaderFrame, Component};
use crate::display::{Align, Canvas, Color, Draw, IconId};
use crate::event::{Event, EventCtx};
use crate::geometry::{Point, Rect};
use crate::tt_button::{Button, ButtonMsg, ButtonStyle, ButtonStyleSheet};
use crate::tt_theme::{self, BG, FG, FONT_BOLD, FONT_NORMAL, GREEN, GREEN_DARK, GREY_LIGHT, HEIGHT, RADIUS, RED, RED_DARK, WIDTH};

verus! {

#[derive(Copy, Clone, Debug, PartialEq, Eq, Structural)]
pub enum InstallMsg<M> {
    Cancel(M),
    Confirm(M),
}

/// `Color::rgb(0x99, 0x99, 0x99)`, the grey of informational icons.
pub const ICON_GREY: u16 = 0x9CD3;
/// `Color::rgb(0xFF, 0x00, 0x00)`, the red of warnings.
pub const WARNING_RED: u16 = 0xF800;

/// Red cancel button on white.
pub fn button_cancel() -> (s: ButtonStyleSheet)
    ensures
        s == button_cancel_spec(),
{
    ButtonStyleSheet {
        normal: ButtonStyle { font: FONT_BOLD, text_color: Color { value: FG }, button_color: Color { value: RED }, background_color: Color { value: FG }, border_color: Color { value: FG }, border_radius: RADIUS, border_width: 0 },
        active: ButtonStyle { font: FONT_BOLD, text_color: Color { value: FG }, button_color: Color { value: RED_DARK }, background_color: Color { value: FG }, border_color: Color { value: BG }, border_radius: RADIUS, border_width: 0 },
        disabled: ButtonStyle { font: FONT_BOLD, text_color: Color { value: GREY_LIGHT }, button_color: Color { value: RED }, background_color: Color { value: FG }, border_color: Color { value: FG }, border_radius: RADIUS, border_width: 0 },
    }
}

/// Green confirm button on white.
pub fn button_confirm() -> (s: ButtonStyleSheet)
    ensures
        s == button_confirm_spec(),
{
    ButtonStyleSheet {
        normal: ButtonStyle { font: FONT_BOLD, text_color: Color { value: FG }, button_color: Color { value: GREEN }, background_color: Color { value: FG }, border_color: Color { value: FG }, border_radius: RADIUS, border_width: 0 },
        active: ButtonStyle { font: FONT_BOLD, text_color: Color { value: FG }, button_color: Color { value: GREEN_DARK }, background_color: Color { value: FG }, border_color: Color { value: FG }, border_radius: RADIUS, border_width: 0 },
        disabled: ButtonStyle { font: FONT_BOLD, text_color: Color { value: FG }, button_color: Color { value: GREEN }, background_color: Color { value: FG }, border_color: Color { value: FG }, border_radius: RADIUS, border_width: 0 },
    }
}

/// A confirmation screen: a title, an optional icon and warning, a message
/// and cancel and confirm buttons.
pub struct Install<T> {
    pub label: &'static str,
    pub icon: Option<IconId>,
    pub message: T,
    pub warning: Option<&'static str>,
    pub cancel: Button,
    pub confirm: Button,
}

/// What the white confirmation screens draw around their message: the
/// background, a rule under the title, the title, the icon and the warning.
pub open spec fn confirm_header(label: &'static str, icon: Option<IconId>, warning: Option<&'static str>) -> Seq<Draw> {
    seq![
        Draw::FillRect { area: Rect { x0: 0, y0: 0, x1: WIDTH, y1: HEIGHT }, color: Color { value: FG } },
        Draw::FillRect { area: Rect { x0: 16, y0: 44, x1: (WIDTH - 12) as i32, y1: 45 }, color: Color { value: BG } },
        Draw::Text { at: Point { x: 16, y: 32 }, text: label@, font: FONT_NORMAL, fg: Color { value: BG }, bg: Color { value: FG }, align: Align::Left },
    ] + match icon {
        Some(i) => seq![Draw::Icon { center: Point { x: 32, y: 70 }, icon: i, fg: Color { value: ICON_GREY }, bg: Color { value: FG } }],
        None => Seq::empty(),
    } + match warning {
        Some(w) => seq![Draw::Text { at: Point { x: 120, y: 170 }, text: w@, font: FONT_NORMAL, fg: Color { value: WARNING_RED }, bg: Color { value: FG }, align: Align::Center }],
        None => Seq::empty(),
    }
}

pub fn paint_confirm_header(label: &'static str, icon: Option<IconId>, warning: Option<&'static str>, canvas: &mut Canvas)
    ensures
        final(canvas)@ == old(canvas)@ + confirm_header(label, icon, warning),
{
    canvas.fill_rect(Rect::new(Point::new(0, 0), Point::new(WIDTH, HEIGHT)), Color { value: FG });
    canvas.fill_rect(Rect::new(Point::new(16, 44), Point::new(WIDTH - 12, 45)), Color { value: BG });
    canvas.text(Point::new(16, 32), label, FONT_NORMAL, Color { value: BG }, Color { value: FG }, Align::Left);
    match icon {
        Some(i) => canvas.icon(Point::new(32, 70), i, Color { value: ICON_GREY }, Color { value: FG }),
        None => {},
    }
    match warning {
        Some(w) => canvas.text(Point::new(120, 170), w, FONT_NORMAL, Color { value: WARNING_RED }, Color { value: FG }, Align::Center),
        None => {},
    }
    assert(canvas@ =~= old(canvas)@ + confirm_header(label, icon, warning));
}

/// Where the message and the two buttons of a confirmation screen go.
pub open spec fn message_area() -> Rect {
    Rect { x0: 55, y0: 52, x1: (WIDTH - 12) as i32, y1: (HEIGHT - 80) as i32 }
}

pub open spec fn left_button_area() -> Rect {
    Rect { x0: 9, y0: 184, x1: 117, y1: 234 }
}

pub open spec fn right_button_area() -> Rect {
    Rect { x0: 123, y0: 184, x1: 231, y1: 234 }
}

impl<T: Component> Install<T> {
    pub fn new(label: &'static str, icon: Option<IconId>, message: T) -> (i: Install<T>)
        ensures
            i.label == label && i.icon == icon && i.message == message && i.warning is None,
            i.cancel == Button::spec_new(crate::tt_button::ButtonContent::Icon(tt_theme::ICON_CANCEL)).styled_spec(button_cancel_spec()),
            i.confirm == Button::spec_new(crate::tt_button::ButtonContent::Icon(tt_theme::ICON_CONFIRM)).styled_spec(button_confirm_spec()),
            i.cancel.wf() && i.confirm.wf(),
    {
        Install {
            label,
            icon,
            warning: None,
            message,
            cancel: Button::with_icon(tt_theme::ICON_CANCEL).styled(button_cancel()),
            confirm: Button::with_icon(tt_theme::ICON_CONFIRM).styled(button_confirm()),
        }
    }

    pub fn add_warning(&mut self, warning: &'static str)
        ensures
            final(self).warning == Some(warning),
            final(self).label == old(self).label && final(self).icon == old(self).icon,
            final(self).message == old(self).message,
            final(self).cancel == old(self).cancel && final(self).confirm == old(self).confirm,
    {
        self.warning = Some(warning);
    }

    pub open spec fn spec_msg(&self, event: Event) -> Option<InstallMsg<ButtonMsg>> {
        match self.cancel.spec_touch(event).1 {
            Some(m) => Some(InstallMsg::Cancel(m)),
            None => match self.confirm.spec_touch(event).1 {
                Some(m) => Some(InstallMsg::Confirm(m)),
                None => None,
            },
        }
    }

    /// The cancel button sees the event first; the confirm button only when
    /// cancel emitted nothing.
    pub fn dispatch(&mut self, ctx: &mut EventCtx, event: Event) -> (msg: Option<InstallMsg<ButtonMsg>>)
        requires
            old(self).inv(),
        ensures
            final(self).inv(),
            msg == old(self).spec_msg(event),
    {
        match self.cancel.touch(ctx, event) {
            Some(m) => Some(InstallMsg::Cancel(m)),
            None => match self.confirm.touch(ctx, event) {
                Some(m) => Some(InstallMsg::Confirm(m)),
                None => None,
            },
        }
    }
}

impl Button {
    pub open spec fn styled_spec(self, styles: ButtonStyleSheet) -> Button {
        Button { styles, ..self }
    }
}

/// Green on white: the confirm button of the confirmation screens.
pub open spec fn button_confirm_spec() -> ButtonStyleSheet {
    ButtonStyleSheet {
        normal: ButtonStyle { font: FONT_BOLD, text_color: Color { value: FG }, button_color: Color { value: GREEN }, background_color: Color { value: FG }, border_color: Color { value: FG }, border_radius: RADIUS, border_width: 0 },
        active: ButtonStyle { font: FONT_BOLD, text_color: Color { value: FG }, button_color: Color { value: GREEN_DARK }, background_color: Color { value: FG }, border_color: Color { value: FG }, border_radius: RADIUS, border_width: 0 },
        disabled: ButtonStyle { font: FONT_BOLD, text_color: Color { value: FG }, button_color: Color { value: GREEN }, background_color: Color { value: FG }, border_color: Color { value: FG }, border_radius: RADIUS, border_width: 0 },
    }
}

/// Red on white: the cancel button of the confirmation screens.
pub open spec fn button_cancel_spec() -> ButtonStyleSheet {
    ButtonStyleSheet {
        normal: ButtonStyle { font: FONT_BOLD, text_color: Color { value: FG }, button_color: Color { value: RED }, background_color: Color { value: FG }, border_color: Color { value: FG }, border_radius: RADIUS, border_width: 0 },
        active: ButtonStyle { font: FONT_BOLD, text_color: Color { value: FG }, button_color: Color { value: RED_DARK }, background_color: Color { value: FG }, border_color: Color { value: BG }, border_radius: RADIUS, border_width: 0 },
        disabled: ButtonStyle { font: FONT_BOLD, text_color: Color { value: GREY_LIGHT }, button_color: Color { value: RED }, background_color: Color { value: FG }, border_color: Color { value: FG }, border_radius: RADIUS, border_width: 0 },
    }
}

impl<T: Component> Component for Install<T> {
    type Msg = InstallMsg<ButtonMsg>;

    open spec fn inv(&self) -> bool {
        self.message.inv() && self.cancel.wf() && self.confirm.wf()
    }

    open spec fn spec_paint(&self) -> Seq<Draw> {
        confirm_header(self.label, self.icon, self.warning) + self.message.spec_paint() + (
            self.cancel.spec_button_paint() + self.confirm.spec_button_paint())
    }

    fn place(&mut self, bounds: Rect) -> (r: Rect) {
        self.message.place(Rect::new(Point::new(55, 52), Point::new(WIDTH - 12, HEIGHT - 80)));
        self.cancel.place(Rect::new(Point::new(9, 184), Point::new(117, 234)));
        self.confirm.place(Rect::new(Point::new(123, 184), Point::new(231, 234)));
        bounds
    }

    fn event(&mut self, ctx: &mut EventCtx, event: Event) -> (msg: Option<InstallMsg<ButtonMsg>>) {
        self.dispatch(ctx, event)
    }

    fn paint(&self, canvas: &mut Canvas) {
        paint_confirm_header(self.label, self.icon, self.warning, canvas);
        self.message.paint(canvas);
        self.repaint(canvas);
        assert(canvas@ =~= old(canvas)@ + self.spec_paint());
    }

    fn bounds(&self, sink: &mut Vec<Rect>) {
        sink.push(self.cancel.area);
        sink.push(self.confirm.area);
        assert(sink@.subrange(0, old(sink)@.len() as int) =~= old(sink)@);
    }
}

impl<T: Component> BootloaderFrame for Install<T> {
    open spec fn spec_repaint(&self) -> Seq<Draw> {
        self.cancel.spec_button_paint() + self.confirm.spec_button_paint()
    }

    open spec fn spec_messages(&self, msg: InstallMsg<ButtonMsg>) -> Option<u32> {
        match msg {
            InstallMsg::Cancel(ButtonMsg::Clicked) => Some(1),
            InstallMsg::Confirm(ButtonMsg::Clicked) => Some(2),
            _ => None,
        }
    }

    fn repaint(&self, canvas: &mut Canvas) {
        self.cancel.paint(canvas);
        self.confirm.paint(canvas);
        assert(canvas@ =~= old(canvas)@ + self.spec_repaint());
    }

    /// A click on cancel is 1, on confirm 2.
    fn messages(&self, msg: InstallMsg<ButtonMsg>) -> (r: Option<u32>) {
        match msg {
            InstallMsg::Cancel(ButtonMsg::Clicked) => Some(1),
            InstallMsg::Confirm(ButtonMsg::Clicked) => Some(2),
            _ => None,
        }
    }
}

} // verus!
