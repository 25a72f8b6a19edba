use vstd::prelude::*;
use crate::component::{Component, ReturnToC};
use crate::display::{Canvas, Color, Draw, IconId};
use crate::event::{Event, EventCtx};
use crate::geometry::{Point, Rect};
use crate::install::{button_cancel_spec, button_confirm_spec, confirm_header, paint_confirm_header};
use crate::pad::Pad;
use crate::text_block::TextBlock;
use crate::tt_button::{Button, ButtonContent, ButtonMsg, ButtonStyleSheet};
use crate::tt_theme::{self, FG, HEIGHT, WIDTH};

verus! {

#[derive(Copy, Clone, Debug, PartialEq, Eq, Structural)]
pub enum InstallMsg {
    Cancel,
    Confirm,
}

impl ReturnToC for InstallMsg {
    open spec fn spec_return_to_c(&self) -> u32 {
        match self {
            InstallMsg::Cancel => 1,
            InstallMsg::Confirm => 2,
        }
    }

    /// Cancel is 1, confirm 2.
    fn return_to_c(&self) -> (r: u32) {
        match self {
            InstallMsg::Cancel => 1,
            InstallMsg::Confirm => 2,
        }
    }
}

/// Red cancel button on white.
pub fn button_cancel() -> (s: ButtonStyleSheet)
    ensures
        s == button_cancel_spec(),
{
    crate::install::button_cancel()
}

/// Green confirm button on white.
pub fn button_confirm() -> (s: ButtonStyleSheet)
    ensures
        s == button_confirm_spec(),
{
    crate::install::button_confirm()
}

/// Asks to confirm an installation or a wipe: a title, an optional icon, a
/// message, an optional warning, and cancel and confirm buttons.
pub struct Install {
    pub bg: Pad,
    pub label: &'static str,
    pub icon: Option<IconId>,
    pub message: TextBlock,
    pub warning: Option<&'static str>,
    pub cancel: Button,
    pub confirm: Button,
}

impl Install {
    pub fn new(label: &'static str, icon: Option<IconId>, message: TextBlock) -> (i: Install)
        requires
            message.wf(),
        ensures
            i.inv(),
            i.label == label && i.icon == icon && i.message == message && i.warning is None,
            i.cancel == (Button { styles: button_cancel_spec(), ..Button::spec_new(ButtonContent::Icon(tt_theme::ICON_CANCEL)) }),
            i.confirm == (Button { styles: button_confirm_spec(), ..Button::spec_new(ButtonContent::Icon(tt_theme::ICON_CONFIRM)) }),
            i.bg.clear && i.bg.color == (Color { value: FG }),
    {
        let mut instance = Install {
            bg: Pad::with_background(Color { value: FG }),
            label,
            icon,
            warning: None,
            message,
            cancel: Button::with_icon(tt_theme::ICON_CANCEL).styled(button_cancel()),
            confirm: Button::with_icon(tt_theme::ICON_CONFIRM).styled(button_confirm()),
        };
        instance.bg.clear();
        instance
    }

    pub fn add_warning(&mut self, warning: &'static str)
        ensures
            *final(self) == (Install { warning: Some(warning), ..*old(self) }),
    {
        self.warning = Some(warning);
    }

    pub open spec fn spec_msg(&self, event: Event) -> Option<InstallMsg> {
        if self.cancel.spec_touch(event).1 == Some(ButtonMsg::Clicked) {
            Some(InstallMsg::Cancel)
        } else if self.cancel.spec_touch(event).1 is None && self.confirm.spec_touch(event).1 == Some(
            ButtonMsg::Clicked,
        ) {
            Some(InstallMsg::Confirm)
        } else {
            None
        }
    }

    /// A click on cancel cancels; confirm sees the event only when cancel
    /// emitted nothing, and a click on it confirms.
    pub fn dispatch(&mut self, ctx: &mut EventCtx, event: Event) -> (msg: Option<InstallMsg>)
        requires
            old(self).inv(),
        ensures
            final(self).inv(),
            msg == old(self).spec_msg(event),
    {
        match self.cancel.touch(ctx, event) {
            Some(ButtonMsg::Clicked) => Some(InstallMsg::Cancel),
            Some(_) => None,
            None => match self.confirm.touch(ctx, event) {
                Some(ButtonMsg::Clicked) => Some(InstallMsg::Confirm),
                _ => None,
            },
        }
    }
}

impl Component for Install {
    type Msg = InstallMsg;

    open spec fn inv(&self) -> bool {
        self.message.wf() && self.cancel.wf() && self.confirm.wf()
    }

    open spec fn spec_paint(&self) -> Seq<Draw> {
        self.bg.spec_paint() + confirm_header(self.label, self.icon, self.warning) + self.message.spec_paint() + (
        self.cancel.spec_button_paint() + self.confirm.spec_button_paint())
    }

    fn place(&mut self, bounds: Rect) -> (r: Rect) {
        self.bg.place(Rect::new(Point::new(0, 0), Point::new(WIDTH, HEIGHT)));
        self.message.place(Rect::new(Point::new(55, 52), Point::new(WIDTH - 12, HEIGHT - 80)));
        self.cancel.place(Rect::new(Point::new(9, 184), Point::new(117, 234)));
        self.confirm.place(Rect::new(Point::new(123, 184), Point::new(231, 234)));
        bounds
    }

    fn event(&mut self, ctx: &mut EventCtx, event: Event) -> (msg: Option<InstallMsg>) {
        self.dispatch(ctx, event)
    }

    fn paint(&self, canvas: &mut Canvas) {
        self.bg.paint(canvas);
        paint_confirm_header(self.label, self.icon, self.warning, canvas);
        self.message.paint(canvas);
        self.cancel.paint(canvas);
        self.confirm.paint(canvas);
        assert(canvas@ =~= old(canvas)@ + self.spec_paint());
    }

    fn bounds(&self, sink: &mut Vec<Rect>) {
        sink.push(self.cancel.area);
        sink.push(self.confirm.area);
        assert(sink@.subrange(0, old(sink)@.len() as int) =~= old(sink)@);
    }
}

/// The title of an installation prompt.
pub fn install_title(downgrade: bool, vendor: bool) -> (t: &'static str)
    ensures
        downgrade ==> t == "Downgrade firmware",
        !downgrade && vendor ==> t == "Vendor change",
        !downgrade && !vendor ==> t == "Update firmware",
{
    if downgrade {
        "Downgrade firmware"
    } else if vendor {
        "Vendor change"
    } else {
        "Update firmware"
    }
}

pub const SEED_WARNING: &'static str = "Seed will be erased!";

/// The installation prompt: who made the firmware and its version; a
/// downgrade or a vendor change warns that the seed will be erased.
pub fn install_confirm_screen(vendor_str: &str, version: &str, downgrade: bool, vendor: bool) -> (i: Install)
    ensures
        i.inv(),
        i.label == install_title_spec(downgrade, vendor),
        i.icon == Some(tt_theme::INFO),
        i.message.lines@.len() == 3,
        i.message.lines@[1]@ == vendor_str@,
        i.message.lines@[2]@ == version@,
        i.warning == (if vendor || downgrade {
            Some(SEED_WARNING)
        } else {
            None
        }),
{
    let theme = tt_theme::TTBootloaderTextTemp::theme();
    let message = TextBlock::new(theme.text_font, theme.text_color, theme.background_color)
        .add("Install firmware by")
        .add(vendor_str)
        .add(version);
    let mut frame = Install::new(install_title(downgrade, vendor), Some(tt_theme::INFO), message);
    if vendor || downgrade {
        frame.add_warning(SEED_WARNING);
    }
    frame
}

pub open spec fn install_title_spec(downgrade: bool, vendor: bool) -> &'static str {
    if downgrade {
        "Downgrade firmware"
    } else if vendor {
        "Vendor change"
    } else {
        "Update firmware"
    }
}

/// The wipe prompt, always with the seed warning.
pub fn wipe_confirm_screen() -> (i: Install)
    ensures
        i.inv(),
        i.label == "Wipe device",
        i.icon == Some(tt_theme::INFO),
        i.warning == Some(SEED_WARNING),
        i.message.lines@.len() == 1,
{
    let theme = tt_theme::TTBootloaderTextTemp::theme();
    let message = TextBlock::new(theme.text_font, theme.text_color, theme.background_color).add(
        "Do you want to wipe the device?",
    );
    let mut frame = Install::new("Wipe device", Some(tt_theme::INFO), message);
    frame.add_warning(SEED_WARNING);
    frame
}

} // verus!
