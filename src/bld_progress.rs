use vstd::prelude::*;
use crate::component::{BootloaderFrame, Component};
use crate::display::{Align, Canvas, Color, Draw, IconId};
use crate::event::{Event, EventCtx};
use crate::geometry::{Point, Rect};
use crate::tt_theme::{self, BLD_BG, BLD_FG, FONT_MEDIUM, HEIGHT, WIDTH};

verus! {

#[derive(Copy, Clone, Debug, PartialEq, Eq, Structural)]
pub enum BldProgressMsg {
    /// The screen never completes; this is its only message.
    Idle,
}

/// Progress of a firmware transfer: a loader with an icon and a caption.
pub struct BldProgress {
    pub text: &'static str,
    pub icon: IconId,
    pub progress: u16,
}

/// Loader value shown before any progress was reported.
pub const INITIAL_PROGRESS: u16 = 200;

impl BldProgress {
    pub fn new(text: &'static str) -> (p: BldProgress)
        ensures
            p.text == text,
            p.icon == tt_theme::RECEIVE,
            p.progress == INITIAL_PROGRESS,
    {
        BldProgress { text, icon: tt_theme::RECEIVE, progress: INITIAL_PROGRESS }
    }

    pub fn set_progres(&mut self, progress: u16)
        ensures
            final(self).progress == progress,
            final(self).text == old(self).text,
            final(self).icon == old(self).icon,
    {
        self.progress = progress;
    }
}

impl Component for BldProgress {
    type Msg = BldProgressMsg;

    open spec fn inv(&self) -> bool {
        true
    }

    open spec fn spec_paint(&self) -> Seq<Draw> {
        seq![
            Draw::FillRect { area: Rect { x0: 0, y0: 0, x1: WIDTH, y1: HEIGHT }, color: Color { value: BLD_BG } },
            Draw::Text {
                at: Point { x: (WIDTH / 2) as i32, y: 214 },
                text: self.text@,
                font: FONT_MEDIUM,
                fg: Color { value: BLD_FG },
                bg: Color { value: BLD_BG },
                align: Align::Center,
            },
            Draw::Loader {
                progress: self.progress,
                fg: Color { value: BLD_FG },
                bg: Color { value: BLD_BG },
                overlay: Some(self.icon),
            },
        ]
    }

    /// Takes no area of its own.
    fn place(&mut self, bounds: Rect) -> (r: Rect) {
        bounds
    }

    /// Does not react to input.
    fn event(&mut self, ctx: &mut EventCtx, event: Event) -> (msg: Option<BldProgressMsg>) {
        None
    }

    fn paint(&self, canvas: &mut Canvas) {
        canvas.fill_rect(Rect::new(Point::new(0, 0), Point::new(WIDTH, HEIGHT)), Color { value: BLD_BG });
        canvas.text(
            Point::new(WIDTH / 2, 214),
            self.text,
            FONT_MEDIUM,
            Color { value: BLD_FG },
            Color { value: BLD_BG },
            Align::Center,
        );
        self.repaint(canvas);
        assert(canvas@ =~= old(canvas)@ + self.spec_paint());
    }

    fn bounds(&self, sink: &mut Vec<Rect>) {
        assert(sink@.subrange(0, old(sink)@.len() as int) =~= old(sink)@);
    }
}

impl BootloaderFrame for BldProgress {
    open spec fn spec_repaint(&self) -> Seq<Draw> {
        seq![
            Draw::Loader {
                progress: self.progress,
                fg: Color { value: BLD_FG },
                bg: Color { value: BLD_BG },
                overlay: Some(self.icon),
            },
        ]
    }

    open spec fn spec_messages(&self, msg: BldProgressMsg) -> Option<u32> {
        None
    }

    fn repaint(&self, canvas: &mut Canvas) {
        canvas.loader(self.progress, Color { value: BLD_FG }, Color { value: BLD_BG }, Some(self.icon));
        assert(canvas@ =~= old(canvas)@ + self.spec_repaint());
    }

    /// Progress never ends a screen.
    fn messages(&self, msg: BldProgressMsg) -> (r: Option<u32>) {
        None
    }
}

} // verus!
