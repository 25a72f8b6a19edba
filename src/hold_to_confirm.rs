use vstd::prelude::*;
use crate::button::{label_width, placement, spec_placement, ButtonPos, PressState};
use crate::display::{Align, Canvas, Color, Draw, Font};
use crate::event::{ctx_effect, ButtonEvent, Duration, Event, EventCtx, PhysicalButton, TimerToken};
use crate::geometry::{Point, Rect};

verus! {

#[derive(Copy, Clone, Debug, PartialEq, Eq, Structural)]
pub enum HoldToConfirmMsg {
    Confirmed,
}

#[derive(Copy, Clone, Debug, PartialEq, Eq, Structural)]
pub struct LoaderStyle {
    pub font: Font,
    pub fg_color: Color,
    pub bg_color: Color,
}

#[derive(Copy, Clone, Debug, PartialEq, Eq, Structural)]
pub struct LoaderStyleSheet {
    pub normal: LoaderStyle,
}

/// A label that confirms once its button was held for `duration`; releasing
/// earlier cancels the hold.
pub struct HoldToConfirm {
    pub pos: ButtonPos,
    pub text: &'static str,
    pub area: Rect,
    pub baseline: Point,
    pub styles: LoaderStyleSheet,
    pub duration: Duration,
    pub state: PressState,
    pub timer: Option<TimerToken>,
}

impl HoldToConfirm {
    pub open spec fn spec_layout(self, bounds: Rect) -> (Rect, Point) {
        spec_placement(bounds, self.pos, label_width(self.styles.normal.font, self.text@, 0), 0)
    }

    /// Whether the event completes the hold.
    pub open spec fn spec_confirms(self, event: Event) -> bool {
        match event {
            Event::Timer(t) => self.timer == Some(t) && self.state == PressState::Pressed,
            _ => false,
        }
    }

    /// The widget after one event, and the message it emits.
    pub open spec fn spec_event(self, event: Event, token: u32) -> (HoldToConfirm, Option<HoldToConfirmMsg>) {
        match event {
            Event::Button(ButtonEvent::ButtonPressed(w)) => if self.pos.spec_hit(w) {
                (
                    HoldToConfirm {
                        state: PressState::Pressed,
                        timer: Some(TimerToken { id: token }),
                        ..self
                    },
                    None,
                )
            } else {
                (self, None)
            },
            Event::Button(ButtonEvent::ButtonReleased(w)) => if self.pos.spec_hit(w)
                && self.state == PressState::Pressed {
                (HoldToConfirm { state: PressState::Released, timer: None, ..self }, None)
            } else {
                (self, None)
            },
            Event::Timer(t) => if self.timer == Some(t) {
                if self.state == PressState::Pressed {
                    (
                        HoldToConfirm { state: PressState::Released, timer: None, ..self },
                        Some(HoldToConfirmMsg::Confirmed),
                    )
                } else {
                    (HoldToConfirm { timer: None, ..self }, None)
                }
            } else {
                (self, None)
            },
            _ => (self, None),
        }
    }

    pub open spec fn spec_event_paints(self, event: Event) -> bool {
        self.spec_event(event, 0).0.state != self.state
    }

    pub open spec fn spec_event_timer(self, event: Event) -> Option<Duration> {
        match event {
            Event::Button(ButtonEvent::ButtonPressed(w)) => if self.pos.spec_hit(w) {
                Some(self.duration)
            } else {
                None
            },
            _ => None,
        }
    }

    /// Released: the text in the foreground color. Held: the area filled
    /// with the foreground and the text inverted on it.
    pub open spec fn spec_paint(self) -> Seq<Draw> {
        let st = self.styles.normal;
        if self.state == PressState::Pressed {
            seq![
                Draw::FillRect { area: self.area, color: st.fg_color },
                Draw::Text {
                    at: self.baseline,
                    text: self.text@,
                    font: st.font,
                    fg: st.bg_color,
                    bg: st.fg_color,
                    align: Align::Left,
                },
            ]
        } else {
            seq![
                Draw::Text {
                    at: self.baseline,
                    text: self.text@,
                    font: st.font,
                    fg: st.fg_color,
                    bg: st.bg_color,
                    align: Align::Left,
                },
            ]
        }
    }

    pub fn new(pos: ButtonPos, text: &'static str, styles: LoaderStyleSheet, duration: Duration) -> (h:
        HoldToConfirm)
        ensures
            h == (HoldToConfirm {
                pos,
                text,
                area: Rect::zero_spec(),
                baseline: Point::zero_spec(),
                styles,
                duration,
                state: PressState::Released,
                timer: None,
            }),
    {
        HoldToConfirm {
            pos,
            text,
            area: Rect::zero(),
            baseline: Point::zero(),
            styles,
            duration,
            state: PressState::Released,
            timer: None,
        }
    }

    /// Replaces the text and lays the widget out again in `area`.
    pub fn set_text(&mut self, text: &'static str, area: Rect)
        requires
            area.wf(),
        ensures
            final(self).text == text,
            (final(self).area, final(self).baseline) == (HoldToConfirm { text, ..*old(self) }).spec_layout(area),
            *final(self) == (HoldToConfirm {
                text,
                area: final(self).area,
                baseline: final(self).baseline,
                ..*old(self)
            }),
    {
        self.text = text;
        self.place(area);
    }

    pub fn set_duration(&mut self, duration: Duration)
        ensures
            *final(self) == (HoldToConfirm { duration, ..*old(self) }),
    {
        self.duration = duration;
    }

    /// Back to released, forgetting any running hold.
    pub fn reset(&mut self)
        ensures
            *final(self) == (HoldToConfirm { state: PressState::Released, timer: None, ..*old(self) }),
    {
        self.state = PressState::Released;
        self.timer = None;
    }

    pub fn place(&mut self, bounds: Rect) -> (r: Rect)
        requires
            bounds.wf(),
        ensures
            (final(self).area, final(self).baseline) == old(self).spec_layout(bounds),
            r == final(self).area,
            r.wf(),
            *final(self) == (HoldToConfirm {
                area: final(self).area,
                baseline: final(self).baseline,
                ..*old(self)
            }),
    {
        let (area, baseline) = placement(bounds, self.pos, self.text, self.styles.normal.font, 0);
        self.area = area;
        self.baseline = baseline;
        area
    }

    /// Handles one event; see `spec_event`.
    pub fn event(&mut self, ctx: &mut EventCtx, event: Event) -> (msg: Option<HoldToConfirmMsg>)
        ensures
            (*final(self), msg) == old(self).spec_event(event, old(ctx).next_token),
            ctx_effect(
                old(ctx),
                final(ctx),
                old(self).spec_event_paints(event),
                old(self).spec_event_timer(event),
            ),
    {
        match event {
            Event::Button(ButtonEvent::ButtonPressed(which)) => {
                if self.pos.hit(&which) {
                    if self.state != PressState::Pressed {
                        ctx.request_paint();
                    }
                    self.state = PressState::Pressed;
                    self.timer = Some(ctx.request_timer(self.duration));
                }
                None
            },
            Event::Button(ButtonEvent::ButtonReleased(which)) => {
                if self.pos.hit(&which) && self.state == PressState::Pressed {
                    self.state = PressState::Released;
                    self.timer = None;
                    ctx.request_paint();
                }
                None
            },
            Event::Timer(token) => {
                if self.timer == Some(token) {
                    self.timer = None;
                    if self.state == PressState::Pressed {
                        self.state = PressState::Released;
                        ctx.request_paint();
                        return Some(HoldToConfirmMsg::Confirmed);
                    }
                }
                None
            },
            _ => None,
        }
    }

    pub fn paint(&self, canvas: &mut Canvas)
        ensures
            final(canvas)@ == old(canvas)@ + self.spec_paint(),
    {
        let st = self.styles.normal;
        if self.state == PressState::Pressed {
            canvas.fill_rect(self.area, st.fg_color);
            canvas.text(self.baseline, self.text, st.font, st.bg_color, st.fg_color, Align::Left);
        } else {
            canvas.text(self.baseline, self.text, st.font, st.fg_color, st.bg_color, Align::Left);
        }
        assert(canvas@ =~= old(canvas)@ + self.spec_paint());
    }
}

/// Holding shorter than the duration (the release comes before the timer)
/// emits nothing and cancels the hold; the timer firing while held confirms
/// once, and neither the release after it nor the same timer again emits
/// anything.
pub proof fn lemma_hold_to_confirm(h: HoldToConfirm, w: PhysicalButton, token: u32, later: u32)
    requires
        h.pos.spec_hit(w),
    ensures
        ({
            let (held, m0) = h.spec_event(Event::Button(ButtonEvent::ButtonPressed(w)), token);
            let fire = Event::Timer(TimerToken { id: token });
            let (early, m1) = held.spec_event(Event::Button(ButtonEvent::ButtonReleased(w)), later);
            let (done, m2) = held.spec_event(fire, later);
            &&& m0 is None
            &&& m1 is None
            &&& early.state == PressState::Released && early.timer is None
            &&& early.spec_event(fire, later).1 is None
            &&& m2 == Some(HoldToConfirmMsg::Confirmed)
            &&& done.spec_event(Event::Button(ButtonEvent::ButtonReleased(w)), later).1 is None
            &&& done.spec_event(fire, later).1 is None
        }),
{
}

} // verus!
