use vstd::prelude::*;
use crate::display::{Align, Canvas, Color, Draw, Font};
use crate::event::{ctx_effect, ButtonEvent, Duration, Event, EventCtx, PhysicalButton, TimerToken};
use crate::geometry::{Offset, Point, Rect};
use crate::tr_theme;

verus! {

#[derive(Copy, Clone, Debug, PartialEq, Eq, Structural)]
pub enum ButtonMsg {
    Clicked,
    LongPressed,
}

/// The logical positions that widgets react to.
#[derive(Copy, Clone, Debug, PartialEq, Eq, Structural)]
pub enum ButtonPos {
    Left,
    Middle,
    Right,
}

/// The logical position that a physical button reaches: `Both` reaches the
/// middle.
pub open spec fn position_of(b: PhysicalButton) -> ButtonPos {
    match b {
        PhysicalButton::Left => ButtonPos::Left,
        PhysicalButton::Right => ButtonPos::Right,
        PhysicalButton::Both => ButtonPos::Middle,
    }
}

impl ButtonPos {
    pub open spec fn spec_hit(self, b: PhysicalButton) -> bool {
        position_of(b) == self
    }

    /// Whether a physical button reaches this position.
    pub fn hit(&self, b: &PhysicalButton) -> (r: bool)
        ensures
            r == self.spec_hit(*b),
    {
        match (self, b) {
            (ButtonPos::Left, PhysicalButton::Left) => true,
            (ButtonPos::Middle, PhysicalButton::Both) => true,
            (ButtonPos::Right, PhysicalButton::Right) => true,
            _ => false,
        }
    }
}

#[derive(Copy, Clone, Debug, PartialEq, Eq, Structural)]
pub enum PressState {
    Released,
    Pressed,
}

#[derive(Copy, Clone, Debug)]
pub enum ButtonContent {
    Text(&'static str),
    Icon(&'static [u8]),
}

impl ButtonContent {
    pub open spec fn is_text(self) -> bool {
        self is Text
    }
}

#[derive(Copy, Clone, Debug, PartialEq, Eq, Structural)]
pub struct ButtonStyle {
    pub font: Font,
    pub text_color: Color,
    pub border_horiz: bool,
}

#[derive(Copy, Clone, Debug, PartialEq, Eq, Structural)]
pub struct ButtonStyleSheet {
    pub normal: ButtonStyle,
    pub active: ButtonStyle,
}

/// Where a label of the given width lands at a position of `area`, and the
/// start of its baseline.
pub open spec fn spec_placement(area: Rect, pos: ButtonPos, width: int, border: int) -> (Rect, Point) {
    let a = match pos {
        ButtonPos::Left => area.spec_split_left(width).0,
        ButtonPos::Right => area.spec_split_right(width).1,
        ButtonPos::Middle => area.spec_split_center(width),
    };
    (a, Point { x: (a.x0 + border) as i32, y: (a.y1 - 2) as i32 })
}

/// Width of a label: its text, minus the trailing glyph gap, plus a border
/// on each side.
pub open spec fn label_width(font: Font, text: Seq<char>, border: int) -> int {
    font.spec_text_width(text.len() as int) - 1 + 2 * border
}

/// Lays out a text label at a position of `area`.
pub fn placement(area: Rect, pos: ButtonPos, text: &str, font: Font, border: i32) -> (r: (Rect, Point))
    requires
        area.wf(),
        0 <= border <= 2,
    ensures
        r == spec_placement(area, pos, label_width(font, text@, border as int), border as int),
        r.0.wf(),
{
    let content_width = font.text_width(text) - 1;
    let width = content_width + 2 * border;
    let a = match pos {
        ButtonPos::Left => area.split_left(width).0,
        ButtonPos::Right => area.split_right(width).1,
        ButtonPos::Middle => area.split_center(width),
    };
    let baseline = a.bottom_left().add(Offset::new(border, -2));
    (a, baseline)
}

/// A pressable label at one logical position, with an optional long press.
pub struct Button {
    pub area: Rect,
    pub pos: ButtonPos,
    pub baseline: Point,
    pub content: ButtonContent,
    pub styles: ButtonStyleSheet,
    pub state: PressState,
    pub long_press: Option<Duration>,
    pub long_timer: Option<TimerToken>,
}

impl Button {
    pub open spec fn border(styles: ButtonStyleSheet) -> int {
        if styles.normal.border_horiz {
            2
        } else {
            0
        }
    }

    /// Area and baseline that `place(bounds)` computes for a text button.
    pub open spec fn spec_layout(self, bounds: Rect) -> (Rect, Point) {
        let text = match self.content {
            ButtonContent::Text(t) => t@,
            ButtonContent::Icon(_) => Seq::empty(),
        };
        let b = Self::border(self.styles);
        spec_placement(bounds, self.pos, label_width(self.styles.normal.font, text, b), b)
    }

    /// The button after one event, and the message it emits.
    pub open spec fn spec_event(self, event: Event, token: u32) -> (Button, Option<ButtonMsg>) {
        match event {
            Event::Button(ButtonEvent::ButtonPressed(w)) => if self.pos.spec_hit(w) {
                (
                    Button {
                        state: PressState::Pressed,
                        long_timer: if self.long_press is Some {
                            Some(TimerToken { id: token })
                        } else {
                            self.long_timer
                        },
                        ..self
                    },
                    None,
                )
            } else {
                (self, None)
            },
            Event::Button(ButtonEvent::ButtonReleased(w)) => if self.pos.spec_hit(w)
                && self.state == PressState::Pressed {
                (Button { state: PressState::Released, ..self }, Some(ButtonMsg::Clicked))
            } else {
                (self, None)
            },
            Event::Timer(t) => if self.long_timer == Some(t) {
                if self.state == PressState::Pressed {
                    (
                        Button { state: PressState::Released, long_timer: None, ..self },
                        Some(ButtonMsg::LongPressed),
                    )
                } else {
                    (Button { long_timer: None, ..self }, None)
                }
            } else {
                (self, None)
            },
            _ => (self, None),
        }
    }

    /// Whether the event changes what the button shows.
    pub open spec fn spec_event_paints(self, event: Event) -> bool {
        self.spec_event(event, 0).0.state != self.state
    }

    /// The timer that the event asks for: the long press, on a press.
    pub open spec fn spec_event_timer(self, event: Event) -> Option<Duration> {
        match event {
            Event::Button(ButtonEvent::ButtonPressed(w)) => if self.pos.spec_hit(w) {
                self.long_press
            } else {
                None
            },
            _ => None,
        }
    }

    pub open spec fn spec_style(self) -> ButtonStyle {
        match self.state {
            PressState::Released => self.styles.normal,
            PressState::Pressed => self.styles.active,
        }
    }

    /// What painting draws: the background in the inverse of the text
    /// color, then the text.
    pub open spec fn spec_paint(self) -> Seq<Draw> {
        let st = self.spec_style();
        let back = Color { value: (0xFFFF - st.text_color.value) as u16 };
        match self.content {
            ButtonContent::Text(t) => seq![
                if st.border_horiz {
                    Draw::FillRounded { area: self.area, color: back, background: tr_theme::bg() }
                } else {
                    Draw::FillRect { area: self.area, color: back }
                },
                Draw::Text {
                    at: self.baseline,
                    text: t@,
                    font: st.font,
                    fg: st.text_color,
                    bg: back,
                    align: Align::Left,
                },
            ],
            ButtonContent::Icon(_) => Seq::empty(),
        }
    }

    pub fn new(pos: ButtonPos, content: ButtonContent, styles: ButtonStyleSheet) -> (b: Button)
        ensures
            b.pos == pos,
            b.content == content,
            b.styles == styles,
            b.baseline == Point::zero_spec(),
            b.area == Rect::zero_spec(),
            b.state == PressState::Released,
            b.long_press is None,
            b.long_timer is None,
    {
        Button {
            pos,
            content,
            styles,
            baseline: Point::zero(),
            area: Rect::zero(),
            state: PressState::Released,
            long_press: None,
            long_timer: None,
        }
    }

    pub fn with_text(pos: ButtonPos, text: &'static str, styles: ButtonStyleSheet) -> (b: Button)
        ensures
            b == Button::new_spec(pos, ButtonContent::Text(text), styles),
    {
        Self::new(pos, ButtonContent::Text(text), styles)
    }

    pub fn with_icon(pos: ButtonPos, image: &'static [u8], styles: ButtonStyleSheet) -> (b: Button)
        ensures
            b == Button::new_spec(pos, ButtonContent::Icon(image), styles),
    {
        Self::new(pos, ButtonContent::Icon(image), styles)
    }

    pub open spec fn new_spec(pos: ButtonPos, content: ButtonContent, styles: ButtonStyleSheet) -> Button {
        Button {
            pos,
            content,
            styles,
            baseline: Point::zero_spec(),
            area: Rect::zero_spec(),
            state: PressState::Released,
            long_press: None,
            long_timer: None,
        }
    }

    pub fn with_long_press(self, duration: Duration) -> (b: Button)
        ensures
            b == (Button { long_press: Some(duration), ..self }),
    {
        let mut b = self;
        b.long_press = Some(duration);
        b
    }

    pub fn content(&self) -> (c: &ButtonContent)
        ensures
            *c == self.content,
    {
        &self.content
    }

    pub fn is_longpress(&self) -> (r: bool)
        ensures
            r == self.long_press is Some,
    {
        self.long_press.is_some()
    }

    pub fn get_longpress(&self) -> (r: Option<Duration>)
        ensures
            r == self.long_press,
    {
        self.long_press
    }

    fn style(&self) -> (s: ButtonStyle)
        ensures
            s == self.spec_style(),
    {
        match self.state {
            PressState::Released => self.styles.normal,
            PressState::Pressed => self.styles.active,
        }
    }

    /// Replaces the text and lays the button out again in `button_area`.
    pub fn set_text(&mut self, text: &'static str, button_area: Rect)
        requires
            button_area.wf(),
        ensures
            final(self).content == ButtonContent::Text(text),
            (final(self).area, final(self).baseline) == (Button {
                content: ButtonContent::Text(text),
                ..*old(self)
            }).spec_layout(button_area),
            final(self).pos == old(self).pos,
            final(self).styles == old(self).styles,
            final(self).state == old(self).state,
            final(self).long_press == old(self).long_press,
            final(self).long_timer == old(self).long_timer,
    {
        self.content = ButtonContent::Text(text);
        self.place(button_area);
    }

    /// `Some` turns the long press on with that duration, `None` turns it off.
    pub fn set_long_press(&mut self, duration: Option<Duration>)
        ensures
            *final(self) == (Button { long_press: duration, ..*old(self) }),
    {
        self.long_press = duration;
    }

    fn set(&mut self, ctx: &mut EventCtx, state: PressState)
        ensures
            *final(self) == (Button { state, ..*old(self) }),
            ctx_effect(old(ctx), final(ctx), old(self).state != state, None),
    {
        if self.state != state {
            self.state = state;
            ctx.request_paint();
        }
    }

    pub fn set_pressed(&mut self, is_pressed: bool)
        ensures
            *final(self) == (Button {
                state: if is_pressed {
                    PressState::Pressed
                } else {
                    PressState::Released
                },
                ..*old(self)
            }),
    {
        if is_pressed {
            self.state = PressState::Pressed;
        } else {
            self.state = PressState::Released;
        }
    }

    pub fn paint_pressed(&mut self, is_pressed: bool, canvas: &mut Canvas)
        requires
            old(self).content.is_text(),
        ensures
            *final(self) == (Button {
                state: if is_pressed {
                    PressState::Pressed
                } else {
                    PressState::Released
                },
                ..*old(self)
            }),
            final(canvas)@ == old(canvas)@ + final(self).spec_paint(),
    {
        self.set_pressed(is_pressed);
        self.paint(canvas);
    }

    /// Lays the button out in `bounds`; returns its own area.
    pub fn place(&mut self, bounds: Rect) -> (r: Rect)
        requires
            bounds.wf(),
        ensures
            (final(self).area, final(self).baseline) == old(self).spec_layout(bounds),
            r == final(self).area,
            r.wf(),
            *final(self) == (Button { area: final(self).area, baseline: final(self).baseline, ..*old(self) }),
    {
        let border: i32 = if self.styles.normal.border_horiz {
            2
        } else {
            0
        };
        let text: &str = match self.content {
            ButtonContent::Text(t) => t,
            ButtonContent::Icon(_) => "",
        };
        proof {
            reveal_strlit("");
        }
        let (area, baseline) = placement(bounds, self.pos, text, self.styles.normal.font, border);
        self.area = area;
        self.baseline = baseline;
        self.area
    }

    /// Handles one event; see `spec_event`.
    pub fn event(&mut self, ctx: &mut EventCtx, event: Event) -> (msg: Option<ButtonMsg>)
        ensures
            (*final(self), msg) == old(self).spec_event(event, old(ctx).next_token),
            ctx_effect(
                old(ctx),
                final(ctx),
                old(self).spec_event_paints(event),
                old(self).spec_event_timer(event),
            ),
    {
        match event {
            Event::Button(ButtonEvent::ButtonPressed(which)) => {
                if self.pos.hit(&which) {
                    self.set(ctx, PressState::Pressed);
                    if let Some(duration) = self.long_press {
                        self.long_timer = Some(ctx.request_timer(duration));
                    }
                }
                None
            },
            Event::Button(ButtonEvent::ButtonReleased(which)) => {
                if self.pos.hit(&which) && self.state == PressState::Pressed {
                    self.set(ctx, PressState::Released);
                    Some(ButtonMsg::Clicked)
                } else {
                    None
                }
            },
            Event::Timer(token) => {
                if self.long_timer == Some(token) {
                    self.long_timer = None;
                    if self.state == PressState::Pressed {
                        self.set(ctx, PressState::Released);
                        return Some(ButtonMsg::LongPressed);
                    }
                }
                None
            },
            _ => None,
        }
    }

    /// Draws the button from its layout and state alone.
    pub fn paint(&self, canvas: &mut Canvas)
        requires
            self.content.is_text(),
        ensures
            final(canvas)@ == old(canvas)@ + self.spec_paint(),
    {
        let style = self.style();
        match self.content {
            ButtonContent::Text(text) => {
                let background = style.text_color.negate();
                if style.border_horiz {
                    canvas.fill_rounded(self.area, background, Color { value: tr_theme::BG });
                } else {
                    canvas.fill_rect(self.area, background);
                }
                canvas.text(self.baseline, text, style.font, style.text_color, background, Align::Left);
                assert(canvas@ =~= old(canvas)@ + self.spec_paint());
            },
            ButtonContent::Icon(_) => {},
        }
    }

    /// Reports the area the button owns.
    pub fn bounds(&self, sink: &mut Vec<Rect>)
        ensures
            final(sink)@ == old(sink)@.push(self.area),
    {
        sink.push(self.area);
    }
}

/// With a long press configured, the timer firing while held emits
/// `LongPressed` once, and the release of that same press emits no click.
pub proof fn lemma_long_press_suppresses_click(b: Button, w: PhysicalButton, d: Duration, token: u32, later: u32)
    requires
        b.pos.spec_hit(w),
        b.long_press == Some(d),
    ensures
        ({
            let (held, m0) = b.spec_event(Event::Button(ButtonEvent::ButtonPressed(w)), token);
            let fire = Event::Timer(TimerToken { id: token });
            let (done, m1) = held.spec_event(fire, later);
            &&& m0 is None
            &&& m1 == Some(ButtonMsg::LongPressed)
            &&& done.spec_event(Event::Button(ButtonEvent::ButtonReleased(w)), later).1 is None
            &&& done.spec_event(fire, later).1 is None
        }),
{
}

} // verus!
