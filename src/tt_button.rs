use vstd::prelude::*;
use crate::component::Component;
use crate::display::{Align, Canvas, Color, Draw, Font, IconId};
use crate::event::{Event, EventCtx, TouchEvent};
use crate::geometry::{coord_ok, Point, Rect, COORD_LIMIT};

verus! {

#[derive(Copy, Clone, Debug, PartialEq, Eq, Structural)]
pub enum ButtonMsg {
    Pressed,
    Released,
    Clicked,
}

/// An icon with a text beside it; both offsets are from the left edge.
#[derive(Copy, Clone, Debug)]
pub struct IconText {
    pub text: &'static str,
    pub icon: IconId,
    pub text_offset: i32,
    pub icon_offset: i32,
}

impl IconText {
    pub fn new(text: &'static str, icon: IconId, text_offset: i32, icon_offset: i32) -> (r: IconText)
        requires
            0 <= text_offset <= COORD_LIMIT,
            0 <= icon_offset <= COORD_LIMIT,
        ensures
            r.text == text && r.icon == icon && r.text_offset == text_offset && r.icon_offset
                == icon_offset,
    {
        IconText { text, icon, text_offset, icon_offset }
    }
}

#[derive(Copy, Clone, Debug)]
pub enum ButtonContent {
    Empty,
    Text(&'static str),
    Icon(IconId),
    IconAndText(IconText),
}

#[derive(Copy, Clone, Debug, PartialEq, Eq, Structural)]
pub struct ButtonStyle {
    pub font: Font,
    pub text_color: Color,
    pub button_color: Color,
    pub background_color: Color,
    pub border_color: Color,
    pub border_radius: u8,
    pub border_width: i32,
}

#[derive(Copy, Clone, Debug, PartialEq, Eq, Structural)]
pub struct ButtonStyleSheet {
    pub normal: ButtonStyle,
    pub active: ButtonStyle,
    pub disabled: ButtonStyle,
}

#[derive(Copy, Clone, Debug, PartialEq, Eq, Structural)]
pub enum TouchState {
    Initial,
    Pressed,
    Released,
    Disabled,
}

/// A touch button: pressed by a touch inside it, clicked when the touch
/// ends inside it.
pub struct Button {
    pub area: Rect,
    pub content: ButtonContent,
    pub styles: ButtonStyleSheet,
    pub state: TouchState,
}

pub open spec fn default_sheet() -> ButtonStyleSheet {
    let st = ButtonStyle {
        font: Font::Bold,
        text_color: Color { value: 0xFFFF },
        button_color: Color { value: 0 },
        background_color: Color { value: 0 },
        border_color: Color { value: 0 },
        border_radius: 0,
        border_width: 0,
    };
    ButtonStyleSheet { normal: st, active: st, disabled: st }
}

impl Button {
    pub open spec fn wf(self) -> bool {
        &&& self.area.wf()
        &&& match self.content {
            ButtonContent::IconAndText(it) => 0 <= it.text_offset <= COORD_LIMIT && 0 <= it.icon_offset
                <= COORD_LIMIT,
            _ => true,
        }
    }

    pub open spec fn spec_new(content: ButtonContent) -> Button {
        Button { area: Rect::zero_spec(), content, styles: default_sheet(), state: TouchState::Initial }
    }

    pub fn new(content: ButtonContent) -> (b: Button)
        requires
            content matches ButtonContent::IconAndText(it) ==> 0 <= it.text_offset <= COORD_LIMIT && 0
                <= it.icon_offset <= COORD_LIMIT,
        ensures
            b == Button::spec_new(content),
            b.wf(),
    {
        let st = ButtonStyle {
            font: Font::Bold,
            text_color: Color { value: 0xFFFF },
            button_color: Color { value: 0 },
            background_color: Color { value: 0 },
            border_color: Color { value: 0 },
            border_radius: 0,
            border_width: 0,
        };
        Button {
            area: Rect::zero(),
            content,
            styles: ButtonStyleSheet { normal: st, active: st, disabled: st },
            state: TouchState::Initial,
        }
    }

    pub fn with_text(text: &'static str) -> (b: Button)
        ensures
            b == Button::spec_new(ButtonContent::Text(text)),
            b.wf(),
    {
        Self::new(ButtonContent::Text(text))
    }

    pub fn with_icon(icon: IconId) -> (b: Button)
        ensures
            b == Button::spec_new(ButtonContent::Icon(icon)),
            b.wf(),
    {
        Self::new(ButtonContent::Icon(icon))
    }

    pub fn with_icon_and_text(content: IconText) -> (b: Button)
        requires
            0 <= content.text_offset <= COORD_LIMIT,
            0 <= content.icon_offset <= COORD_LIMIT,
        ensures
            b == Button::spec_new(ButtonContent::IconAndText(content)),
            b.wf(),
    {
        Self::new(ButtonContent::IconAndText(content))
    }

    pub fn styled(self, styles: ButtonStyleSheet) -> (b: Button)
        ensures
            b == (Button { styles, ..self }),
    {
        Button { styles, ..self }
    }

    pub open spec fn spec_style(self) -> ButtonStyle {
        match self.state {
            TouchState::Initial | TouchState::Released => self.styles.normal,
            TouchState::Pressed => self.styles.active,
            TouchState::Disabled => self.styles.disabled,
        }
    }

    /// The state after a touch event, and the message emitted.
    pub open spec fn spec_touch(self, event: Event) -> (TouchState, Option<ButtonMsg>) {
        match event {
            Event::Touch(TouchEvent::TouchStart(p)) => if self.state != TouchState::Disabled
                && self.area.spec_contains(p) {
                (TouchState::Pressed, Some(ButtonMsg::Pressed))
            } else {
                (self.state, None)
            },
            Event::Touch(TouchEvent::TouchMove(p)) => if self.state == TouchState::Released
                && self.area.spec_contains(p) {
                (TouchState::Pressed, Some(ButtonMsg::Pressed))
            } else if self.state == TouchState::Pressed && !self.area.spec_contains(p) {
                (TouchState::Released, Some(ButtonMsg::Released))
            } else {
                (self.state, None)
            },
            Event::Touch(TouchEvent::TouchEnd(p)) => if self.state == TouchState::Initial
                || self.state == TouchState::Disabled {
                (self.state, None)
            } else if self.state == TouchState::Pressed && self.area.spec_contains(p) {
                (TouchState::Initial, Some(ButtonMsg::Clicked))
            } else {
                (TouchState::Initial, None)
            },
            _ => (self.state, None),
        }
    }

    pub open spec fn spec_content_paint(self) -> Seq<Draw> {
        let st = self.spec_style();
        let c = Point {
            x: (self.area.x0 + self.area.spec_width() / 2) as i32,
            y: (self.area.y0 + self.area.spec_height() / 2) as i32,
        };
        match self.content {
            ButtonContent::Empty => Seq::empty(),
            ButtonContent::Text(t) => seq![
                Draw::Text { at: c, text: t@, font: st.font, fg: st.text_color, bg: st.button_color, align: Align::Center },
            ],
            ButtonContent::Icon(i) => seq![Draw::Icon { center: c, icon: i, fg: st.text_color, bg: st.button_color }],
            ButtonContent::IconAndText(it) => seq![
                Draw::Icon {
                    center: Point { x: (self.area.x0 + it.icon_offset) as i32, y: c.y },
                    icon: it.icon,
                    fg: st.text_color,
                    bg: st.button_color,
                },
                Draw::Text {
                    at: Point { x: (self.area.x0 + it.text_offset) as i32, y: c.y },
                    text: it.text@,
                    font: st.font,
                    fg: st.text_color,
                    bg: st.button_color,
                    align: Align::Left,
                },
            ],
        }
    }

    pub open spec fn spec_button_paint(self) -> Seq<Draw> {
        let st = self.spec_style();
        seq![Draw::FillRounded { area: self.area, color: st.button_color, background: st.background_color }]
            + self.spec_content_paint()
    }

    fn set(&mut self, ctx: &mut EventCtx, state: TouchState)
        ensures
            *final(self) == (Button { state, ..*old(self) }),
            final(ctx).paint_requested == (old(ctx).paint_requested || old(self).state != state),
            final(ctx).timers@ == old(ctx).timers@,
            final(ctx).next_token == old(ctx).next_token,
    {
        if self.state != state {
            self.state = state;
            ctx.request_paint();
        }
    }

    fn paint_content(&self, canvas: &mut Canvas)
        requires
            self.wf(),
        ensures
            final(canvas)@ == old(canvas)@ + self.spec_content_paint(),
    {
        let st = match self.state {
            TouchState::Initial | TouchState::Released => self.styles.normal,
            TouchState::Pressed => self.styles.active,
            TouchState::Disabled => self.styles.disabled,
        };
        let c = self.area.center();
        match self.content {
            ButtonContent::Empty => {},
            ButtonContent::Text(t) => canvas.text(c, t, st.font, st.text_color, st.button_color, Align::Center),
            ButtonContent::Icon(i) => canvas.icon(c, i, st.text_color, st.button_color),
            ButtonContent::IconAndText(it) => {
                canvas.icon(Point::new(self.area.x0 + it.icon_offset, c.y), it.icon, st.text_color, st.button_color);
                canvas.text(
                    Point::new(self.area.x0 + it.text_offset, c.y),
                    it.text,
                    st.font,
                    st.text_color,
                    st.button_color,
                    Align::Left,
                );
            },
        }
        assert(canvas@ =~= old(canvas)@ + self.spec_content_paint());
    }
}

impl Component for Button {
    type Msg = ButtonMsg;

    open spec fn inv(&self) -> bool {
        self.wf()
    }

    open spec fn spec_paint(&self) -> Seq<Draw> {
        self.spec_button_paint()
    }

    /// Takes the whole of `bounds`.
    fn place(&mut self, bounds: Rect) -> (r: Rect) {
        self.area = bounds;
        bounds
    }

    fn event(&mut self, ctx: &mut EventCtx, event: Event) -> (msg: Option<ButtonMsg>) {
        self.touch(ctx, event)
    }

    fn paint(&self, canvas: &mut Canvas) {
        let st = match self.state {
            TouchState::Initial | TouchState::Released => self.styles.normal,
            TouchState::Pressed => self.styles.active,
            TouchState::Disabled => self.styles.disabled,
        };
        canvas.fill_rounded(self.area, st.button_color, st.background_color);
        self.paint_content(canvas);
        assert(canvas@ =~= old(canvas)@ + self.spec_button_paint());
    }

    fn bounds(&self, sink: &mut Vec<Rect>) {
        sink.push(self.area);
        assert(sink@.subrange(0, old(sink)@.len() as int) =~= old(sink)@);
    }
}

impl Button {
    /// Touch handling with its exact effect (see `spec_touch`); it is what
    /// `event` does.
    pub fn touch(&mut self, ctx: &mut EventCtx, event: Event) -> (msg: Option<ButtonMsg>)
        requires
            old(self).wf(),
        ensures
            final(self).wf(),
            (final(self).state, msg) == old(self).spec_touch(event),
            *final(self) == (Button { state: final(self).state, ..*old(self) }),
            final(ctx).timers@ == old(ctx).timers@,
    {
        match event {
            Event::Touch(TouchEvent::TouchStart(pos)) => {
                if self.state != TouchState::Disabled && self.area.contains(pos) {
                    self.set(ctx, TouchState::Pressed);
                    return Some(ButtonMsg::Pressed);
                }
                None
            },
            Event::Touch(TouchEvent::TouchMove(pos)) => {
                let inside = self.area.contains(pos);
                if self.state == TouchState::Released && inside {
                    self.set(ctx, TouchState::Pressed);
                    Some(ButtonMsg::Pressed)
                } else if self.state == TouchState::Pressed && !inside {
                    self.set(ctx, TouchState::Released);
                    Some(ButtonMsg::Released)
                } else {
                    None
                }
            },
            Event::Touch(TouchEvent::TouchEnd(pos)) => {
                if self.state == TouchState::Initial || self.state == TouchState::Disabled {
                    None
                } else if self.state == TouchState::Pressed && self.area.contains(pos) {
                    self.set(ctx, TouchState::Initial);
                    Some(ButtonMsg::Clicked)
                } else {
                    self.set(ctx, TouchState::Initial);
                    None
                }
            },
            _ => None,
        }
    }
}

} // verus!
