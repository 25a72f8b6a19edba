use vstd::prelude::*;
use crate::button::{Button, ButtonContent, ButtonPos, ButtonStyleSheet, PressState};
use crate::common::ButtonDetails;
use crate::display::{Canvas, Color, Draw};
use crate::event::{ButtonEvent, Duration, Event, EventCtx, PhysicalButton, TimerToken};
use crate::geometry::Rect;
use crate::hold_to_confirm::{HoldToConfirm, HoldToConfirmMsg, LoaderStyle, LoaderStyleSheet};
use crate::pad::Pad;
use crate::tr_theme;

verus! {

/// Where the two physical buttons stand in a gesture.
#[derive(Copy, Clone, Debug, PartialEq, Eq, Structural)]
pub enum ButtonState {
    Nothing,
    OneDown(PhysicalButton),
    BothDown,
    OneReleased(PhysicalButton),
}

#[derive(Copy, Clone, Debug, PartialEq, Eq, Structural)]
pub enum ButtonControllerMsg {
    Triggered(ButtonPos),
}

/// What a position does: nothing, click, or hold to confirm.
#[derive(Copy, Clone, Debug, PartialEq, Eq, Structural)]
pub enum ButtonType {
    Nothing,
    NormalButton,
    HoldToConfirm,
}

/// Hold time that a hold-to-confirm position gets until it is configured.
pub const DEFAULT_HOLD_MILLIS: u32 = 1000;

/// One gesture step: the next state and the position triggered, given
/// which of left, middle and right react to a single click.
pub open spec fn transition(
    state: ButtonState,
    ev: ButtonEvent,
    left: bool,
    middle: bool,
    right: bool,
) -> (ButtonState, Option<ButtonControllerMsg>) {
    match state {
        ButtonState::Nothing => match ev {
            ButtonEvent::ButtonPressed(w) => (ButtonState::OneDown(w), None),
            _ => (state, None),
        },
        ButtonState::OneDown(down) => match ev {
            ButtonEvent::ButtonReleased(b) => if b == down {
                match down {
                    PhysicalButton::Left => (
                        ButtonState::Nothing,
                        if left {
                            Some(ButtonControllerMsg::Triggered(ButtonPos::Left))
                        } else {
                            None
                        },
                    ),
                    PhysicalButton::Right => (
                        ButtonState::Nothing,
                        if right {
                            Some(ButtonControllerMsg::Triggered(ButtonPos::Right))
                        } else {
                            None
                        },
                    ),
                    PhysicalButton::Both => (ButtonState::Nothing, None),
                }
            } else {
                (state, None)
            },
            ButtonEvent::ButtonPressed(b) => if b != down {
                (ButtonState::BothDown, None)
            } else {
                (state, None)
            },
        },
        ButtonState::BothDown => match ev {
            ButtonEvent::ButtonReleased(b) => (ButtonState::OneReleased(b), None),
            _ => (state, None),
        },
        ButtonState::OneReleased(up) => match ev {
            ButtonEvent::ButtonPressed(b) => if b == up {
                (ButtonState::BothDown, None)
            } else {
                (state, None)
            },
            ButtonEvent::ButtonReleased(b) => if b != up {
                (
                    ButtonState::Nothing,
                    if middle {
                        Some(ButtonControllerMsg::Triggered(ButtonPos::Middle))
                    } else {
                        None
                    },
                )
            } else {
                (state, None)
            },
        },
    }
}

/// Which of left, middle and right show as pressed in a state; `None`
/// keeps what they showed.
pub open spec fn pressed_in(state: ButtonState) -> Option<(bool, bool, bool)> {
    match state {
        ButtonState::Nothing => Some((false, false, false)),
        ButtonState::OneDown(PhysicalButton::Left) => Some((true, false, false)),
        ButtonState::OneDown(PhysicalButton::Right) => Some((false, false, true)),
        ButtonState::OneDown(PhysicalButton::Both) => None,
        _ => Some((false, true, false)),
    }
}

/// A button and its hold-to-confirm twin at one position; `button_type`
/// says which of them is active, if any.
pub struct ButtonContainer {
    pub button: Button,
    pub hold_to_confirm: HoldToConfirm,
    pub button_type: ButtonType,
}

pub open spec fn default_loader_style() -> LoaderStyleSheet {
    LoaderStyleSheet {
        normal: LoaderStyle { font: tr_theme::FONT_BOLD, fg_color: tr_theme::fg(), bg_color: tr_theme::bg() },
    }
}

impl ButtonContainer {
    pub open spec fn wf(self) -> bool {
        &&& self.button.content.is_text()
        &&& self.button.pos == self.hold_to_confirm.pos
    }

    pub open spec fn spec_reacts(self) -> bool {
        self.button_type == ButtonType::NormalButton
    }

    pub open spec fn spec_paint(self) -> Seq<Draw> {
        match self.button_type {
            ButtonType::NormalButton => self.button.spec_paint(),
            ButtonType::HoldToConfirm => self.hold_to_confirm.spec_paint(),
            ButtonType::Nothing => Seq::empty(),
        }
    }

    pub fn new(pos: ButtonPos, text: &'static str, styles: ButtonStyleSheet, button_type: ButtonType) -> (c:
        ButtonContainer)
        ensures
            c.wf(),
            c.button == Button::new_spec(pos, ButtonContent::Text(text), styles),
            c.hold_to_confirm == HoldToConfirm::new_spec(
                pos,
                text,
                default_loader_style(),
                Duration { millis: DEFAULT_HOLD_MILLIS },
            ),
            c.button_type == button_type,
    {
        ButtonContainer {
            button: Button::with_text(pos, text, styles),
            hold_to_confirm: HoldToConfirm::new(
                pos,
                text,
                LoaderStyleSheet {
                    normal: LoaderStyle {
                        font: tr_theme::FONT_BOLD,
                        fg_color: Color { value: tr_theme::FG },
                        bg_color: Color { value: tr_theme::BG },
                    },
                },
                Duration::from_millis(DEFAULT_HOLD_MILLIS),
            ),
            button_type,
        }
    }

    pub fn reacts_to_single_click(&self) -> (r: bool)
        ensures
            r == self.spec_reacts(),
    {
        self.button_type == ButtonType::NormalButton
    }

    /// What `set` makes of a position: inactive for `None`, otherwise the
    /// given text, laid out again in `area`, as a plain button or (with a
    /// duration) as hold-to-confirm for that long.
    pub open spec fn set_outcome(
        c0: ButtonContainer,
        c1: ButtonContainer,
        btn_details: Option<ButtonDetails>,
        area: Rect,
    ) -> bool {
        match btn_details {
            None => c1.button_type == ButtonType::Nothing && c1.button == c0.button
                && c1.hold_to_confirm == c0.hold_to_confirm,
            Some(d) => match d.duration {
                Some(dur) => c1.button_type == ButtonType::HoldToConfirm && c1.hold_to_confirm.text == d.text
                    && c1.hold_to_confirm.duration == dur && (c1.hold_to_confirm.area, c1.hold_to_confirm.baseline)
                    == (HoldToConfirm { text: d.text, ..c0.hold_to_confirm }).spec_layout(area)
                    && c1.hold_to_confirm.state == c0.hold_to_confirm.state
                    && c1.hold_to_confirm.timer == c0.hold_to_confirm.timer && c1.button == c0.button,
                None => c1.button_type == ButtonType::NormalButton && c1.button.content == ButtonContent::Text(
                    d.text,
                ) && (c1.button.area, c1.button.baseline) == (Button {
                    content: ButtonContent::Text(d.text),
                    ..c0.button
                }).spec_layout(area) && c1.button.state == c0.button.state && c1.button.styles == c0.button.styles
                    && c1.hold_to_confirm == c0.hold_to_confirm,
            },
        }
    }

    /// Whether the position shows the given configuration: its kind, and
    /// the text (and hold duration) of the active widget.
    pub open spec fn shows(c: ButtonContainer, d: Option<ButtonDetails>) -> bool {
        match d {
            None => c.button_type == ButtonType::Nothing,
            Some(x) => match x.duration {
                Some(dur) => c.button_type == ButtonType::HoldToConfirm && c.hold_to_confirm.text@ == x.text@
                    && c.hold_to_confirm.duration == dur,
                None => c.button_type == ButtonType::NormalButton && (c.button.content matches ButtonContent::Text(
                    t,
                ) && t@ == x.text@),
            },
        }
    }

    /// Reconfigures the position: `None` makes it inactive, details with a
    /// duration make it hold-to-confirm, others a plain button.
    pub fn set(&mut self, ctx: &mut EventCtx, btn_details: Option<ButtonDetails>, button_area: Rect)
        requires
            old(self).wf(),
            button_area.wf(),
        ensures
            final(self).wf(),
            final(self).button.pos == old(self).button.pos,
            Self::set_outcome(*old(self), *final(self), btn_details, button_area),
            final(ctx).paint_requested == (old(ctx).paint_requested || btn_details is Some),
            final(ctx).timers@ == old(ctx).timers@,
            final(ctx).next_token == old(ctx).next_token,
    {
        if let Some(btn_details) = btn_details {
            if let Some(duration) = btn_details.duration {
                self.hold_to_confirm.set_text(btn_details.text, button_area);
                self.hold_to_confirm.set_duration(duration);
                ctx.request_paint();
                self.button_type = ButtonType::HoldToConfirm;
            } else {
                self.button.set_text(btn_details.text, button_area);
                ctx.request_paint();
                self.button_type = ButtonType::NormalButton;
            }
        } else {
            self.button_type = ButtonType::Nothing;
        }
    }

    fn place(&mut self, bounds: Rect)
        requires
            old(self).wf(),
            bounds.wf(),
        ensures
            final(self).wf(),
            final(self).button_type == old(self).button_type,
            final(self).button.state == old(self).button.state,
            final(self).button.pos == old(self).button.pos,
            final(self).button.content == old(self).button.content,
            final(self).hold_to_confirm.text == old(self).hold_to_confirm.text,
            final(self).hold_to_confirm.duration == old(self).hold_to_confirm.duration,
    {
        self.button.place(bounds);
        self.hold_to_confirm.place(bounds);
    }

    fn paint(&self, canvas: &mut Canvas)
        requires
            self.wf(),
        ensures
            final(canvas)@ == old(canvas)@ + self.spec_paint(),
    {
        match self.button_type {
            ButtonType::NormalButton => self.button.paint(canvas),
            ButtonType::HoldToConfirm => self.hold_to_confirm.paint(canvas),
            ButtonType::Nothing => {
                assert(canvas@ =~= old(canvas)@ + self.spec_paint());
            },
        }
    }

    /// Shows the plain button as pressed or not; asks for a repaint when
    /// that changes what it shows.
    fn show_pressed(&mut self, ctx: &mut EventCtx, is_pressed: bool)
        ensures
            final(self).button == (Button {
                state: if is_pressed {
                    PressState::Pressed
                } else {
                    PressState::Released
                },
                ..old(self).button
            }),
            final(self).hold_to_confirm == old(self).hold_to_confirm,
            final(self).button_type == old(self).button_type,
            final(ctx).paint_requested ==> old(ctx).paint_requested || final(self).button.state
                != old(self).button.state,
            old(ctx).paint_requested ==> final(ctx).paint_requested,
            final(ctx).timers@ == old(ctx).timers@,
            final(ctx).next_token == old(ctx).next_token,
    {
        let was = self.button.state;
        self.button.set_pressed(is_pressed);
        if self.button.state != was {
            ctx.request_paint();
        }
    }
}

impl HoldToConfirm {
    pub open spec fn new_spec(
        pos: ButtonPos,
        text: &'static str,
        styles: LoaderStyleSheet,
        duration: Duration,
    ) -> HoldToConfirm {
        HoldToConfirm {
            pos,
            text,
            area: Rect::zero_spec(),
            baseline: crate::geometry::Point::zero_spec(),
            styles,
            duration,
            state: PressState::Released,
            timer: None,
        }
    }
}

/// Owns the left, middle and right positions and turns interleaved
/// presses and releases of the two physical buttons into one trigger per
/// gesture; pressing and releasing both triggers the middle.
pub struct ButtonController {
    pub pad: Pad,
    pub left_btn: ButtonContainer,
    pub middle_btn: ButtonContainer,
    pub right_btn: ButtonContainer,
    pub state: ButtonState,
    pub button_area: Rect,
}

pub open spec fn button_type_of(details: Option<ButtonDetails>) -> ButtonType {
    match details {
        None => ButtonType::Nothing,
        Some(d) => if d.duration is Some {
            ButtonType::HoldToConfirm
        } else {
            ButtonType::NormalButton
        },
    }
}

impl ButtonController {
    pub open spec fn wf(self) -> bool {
        &&& self.left_btn.wf() && self.middle_btn.wf() && self.right_btn.wf()
        &&& self.left_btn.button.pos == ButtonPos::Left
        &&& self.middle_btn.button.pos == ButtonPos::Middle
        &&& self.right_btn.button.pos == ButtonPos::Right
        &&& self.button_area.wf()
    }

    /// Whether a hold-to-confirm position completes its hold on this event.
    pub open spec fn holds_confirm(c: ButtonContainer, event: Event) -> bool {
        c.button_type == ButtonType::HoldToConfirm && c.hold_to_confirm.spec_confirms(event)
    }

    /// The timer that a position asks for on an event: a press at a
    /// hold-to-confirm position asks for its hold duration.
    pub open spec fn hold_timer(c: ButtonContainer, event: Event, token: u32) -> Seq<(TimerToken, Duration)> {
        if c.button_type == ButtonType::HoldToConfirm && c.hold_to_confirm.spec_event_timer(event) is Some {
            seq![(TimerToken { id: token }, c.hold_to_confirm.duration)]
        } else {
            Seq::empty()
        }
    }

    /// The timers one event asks for; at most one position is pressed.
    pub open spec fn spec_timers(self, event: Event, token: u32) -> Seq<(TimerToken, Duration)> {
        Self::hold_timer(self.left_btn, event, token) + Self::hold_timer(self.right_btn, event, token)
            + Self::hold_timer(self.middle_btn, event, token)
    }

    /// The hold-to-confirm widget of a position after an event, when the
    /// position is hold-to-confirm and `token` is the next timer token.
    pub open spec fn hold_after(c: ButtonContainer, event: Event, token: u32) -> HoldToConfirm {
        if c.button_type == ButtonType::HoldToConfirm {
            c.hold_to_confirm.spec_event(event, token).0
        } else {
            c.hold_to_confirm
        }
    }

    /// The state and message after one event: a completed hold wins (left,
    /// then right, then middle) and resets the gesture; otherwise a button
    /// event goes through `transition`.
    pub open spec fn spec_event(self, event: Event) -> (ButtonState, Option<ButtonControllerMsg>) {
        if Self::holds_confirm(self.left_btn, event) {
            (ButtonState::Nothing, Some(ButtonControllerMsg::Triggered(ButtonPos::Left)))
        } else if Self::holds_confirm(self.right_btn, event) {
            (ButtonState::Nothing, Some(ButtonControllerMsg::Triggered(ButtonPos::Right)))
        } else if Self::holds_confirm(self.middle_btn, event) {
            (ButtonState::Nothing, Some(ButtonControllerMsg::Triggered(ButtonPos::Middle)))
        } else {
            match event {
                Event::Button(b) => transition(
                    self.state,
                    b,
                    self.left_btn.spec_reacts(),
                    self.middle_btn.spec_reacts(),
                    self.right_btn.spec_reacts(),
                ),
                _ => (self.state, None),
            }
        }
    }

    pub open spec fn spec_paint(self) -> Seq<Draw> {
        self.pad.spec_paint() + self.left_btn.spec_paint() + self.middle_btn.spec_paint()
            + self.right_btn.spec_paint()
    }

    /// `None` makes a position inactive; its stand-in text is never shown.
    pub fn new(left: Option<ButtonDetails>, mid: Option<ButtonDetails>, right: Option<ButtonDetails>) -> (c:
        ButtonController)
        ensures
            c.wf(),
            c.state == ButtonState::Nothing,
            c.left_btn.button_type == button_type_of(left),
            c.middle_btn.button_type == button_type_of(mid),
            c.right_btn.button_type == button_type_of(right),
            left is Some ==> c.left_btn.button.content == ButtonContent::Text(left->0.text)
                && c.left_btn.hold_to_confirm.text == left->0.text,
            mid is Some ==> c.middle_btn.button.content == ButtonContent::Text(mid->0.text)
                && c.middle_btn.hold_to_confirm.text == mid->0.text,
            right is Some ==> c.right_btn.button.content == ButtonContent::Text(right->0.text)
                && c.right_btn.hold_to_confirm.text == right->0.text,
            left is Some && left->0.duration is Some ==> c.left_btn.hold_to_confirm.duration
                == left->0.duration->0,
            mid is Some && mid->0.duration is Some ==> c.middle_btn.hold_to_confirm.duration
                == mid->0.duration->0,
            right is Some && right->0.duration is Some ==> c.right_btn.hold_to_confirm.duration
                == right->0.duration->0,
            c.button_area == Rect::zero_spec(),
            c.pad.clear,
    {
        let mut instance = ButtonController {
            pad: Pad::with_background(Color { value: tr_theme::BG }),
            left_btn: ButtonContainer::new(
                ButtonPos::Left,
                Self::text_or(left, "LEFT"),
                tr_theme::button_default(),
                Self::get_button_type(left),
            ),
            middle_btn: ButtonContainer::new(
                ButtonPos::Middle,
                Self::text_or(mid, "MID"),
                tr_theme::button_default(),
                Self::get_button_type(mid),
            ),
            right_btn: ButtonContainer::new(
                ButtonPos::Right,
                Self::text_or(right, "RIGHT"),
                tr_theme::button_default(),
                Self::get_button_type(right),
            ),
            state: ButtonState::Nothing,
            button_area: Rect::zero(),
        };
        if let Some(d) = left {
            if let Some(dur) = d.duration {
                instance.left_btn.hold_to_confirm.set_duration(dur);
            }
        }
        if let Some(d) = mid {
            if let Some(dur) = d.duration {
                instance.middle_btn.hold_to_confirm.set_duration(dur);
            }
        }
        if let Some(d) = right {
            if let Some(dur) = d.duration {
                instance.right_btn.hold_to_confirm.set_duration(dur);
            }
        }
        instance.pad.clear();
        instance
    }

    fn text_or(details: Option<ButtonDetails>, fallback: &'static str) -> (t: &'static str)
        ensures
            details is Some ==> t == details->0.text,
            details is None ==> t == fallback,
    {
        match details {
            Some(d) => d.text,
            None => fallback,
        }
    }

    pub fn get_button_type(details: Option<ButtonDetails>) -> (t: ButtonType)
        ensures
            t == button_type_of(details),
    {
        match details {
            None => ButtonType::Nothing,
            Some(d) => if d.duration.is_some() {
                ButtonType::HoldToConfirm
            } else {
                ButtonType::NormalButton
            },
        }
    }

    pub fn set_left(&mut self, ctx: &mut EventCtx, btn_details: Option<ButtonDetails>)
        requires
            old(self).wf(),
        ensures
            final(self).wf(),
            final(self).left_btn.button_type == button_type_of(btn_details),
            ButtonContainer::set_outcome(old(self).left_btn, final(self).left_btn, btn_details, old(self).button_area),
            final(self).middle_btn == old(self).middle_btn,
            final(self).right_btn == old(self).right_btn,
            final(self).state == old(self).state,
            final(self).button_area == old(self).button_area,
            final(ctx).timers@ == old(ctx).timers@,
            final(ctx).next_token == old(ctx).next_token,
            old(ctx).paint_requested ==> final(ctx).paint_requested,
    {
        self.left_btn.set(ctx, btn_details, self.button_area);
        self.pad.clear();
    }

    pub fn set_right(&mut self, ctx: &mut EventCtx, btn_details: Option<ButtonDetails>)
        requires
            old(self).wf(),
        ensures
            final(self).wf(),
            final(self).right_btn.button_type == button_type_of(btn_details),
            ButtonContainer::set_outcome(old(self).right_btn, final(self).right_btn, btn_details, old(self).button_area),
            final(self).left_btn == old(self).left_btn,
            final(self).middle_btn == old(self).middle_btn,
            final(self).state == old(self).state,
            final(self).button_area == old(self).button_area,
            final(ctx).timers@ == old(ctx).timers@,
            final(ctx).next_token == old(ctx).next_token,
            old(ctx).paint_requested ==> final(ctx).paint_requested,
    {
        self.right_btn.set(ctx, btn_details, self.button_area);
        self.pad.clear();
    }

    pub fn set_middle(&mut self, ctx: &mut EventCtx, btn_details: Option<ButtonDetails>)
        requires
            old(self).wf(),
        ensures
            final(self).wf(),
            final(self).middle_btn.button_type == button_type_of(btn_details),
            ButtonContainer::set_outcome(old(self).middle_btn, final(self).middle_btn, btn_details, old(self).button_area),
            final(self).left_btn == old(self).left_btn,
            final(self).right_btn == old(self).right_btn,
            final(self).state == old(self).state,
            final(self).button_area == old(self).button_area,
            final(ctx).timers@ == old(ctx).timers@,
            final(ctx).next_token == old(ctx).next_token,
            old(ctx).paint_requested ==> final(ctx).paint_requested,
    {
        self.middle_btn.set(ctx, btn_details, self.button_area);
        self.pad.clear();
    }

    /// Hands the event to one hold-to-confirm position; on completion the
    /// gesture starts over and the hold is reset.
    fn hold_event(c: &mut ButtonContainer, ctx: &mut EventCtx, event: Event) -> (confirmed: bool)
        requires
            old(c).wf(),
        ensures
            confirmed == Self::holds_confirm(*old(c), event),
            final(c).hold_to_confirm == Self::hold_after(*old(c), event, old(ctx).next_token),
            final(ctx).next_token == if old(c).button_type == ButtonType::HoldToConfirm
                && old(c).hold_to_confirm.spec_event_timer(event) is Some {
                crate::event::token_after(old(ctx).next_token)
            } else {
                old(ctx).next_token
            },
            final(c).wf(),
            final(c).button == old(c).button,
            final(c).button_type == old(c).button_type,
            final(c).hold_to_confirm.pos == old(c).hold_to_confirm.pos,
            final(ctx).timers@ == old(ctx).timers@ + Self::hold_timer(*old(c), event, old(ctx).next_token),
    {
        if c.button_type == ButtonType::HoldToConfirm {
            let msg = c.hold_to_confirm.event(ctx, event);
            if msg == Some(HoldToConfirmMsg::Confirmed) {
                c.hold_to_confirm.reset();
                ctx.request_paint();
                assert(ctx.timers@ =~= old(ctx).timers@ + Self::hold_timer(*old(c), event, old(ctx).next_token));
                return true;
            }
        }
        assert(ctx.timers@ =~= old(ctx).timers@ + Self::hold_timer(*old(c), event, old(ctx).next_token));
        false
    }

    /// Handles one event; the resulting state and message are `spec_event`.
    #[verifier::rlimit(80)]
    pub fn event(&mut self, ctx: &mut EventCtx, event: Event) -> (msg: Option<ButtonControllerMsg>)
        requires
            old(self).wf(),
        ensures
            final(self).wf(),
            (final(self).state, msg) == old(self).spec_event(event),
            final(self).left_btn.hold_to_confirm == Self::hold_after(
                old(self).left_btn,
                event,
                old(ctx).next_token,
            ),
            final(self).right_btn.hold_to_confirm == if Self::holds_confirm(old(self).left_btn, event) {
                old(self).right_btn.hold_to_confirm
            } else {
                Self::hold_after(old(self).right_btn, event, old(ctx).next_token)
            },
            final(self).middle_btn.hold_to_confirm == if Self::holds_confirm(old(self).left_btn, event)
                || Self::holds_confirm(old(self).right_btn, event) {
                old(self).middle_btn.hold_to_confirm
            } else {
                Self::hold_after(old(self).middle_btn, event, old(ctx).next_token)
            },
            final(self).left_btn.button_type == old(self).left_btn.button_type,
            final(self).middle_btn.button_type == old(self).middle_btn.button_type,
            final(self).right_btn.button_type == old(self).right_btn.button_type,
            final(self).button_area == old(self).button_area,
            final(self).left_btn.button == (Button { state: final(self).left_btn.button.state, ..old(self).left_btn.button }),
            final(self).middle_btn.button == (Button { state: final(self).middle_btn.button.state, ..old(self).middle_btn.button }),
            final(self).right_btn.button == (Button { state: final(self).right_btn.button.state, ..old(self).right_btn.button }),
            final(ctx).timers@ == old(ctx).timers@ + old(self).spec_timers(event, old(ctx).next_token),
            event is Button && pressed_in(old(self).spec_event(event).0) is Some ==> {
                let p = pressed_in(old(self).spec_event(event).0)->0;
                &&& (final(self).left_btn.button.state == PressState::Pressed) == p.0
                &&& (final(self).middle_btn.button.state == PressState::Pressed) == p.1
                &&& (final(self).right_btn.button.state == PressState::Pressed) == p.2
            },
    {
        let ghost c0 = old(ctx).timers@;
        let ghost tok = old(ctx).next_token;
        let ghost me = *old(self);
        if Self::hold_event(&mut self.left_btn, ctx, event) {
            self.state = ButtonState::Nothing;
            assert(ctx.timers@ =~= c0 + me.spec_timers(event, tok));
            return Some(ButtonControllerMsg::Triggered(ButtonPos::Left));
        }
        let ghost tok1 = ctx.next_token;
        assert(Self::hold_timer(me.right_btn, event, tok1) == Self::hold_timer(me.right_btn, event, tok));
        assert(Self::hold_timer(me.middle_btn, event, tok1) == Self::hold_timer(me.middle_btn, event, tok));
        if Self::hold_event(&mut self.right_btn, ctx, event) {
            self.state = ButtonState::Nothing;
            assert(ctx.timers@ =~= c0 + me.spec_timers(event, tok));
            return Some(ButtonControllerMsg::Triggered(ButtonPos::Right));
        }
        let ghost tok2 = ctx.next_token;
        assert(Self::hold_timer(me.middle_btn, event, tok2) == Self::hold_timer(me.middle_btn, event, tok));
        if Self::hold_event(&mut self.middle_btn, ctx, event) {
            self.state = ButtonState::Nothing;
            assert(ctx.timers@ =~= c0 + me.spec_timers(event, tok));
            return Some(ButtonControllerMsg::Triggered(ButtonPos::Middle));
        }
        assert(ctx.timers@ =~= c0 + me.spec_timers(event, tok));
        match event {
            Event::Button(button) => self.gesture(ctx, button),
            _ => None,
        }
    }

    /// Applies a button event to the gesture and shows which positions are
    /// down.
    fn gesture(&mut self, ctx: &mut EventCtx, button: ButtonEvent) -> (msg: Option<ButtonControllerMsg>)
        requires
            old(self).wf(),
        ensures
            final(self).wf(),
            (final(self).state, msg) == transition(
                old(self).state,
                button,
                old(self).left_btn.spec_reacts(),
                old(self).middle_btn.spec_reacts(),
                old(self).right_btn.spec_reacts(),
            ),
            final(self).left_btn.button_type == old(self).left_btn.button_type,
            final(self).middle_btn.button_type == old(self).middle_btn.button_type,
            final(self).right_btn.button_type == old(self).right_btn.button_type,
            final(self).button_area == old(self).button_area,
            final(self).left_btn.hold_to_confirm == old(self).left_btn.hold_to_confirm,
            final(self).middle_btn.hold_to_confirm == old(self).middle_btn.hold_to_confirm,
            final(self).right_btn.hold_to_confirm == old(self).right_btn.hold_to_confirm,
            final(self).left_btn.button == (Button { state: final(self).left_btn.button.state, ..old(self).left_btn.button }),
            final(self).middle_btn.button == (Button { state: final(self).middle_btn.button.state, ..old(self).middle_btn.button }),
            final(self).right_btn.button == (Button { state: final(self).right_btn.button.state, ..old(self).right_btn.button }),
            final(ctx).next_token == old(ctx).next_token,
            pressed_in(final(self).state) is Some ==> {
                let p = pressed_in(final(self).state)->0;
                &&& (final(self).left_btn.button.state == PressState::Pressed) == p.0
                &&& (final(self).middle_btn.button.state == PressState::Pressed) == p.1
                &&& (final(self).right_btn.button.state == PressState::Pressed) == p.2
            },
            final(ctx).timers@ == old(ctx).timers@,
    {
        let (new_state, msg) = self.transition_of(button);
        match new_state {
            ButtonState::Nothing => {
                self.left_btn.show_pressed(ctx, false);
                self.middle_btn.show_pressed(ctx, false);
                self.right_btn.show_pressed(ctx, false);
            },
            ButtonState::OneDown(PhysicalButton::Left) => {
                self.left_btn.show_pressed(ctx, true);
                self.middle_btn.show_pressed(ctx, false);
                self.right_btn.show_pressed(ctx, false);
            },
            ButtonState::OneDown(PhysicalButton::Right) => {
                self.left_btn.show_pressed(ctx, false);
                self.middle_btn.show_pressed(ctx, false);
                self.right_btn.show_pressed(ctx, true);
            },
            ButtonState::OneDown(PhysicalButton::Both) => {},
            _ => {
                self.left_btn.show_pressed(ctx, false);
                self.middle_btn.show_pressed(ctx, true);
                self.right_btn.show_pressed(ctx, false);
            },
        }
        self.state = new_state;
        msg
    }

    /// The gesture step for a button event, per `transition`.
    fn transition_of(&self, button: ButtonEvent) -> (r: (ButtonState, Option<ButtonControllerMsg>))
        ensures
            r == transition(
                self.state,
                button,
                self.left_btn.spec_reacts(),
                self.middle_btn.spec_reacts(),
                self.right_btn.spec_reacts(),
            ),
    {
        match self.state {
            ButtonState::Nothing => match button {
                ButtonEvent::ButtonPressed(which) => (ButtonState::OneDown(which), None),
                _ => (self.state, None),
            },
            ButtonState::OneDown(which_down) => match button {
                ButtonEvent::ButtonReleased(b) => if b == which_down {
                    match which_down {
                        PhysicalButton::Left => (
                            ButtonState::Nothing,
                            if self.left_btn.reacts_to_single_click() {
                                Some(ButtonControllerMsg::Triggered(ButtonPos::Left))
                            } else {
                                None
                            },
                        ),
                        PhysicalButton::Right => (
                            ButtonState::Nothing,
                            if self.right_btn.reacts_to_single_click() {
                                Some(ButtonControllerMsg::Triggered(ButtonPos::Right))
                            } else {
                                None
                            },
                        ),
                        PhysicalButton::Both => (ButtonState::Nothing, None),
                    }
                } else {
                    (self.state, None)
                },
                ButtonEvent::ButtonPressed(b) => if b != which_down {
                    (ButtonState::BothDown, None)
                } else {
                    (self.state, None)
                },
            },
            ButtonState::BothDown => match button {
                ButtonEvent::ButtonReleased(b) => (ButtonState::OneReleased(b), None),
                _ => (self.state, None),
            },
            ButtonState::OneReleased(which_up) => match button {
                ButtonEvent::ButtonPressed(b) => if b == which_up {
                    (ButtonState::BothDown, None)
                } else {
                    (self.state, None)
                },
                ButtonEvent::ButtonReleased(b) => if b != which_up {
                    (
                        ButtonState::Nothing,
                        if self.middle_btn.reacts_to_single_click() {
                            Some(ButtonControllerMsg::Triggered(ButtonPos::Middle))
                        } else {
                            None
                        },
                    )
                } else {
                    (self.state, None)
                },
            },
        }
    }

    /// Draws the background and the active widget of each position, from
    /// layout and state alone.
    pub fn paint(&self, canvas: &mut Canvas)
        requires
            self.wf(),
        ensures
            final(canvas)@ == old(canvas)@ + self.spec_paint(),
    {
        self.pad.paint(canvas);
        self.left_btn.paint(canvas);
        self.middle_btn.paint(canvas);
        self.right_btn.paint(canvas);
        assert(canvas@ =~= old(canvas)@ + self.spec_paint());
    }

    /// Lays out all positions in `bounds` and keeps it for later
    /// reconfiguration.
    pub fn place(&mut self, bounds: Rect) -> (r: Rect)
        requires
            old(self).wf(),
            bounds.wf(),
        ensures
            final(self).wf(),
            final(self).button_area == bounds,
            final(self).state == old(self).state,
            final(self).left_btn.button_type == old(self).left_btn.button_type,
            final(self).middle_btn.button_type == old(self).middle_btn.button_type,
            final(self).right_btn.button_type == old(self).right_btn.button_type,
            final(self).left_btn.button.content == old(self).left_btn.button.content,
            final(self).middle_btn.button.content == old(self).middle_btn.button.content,
            final(self).right_btn.button.content == old(self).right_btn.button.content,
            final(self).left_btn.hold_to_confirm.text == old(self).left_btn.hold_to_confirm.text,
            final(self).middle_btn.hold_to_confirm.text == old(self).middle_btn.hold_to_confirm.text,
            final(self).right_btn.hold_to_confirm.text == old(self).right_btn.hold_to_confirm.text,
            final(self).left_btn.hold_to_confirm.duration == old(self).left_btn.hold_to_confirm.duration,
            final(self).middle_btn.hold_to_confirm.duration == old(self).middle_btn.hold_to_confirm.duration,
            final(self).right_btn.hold_to_confirm.duration == old(self).right_btn.hold_to_confirm.duration,
            r == bounds,
    {
        self.button_area = bounds;
        self.pad.place(bounds);
        self.left_btn.place(bounds);
        self.middle_btn.place(bounds);
        self.right_btn.place(bounds);
        bounds
    }
}

/// The gesture that a sequence of button events runs through, from `state`,
/// with the message of each step.
pub open spec fn run(
    state: ButtonState,
    evs: Seq<ButtonEvent>,
    left: bool,
    middle: bool,
    right: bool,
) -> (ButtonState, Seq<Option<ButtonControllerMsg>>)
    decreases evs.len(),
{
    if evs.len() == 0 {
        (state, Seq::empty())
    } else {
        let prev = run(state, evs.drop_last(), left, middle, right);
        let step = transition(prev.0, evs.last(), left, middle, right);
        (step.0, prev.1.push(step.1))
    }
}

/// Hold-to-confirm positions complete only on timer events, so a button
/// event moves the controller exactly as `transition` says.
pub proof fn lemma_button_events_follow_transition(c: ButtonController, b: ButtonEvent)
    ensures
        c.spec_event(Event::Button(b)) == transition(
            c.state,
            b,
            c.left_btn.spec_reacts(),
            c.middle_btn.spec_reacts(),
            c.right_btn.spec_reacts(),
        ),
{
}

/// Pressing and releasing one physical button, at a position without a
/// hold duration that is active, triggers that position exactly once and
/// ends the gesture.
pub proof fn lemma_single_click(b: PhysicalButton, left: bool, middle: bool, right: bool)
    requires
        b == PhysicalButton::Left ==> left,
        b == PhysicalButton::Right ==> right,
        b != PhysicalButton::Both,
    ensures
        run(
            ButtonState::Nothing,
            seq![ButtonEvent::ButtonPressed(b), ButtonEvent::ButtonReleased(b)],
            left,
            middle,
            right,
        ) == (
            ButtonState::Nothing,
            seq![
                None::<ButtonControllerMsg>,
                Some(ButtonControllerMsg::Triggered(crate::button::position_of(b))),
            ],
        ),
{
    let evs = seq![ButtonEvent::ButtonPressed(b), ButtonEvent::ButtonReleased(b)];
    let e1 = evs.drop_last();
    assert(e1.drop_last() =~= Seq::<ButtonEvent>::empty());
    let r0 = run(ButtonState::Nothing, e1.drop_last(), left, middle, right);
    assert(r0.1 =~= Seq::<Option<ButtonControllerMsg>>::empty());
    let r1 = run(ButtonState::Nothing, e1, left, middle, right);
    assert(r1.0 == ButtonState::OneDown(b));
    assert(r1.1 =~= seq![None::<ButtonControllerMsg>]);
    assert(run(ButtonState::Nothing, evs, left, middle, right).1 =~= seq![
        None::<ButtonControllerMsg>,
        Some(ButtonControllerMsg::Triggered(crate::button::position_of(b))),
    ]);
}

/// Pressing both physical buttons (in either order) and releasing both (in
/// either order) triggers the middle once and never the left or right.
pub proof fn lemma_both_click(
    first: PhysicalButton,
    released_first: PhysicalButton,
    left: bool,
    right: bool,
)
    requires
        first != PhysicalButton::Both,
        released_first != PhysicalButton::Both,
    ensures
        ({
            let second = if first == PhysicalButton::Left {
                PhysicalButton::Right
            } else {
                PhysicalButton::Left
            };
            let released_second = if released_first == PhysicalButton::Left {
                PhysicalButton::Right
            } else {
                PhysicalButton::Left
            };
            run(
                ButtonState::Nothing,
                seq![
                    ButtonEvent::ButtonPressed(first),
                    ButtonEvent::ButtonPressed(second),
                    ButtonEvent::ButtonReleased(released_first),
                    ButtonEvent::ButtonReleased(released_second),
                ],
                left,
                true,
                right,
            ) == (
                ButtonState::Nothing,
                seq![
                    None::<ButtonControllerMsg>,
                    None,
                    None,
                    Some(ButtonControllerMsg::Triggered(ButtonPos::Middle)),
                ],
            )
        }),
{
    let second = if first == PhysicalButton::Left {
        PhysicalButton::Right
    } else {
        PhysicalButton::Left
    };
    let released_second = if released_first == PhysicalButton::Left {
        PhysicalButton::Right
    } else {
        PhysicalButton::Left
    };
    let evs = seq![
        ButtonEvent::ButtonPressed(first),
        ButtonEvent::ButtonPressed(second),
        ButtonEvent::ButtonReleased(released_first),
        ButtonEvent::ButtonReleased(released_second),
    ];
    let e3 = evs.drop_last();
    let e2 = e3.drop_last();
    let e1 = e2.drop_last();
    let e0 = e1.drop_last();
    assert(e0 =~= Seq::<ButtonEvent>::empty());
    let r0 = run(ButtonState::Nothing, e0, left, true, right);
    assert(r0.1 =~= Seq::<Option<ButtonControllerMsg>>::empty());
    let r1 = run(ButtonState::Nothing, e1, left, true, right);
    assert(r1.0 == ButtonState::OneDown(first));
    assert(r1.1 =~= seq![None::<ButtonControllerMsg>]);
    let r2 = run(ButtonState::Nothing, e2, left, true, right);
    assert(r2.0 == ButtonState::BothDown);
    assert(r2.1 =~= seq![None::<ButtonControllerMsg>, None]);
    let r3 = run(ButtonState::Nothing, e3, left, true, right);
    assert(r3.0 == ButtonState::OneReleased(released_first));
    assert(r3.1 =~= seq![None::<ButtonControllerMsg>, None, None]);
    assert(run(ButtonState::Nothing, evs, left, true, right).1 =~= seq![
        None::<ButtonControllerMsg>,
        None,
        None,
        Some(ButtonControllerMsg::Triggered(ButtonPos::Middle)),
    ]);
}

/// Once both are down, the gesture can only end in the middle: a release
/// leaves the other held, pressing the released one again returns to both
/// down, and releasing the other triggers the middle; no step on the way
/// triggers anything else.
pub proof fn lemma_both_down_ends_in_middle(
    x: PhysicalButton,
    y: PhysicalButton,
    left: bool,
    middle: bool,
    right: bool,
)
    requires
        x != y,
    ensures
        transition(ButtonState::BothDown, ButtonEvent::ButtonReleased(x), left, middle, right) == (
            ButtonState::OneReleased(x),
            None::<ButtonControllerMsg>,
        ),
        transition(ButtonState::OneReleased(x), ButtonEvent::ButtonPressed(x), left, middle, right)
            == (ButtonState::BothDown, None::<ButtonControllerMsg>),
        transition(ButtonState::OneReleased(x), ButtonEvent::ButtonReleased(y), left, middle, right)
            == (
            ButtonState::Nothing,
            if middle {
                Some(ButtonControllerMsg::Triggered(ButtonPos::Middle))
            } else {
                None
            },
        ),
        forall|e: ButtonEvent|
            transition(ButtonState::BothDown, e, left, middle, right).1 is None,
        forall|e: ButtonEvent|
            (#[trigger] transition(ButtonState::OneReleased(x), e, left, middle, right)).1 is None
                || transition(ButtonState::OneReleased(x), e, left, middle, right).1 == Some(
                ButtonControllerMsg::Triggered(ButtonPos::Middle),
            ),
{
}

/// The controller after `event`, with `token` as the next timer token, as
/// its contract gives it (the plain buttons' look aside).
pub open spec fn after(c: ButtonController, event: Event, token: u32) -> ButtonController {
    ButtonController {
        state: c.spec_event(event).0,
        left_btn: ButtonContainer {
            hold_to_confirm: ButtonController::hold_after(c.left_btn, event, token),
            ..c.left_btn
        },
        right_btn: ButtonContainer {
            hold_to_confirm: if ButtonController::holds_confirm(c.left_btn, event) {
                c.right_btn.hold_to_confirm
            } else {
                ButtonController::hold_after(c.right_btn, event, token)
            },
            ..c.right_btn
        },
        middle_btn: ButtonContainer {
            hold_to_confirm: if ButtonController::holds_confirm(c.left_btn, event)
                || ButtonController::holds_confirm(c.right_btn, event) {
                c.middle_btn.hold_to_confirm
            } else {
                ButtonController::hold_after(c.middle_btn, event, token)
            },
            ..c.middle_btn
        },
        ..c
    }
}

/// At a hold-to-confirm position (here the left), a press triggers nothing;
/// the timer it asked for, firing while the button is still held, triggers
/// the position once and ends the gesture, and the release after that
/// triggers nothing. Releasing before the timer fires triggers nothing, and
/// the timer firing afterwards does nothing either. The token is fresh: no
/// other position waits for it.
pub proof fn lemma_hold_position(c: ButtonController, token: u32, later: u32)
    requires
        c.wf(),
        c.state == ButtonState::Nothing,
        c.left_btn.button_type == ButtonType::HoldToConfirm,
        c.right_btn.hold_to_confirm.timer != Some(crate::event::TimerToken { id: token }),
        c.middle_btn.hold_to_confirm.timer != Some(crate::event::TimerToken { id: token }),
    ensures
        ({
            let press = Event::Button(ButtonEvent::ButtonPressed(PhysicalButton::Left));
            let release = Event::Button(ButtonEvent::ButtonReleased(PhysicalButton::Left));
            let fire = Event::Timer(crate::event::TimerToken { id: token });
            let held = after(c, press, token);
            let done = after(held, fire, later);
            let early = after(held, release, later);
            &&& c.spec_event(press).1 is None
            &&& held.spec_event(fire) == (
                ButtonState::Nothing,
                Some(ButtonControllerMsg::Triggered(ButtonPos::Left)),
            )
            &&& done.spec_event(release).1 is None
            &&& early.spec_event(release).1 is None
            &&& early.spec_event(fire).1 is None
        }),
{
}

/// The other physical button of the two.
pub open spec fn other_button(b: PhysicalButton) -> PhysicalButton {
    if b == PhysicalButton::Left {
        PhysicalButton::Right
    } else {
        PhysicalButton::Left
    }
}

/// Running two sequences one after the other.
pub proof fn lemma_run_concat(
    state: ButtonState,
    u: Seq<ButtonEvent>,
    v: Seq<ButtonEvent>,
    left: bool,
    middle: bool,
    right: bool,
)
    ensures
        run(state, u + v, left, middle, right) == (
            run(run(state, u, left, middle, right).0, v, left, middle, right).0,
            run(state, u, left, middle, right).1 + run(run(state, u, left, middle, right).0, v, left, middle, right).1,
        ),
    decreases v.len(),
{
    if v.len() == 0 {
        assert(u + v =~= u);
        assert(run(state, u, left, middle, right).1 + Seq::<Option<ButtonControllerMsg>>::empty() =~= run(
            state,
            u,
            left,
            middle,
            right,
        ).1);
    } else {
        assert((u + v).drop_last() =~= u + v.drop_last());
        assert((u + v).last() == v.last());
        lemma_run_concat(state, u, v.drop_last(), left, middle, right);
        let mid = run(state, u, left, middle, right);
        let rest = run(mid.0, v.drop_last(), left, middle, right);
        assert(mid.1 + rest.1.push(transition(rest.0, v.last(), left, middle, right).1) =~= (mid.1 + rest.1).push(
            transition(rest.0, v.last(), left, middle, right).1,
        ));
    }
}

/// While both are down, pressing and releasing one of them again and
/// again keeps the gesture between "both down" and "that one released",
/// and triggers nothing.
pub proof fn lemma_represses(evs: Seq<ButtonEvent>, x: PhysicalButton, left: bool, middle: bool, right: bool)
    requires
        forall|i: int|
            0 <= i < evs.len() ==> #[trigger] evs[i] == ButtonEvent::ButtonPressed(x) || evs[i]
                == ButtonEvent::ButtonReleased(x),
    ensures
        run(ButtonState::BothDown, evs, left, middle, right).0 == ButtonState::BothDown || run(
            ButtonState::BothDown,
            evs,
            left,
            middle,
            right,
        ).0 == ButtonState::OneReleased(x),
        run(ButtonState::BothDown, evs, left, middle, right).1.len() == evs.len(),
        forall|i: int|
            0 <= i < evs.len() ==> (#[trigger] run(ButtonState::BothDown, evs, left, middle, right).1[i]) is None,
    decreases evs.len(),
{
    if evs.len() > 0 {
        let init = evs.drop_last();
        assert forall|i: int| 0 <= i < init.len() implies #[trigger] init[i] == ButtonEvent::ButtonPressed(x)
            || init[i] == ButtonEvent::ButtonReleased(x) by {
            assert(init[i] == evs[i]);
        }
        lemma_represses(init, x, left, middle, right);
        assert(evs.last() == evs[evs.len() - 1]);
    }
}

/// Both physical buttons pressed (in either order), then any number of
/// re-presses and releases of one of them, then that one released and the
/// other: exactly one trigger, the middle, at the very end.
pub proof fn lemma_both_click_any(
    first: PhysicalButton,
    x: PhysicalButton,
    evs: Seq<ButtonEvent>,
    left: bool,
    right: bool,
)
    requires
        first != PhysicalButton::Both,
        x != PhysicalButton::Both,
        forall|i: int|
            0 <= i < evs.len() ==> #[trigger] evs[i] == ButtonEvent::ButtonPressed(x) || evs[i]
                == ButtonEvent::ButtonReleased(x),
    ensures
        ({
            let y = other_button(x);
            let tail = seq![ButtonEvent::ButtonReleased(x), ButtonEvent::ButtonReleased(y)];
            let all = seq![ButtonEvent::ButtonPressed(first), ButtonEvent::ButtonPressed(other_button(first))] + evs
                + tail;
            let r = run(ButtonState::Nothing, all, left, true, right);
            &&& r.0 == ButtonState::Nothing
            &&& r.1.len() == all.len()
            &&& r.1.last() == Some(ButtonControllerMsg::Triggered(ButtonPos::Middle))
            &&& forall|i: int| 0 <= i < all.len() - 1 ==> (#[trigger] r.1[i]) is None
        }),
{
    let y = other_button(x);
    let tail = seq![ButtonEvent::ButtonReleased(x), ButtonEvent::ButtonReleased(y)];
    let head = seq![ButtonEvent::ButtonPressed(first), ButtonEvent::ButtonPressed(other_button(first))];
    let all = head + evs + tail;
    assert(head.drop_last().drop_last() =~= Seq::<ButtonEvent>::empty());
    assert(head.drop_last() =~= seq![ButtonEvent::ButtonPressed(first)]);
    let r0 = run(ButtonState::Nothing, head.drop_last().drop_last(), left, true, right);
    assert(r0.1 =~= Seq::<Option<ButtonControllerMsg>>::empty());
    let r1 = run(ButtonState::Nothing, head.drop_last(), left, true, right);
    assert(r1.0 == ButtonState::OneDown(first));
    assert(r1.1 =~= seq![None::<ButtonControllerMsg>]);
    let rh = run(ButtonState::Nothing, head, left, true, right);
    assert(rh.0 == ButtonState::BothDown);
    assert(rh.1 =~= seq![None::<ButtonControllerMsg>, None]);
    lemma_represses(evs, x, left, true, right);
    lemma_run_concat(ButtonState::Nothing, head, evs, left, true, right);
    let rm = run(ButtonState::Nothing, head + evs, left, true, right);
    let re = run(ButtonState::BothDown, evs, left, true, right);
    assert(rm.0 == re.0);
    lemma_run_concat(ButtonState::Nothing, head + evs, tail, left, true, right);
    let rt = run(re.0, tail, left, true, right);
    assert(tail.drop_last().drop_last() =~= Seq::<ButtonEvent>::empty());
    let t0 = run(re.0, tail.drop_last().drop_last(), left, true, right);
    assert(t0.1 =~= Seq::<Option<ButtonControllerMsg>>::empty());
    let t1 = run(re.0, tail.drop_last(), left, true, right);
    assert(t1.1 =~= seq![None::<ButtonControllerMsg>]);
    assert(rt.0 == ButtonState::Nothing);
    assert(rt.1 =~= seq![None::<ButtonControllerMsg>, Some(ButtonControllerMsg::Triggered(ButtonPos::Middle))]);
    let r = run(ButtonState::Nothing, all, left, true, right);
    assert(r.1 =~= rh.1 + re.1 + rt.1);
    assert forall|i: int| 0 <= i < all.len() - 1 implies (#[trigger] r.1[i]) is None by {
        if i < 2 {
            assert(r.1[i] == rh.1[i]);
        } else if i < 2 + evs.len() {
            assert(r.1[i] == re.1[i - 2]);
        } else {
            assert(r.1[i] == rt.1[i - 2 - evs.len()]);
        }
    }
}

/// Painting twice with no event in between draws the same thing twice.
pub proof fn lemma_paint_repeatable(c: ButtonController, before: Seq<Draw>, once: Seq<Draw>, twice: Seq<Draw>)
    requires
        once == before + c.spec_paint(),
        twice == once + c.spec_paint(),
    ensures
        twice.subrange(once.len() as int, twice.len() as int) == once.subrange(
            before.len() as int,
            once.len() as int,
        ),
{
    assert(twice.subrange(once.len() as int, twice.len() as int) =~= c.spec_paint());
    assert(once.subrange(before.len() as int, once.len() as int) =~= c.spec_paint());
}

} // verus!

verus! {

impl crate::component::Component for ButtonController {
    type Msg = ButtonControllerMsg;

    open spec fn inv(&self) -> bool {
        self.wf()
    }

    open spec fn spec_paint(&self) -> Seq<Draw> {
        ButtonController::spec_paint(*self)
    }

    fn place(&mut self, bounds: Rect) -> (r: Rect) {
        ButtonController::place(self, bounds)
    }

    fn event(&mut self, ctx: &mut EventCtx, event: Event) -> (msg: Option<ButtonControllerMsg>) {
        ButtonController::event(self, ctx, event)
    }

    fn paint(&self, canvas: &mut Canvas) {
        ButtonController::paint(self, canvas)
    }

    /// The area of the button row.
    fn bounds(&self, sink: &mut Vec<Rect>) {
        sink.push(self.button_area);
        assert(sink@.subrange(0, old(sink)@.len() as int) =~= old(sink)@);
    }
}

} // verus!
