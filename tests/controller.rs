use trezor_ui::button::{Button, ButtonContent, ButtonMsg, ButtonPos, PressState};
use trezor_ui::button_controller::{ButtonController, ButtonControllerMsg, ButtonState, ButtonType};
use trezor_ui::common::ButtonDetails;
use trezor_ui::display::Canvas;
use trezor_ui::event::{ButtonEvent, Duration, Event, EventCtx, PhysicalButton, TimerToken};
use trezor_ui::geometry::{Point, Rect};
use trezor_ui::hold_to_confirm::{HoldToConfirm, HoldToConfirmMsg, LoaderStyle, LoaderStyleSheet};
use trezor_ui::timer::TimerQueue;
use trezor_ui::tr_theme;

fn press(b: PhysicalButton) -> Event {
    Event::Button(ButtonEvent::ButtonPressed(b))
}

fn release(b: PhysicalButton) -> Event {
    Event::Button(ButtonEvent::ButtonReleased(b))
}

fn area() -> Rect {
    Rect::new(Point::new(0, 52), Point::new(128, 64))
}

fn plain_controller() -> ButtonController {
    let mut c = ButtonController::new(
        Some(ButtonDetails::new("BACK")),
        Some(ButtonDetails::new("SELECT")),
        Some(ButtonDetails::new("NEXT")),
    );
    c.place(area());
    c
}

fn feed(c: &mut ButtonController, events: &[Event]) -> Vec<Option<ButtonControllerMsg>> {
    let mut out = Vec::new();
    for e in events {
        let mut ctx = EventCtx::new(1);
        out.push(c.event(&mut ctx, *e));
    }
    out
}

#[test]
fn single_left_click_triggers_left() {
    let mut c = plain_controller();
    let out = feed(&mut c, &[press(PhysicalButton::Left), release(PhysicalButton::Left)]);
    assert_eq!(out, vec![None, Some(ButtonControllerMsg::Triggered(ButtonPos::Left))]);
    assert_eq!(c.state, ButtonState::Nothing);
}

#[test]
fn single_right_click_triggers_right() {
    let mut c = plain_controller();
    let out = feed(&mut c, &[press(PhysicalButton::Right), release(PhysicalButton::Right)]);
    assert_eq!(out, vec![None, Some(ButtonControllerMsg::Triggered(ButtonPos::Right))]);
    assert_eq!(c.state, ButtonState::Nothing);
}

#[test]
fn inactive_position_does_not_trigger() {
    let mut c = ButtonController::new(None, Some(ButtonDetails::new("SELECT")), None);
    c.place(area());
    assert_eq!(c.left_btn.button_type, ButtonType::Nothing);
    let out = feed(&mut c, &[press(PhysicalButton::Left), release(PhysicalButton::Left)]);
    assert_eq!(out, vec![None, None]);
    assert_eq!(c.state, ButtonState::Nothing);
}

#[test]
fn both_buttons_trigger_middle_once() {
    let mut c = plain_controller();
    let out = feed(
        &mut c,
        &[
            press(PhysicalButton::Left),
            press(PhysicalButton::Right),
            release(PhysicalButton::Left),
            release(PhysicalButton::Right),
        ],
    );
    assert_eq!(out, vec![None, None, None, Some(ButtonControllerMsg::Triggered(ButtonPos::Middle))]);
    assert_eq!(c.state, ButtonState::Nothing);
}

#[test]
fn both_buttons_in_other_order_trigger_middle() {
    let mut c = plain_controller();
    let out = feed(
        &mut c,
        &[
            press(PhysicalButton::Right),
            press(PhysicalButton::Left),
            release(PhysicalButton::Left),
            release(PhysicalButton::Right),
        ],
    );
    assert_eq!(out, vec![None, None, None, Some(ButtonControllerMsg::Triggered(ButtonPos::Middle))]);
}

#[test]
fn repress_after_one_release_still_ends_in_middle() {
    let mut c = plain_controller();
    let out = feed(
        &mut c,
        &[
            press(PhysicalButton::Left),
            press(PhysicalButton::Right),
            release(PhysicalButton::Right),
            press(PhysicalButton::Right),
            release(PhysicalButton::Left),
            release(PhysicalButton::Right),
        ],
    );
    assert_eq!(out, vec![None, None, None, None, None, Some(ButtonControllerMsg::Triggered(ButtonPos::Middle))]);
}

#[test]
fn middle_shows_pressed_while_both_down() {
    let mut c = plain_controller();
    feed(&mut c, &[press(PhysicalButton::Left)]);
    assert_eq!(c.left_btn.button.state, PressState::Pressed);
    assert_eq!(c.middle_btn.button.state, PressState::Released);
    feed(&mut c, &[press(PhysicalButton::Right)]);
    assert_eq!(c.state, ButtonState::BothDown);
    assert_eq!(c.left_btn.button.state, PressState::Released);
    assert_eq!(c.middle_btn.button.state, PressState::Pressed);
    assert_eq!(c.right_btn.button.state, PressState::Released);
}

#[test]
fn timer_event_alone_triggers_nothing() {
    let mut c = plain_controller();
    let out = feed(&mut c, &[Event::Timer(TimerToken { id: 7 })]);
    assert_eq!(out, vec![None]);
}

fn hold_controller() -> ButtonController {
    let mut c = ButtonController::new(
        Some(ButtonDetails::new("ACC").with_duration(Duration::from_millis(1000))),
        Some(ButtonDetails::new("SELECT")),
        Some(ButtonDetails::new("NEXT")),
    );
    c.place(area());
    c
}

/// Feeds an event at time `now`, schedules what it asked for and returns
/// its message.
fn at(c: &mut ButtonController, q: &mut TimerQueue, now: u64, e: Event) -> Option<ButtonControllerMsg> {
    let mut ctx = q.context();
    let m = c.event(&mut ctx, e);
    q.absorb(&ctx, now);
    m
}

/// Delivers the timers due at `now`, returning the messages.
fn tick(c: &mut ButtonController, q: &mut TimerQueue, now: u64) -> Vec<ButtonControllerMsg> {
    let mut out = Vec::new();
    for t in q.take_expired(now) {
        if let Some(m) = at(c, q, now, Event::Timer(t)) {
            out.push(m);
        }
    }
    out
}

#[test]
fn hold_released_early_emits_nothing_and_held_long_confirms_once() {
    let mut c = hold_controller();
    assert_eq!(c.left_btn.button_type, ButtonType::HoldToConfirm);
    assert_eq!(c.left_btn.hold_to_confirm.duration, Duration::from_millis(1000));
    let mut q = TimerQueue::new();
    let mut seen: Vec<ButtonControllerMsg> = Vec::new();

    assert_eq!(at(&mut c, &mut q, 0, press(PhysicalButton::Left)), None);
    seen.extend(tick(&mut c, &mut q, 400));
    assert_eq!(at(&mut c, &mut q, 400, release(PhysicalButton::Left)), None);
    assert!(seen.is_empty());

    assert_eq!(at(&mut c, &mut q, 1000, press(PhysicalButton::Left)), None);
    // The first press's timer comes due now; its token is stale.
    seen.extend(tick(&mut c, &mut q, 1000));
    assert!(seen.is_empty());
    seen.extend(tick(&mut c, &mut q, 1999));
    assert!(seen.is_empty());
    seen.extend(tick(&mut c, &mut q, 2000));
    assert_eq!(seen, vec![ButtonControllerMsg::Triggered(ButtonPos::Left)]);
    let mut t: u64 = 2000;
    while t < 7000 {
        t += 500;
        seen.extend(tick(&mut c, &mut q, t));
    }
    assert_eq!(at(&mut c, &mut q, 7000, release(PhysicalButton::Left)), None);
    assert_eq!(seen, vec![ButtonControllerMsg::Triggered(ButtonPos::Left)]);
    assert_eq!(c.state, ButtonState::Nothing);
}

#[test]
fn hold_position_never_clicks() {
    let mut c = hold_controller();
    let out = feed(&mut c, &[press(PhysicalButton::Left), release(PhysicalButton::Left)]);
    assert_eq!(out, vec![None, None]);
}

fn loader() -> LoaderStyleSheet {
    LoaderStyleSheet {
        normal: LoaderStyle {
            font: tr_theme::FONT_BOLD,
            fg_color: trezor_ui::display::Color { value: tr_theme::FG },
            bg_color: trezor_ui::display::Color { value: tr_theme::BG },
        },
    }
}

#[test]
fn hold_to_confirm_cancel_and_confirm() {
    let mut h = HoldToConfirm::new(ButtonPos::Left, "ACC", loader(), Duration::from_millis(1000));
    let mut ctx = EventCtx::new(5);
    assert_eq!(h.event(&mut ctx, press(PhysicalButton::Left)), None);
    assert_eq!(ctx.timers, vec![(TimerToken { id: 5 }, Duration::from_millis(1000))]);
    assert!(ctx.paint_requested);
    assert_eq!(h.event(&mut ctx, release(PhysicalButton::Left)), None);
    assert_eq!(h.timer, None);
    assert_eq!(h.event(&mut ctx, Event::Timer(TimerToken { id: 5 })), None);

    assert_eq!(h.event(&mut ctx, press(PhysicalButton::Left)), None);
    assert_eq!(h.timer, Some(TimerToken { id: 6 }));
    assert_eq!(h.event(&mut ctx, Event::Timer(TimerToken { id: 6 })), Some(HoldToConfirmMsg::Confirmed));
    assert_eq!(h.event(&mut ctx, Event::Timer(TimerToken { id: 6 })), None);
    assert_eq!(h.event(&mut ctx, release(PhysicalButton::Left)), None);
}

#[test]
fn button_click_and_long_press() {
    let mut b = Button::with_text(ButtonPos::Right, "NEXT", tr_theme::button_default());
    let mut ctx = EventCtx::new(1);
    assert_eq!(b.event(&mut ctx, press(PhysicalButton::Right)), None);
    assert!(ctx.timers.is_empty());
    assert_eq!(b.event(&mut ctx, release(PhysicalButton::Right)), Some(ButtonMsg::Clicked));
    assert_eq!(b.event(&mut ctx, release(PhysicalButton::Right)), None);
    assert_eq!(b.event(&mut ctx, press(PhysicalButton::Left)), None);
    assert_eq!(b.state, PressState::Released);

    let mut b = b.with_long_press(Duration::from_millis(800));
    assert!(b.is_longpress());
    assert_eq!(b.get_longpress(), Some(Duration::from_millis(800)));
    let mut ctx = EventCtx::new(9);
    assert_eq!(b.event(&mut ctx, press(PhysicalButton::Right)), None);
    assert_eq!(b.long_timer, Some(TimerToken { id: 9 }));
    assert_eq!(b.event(&mut ctx, Event::Timer(TimerToken { id: 9 })), Some(ButtonMsg::LongPressed));
    assert_eq!(b.event(&mut ctx, release(PhysicalButton::Right)), None);
    b.set_long_press(None);
    assert!(!b.is_longpress());
}

#[test]
fn button_placement_by_position() {
    let styles = tr_theme::button_default();
    let mut left = Button::with_text(ButtonPos::Left, "AB", styles);
    let r = left.place(area());
    // two glyphs of 7 pixels, minus one, plus a border of 2 on each side
    assert_eq!(r, Rect::new(Point::new(0, 52), Point::new(17, 64)));
    assert_eq!(left.baseline, Point::new(2, 62));
    let mut right = Button::with_text(ButtonPos::Right, "AB", styles);
    assert_eq!(right.place(area()), Rect::new(Point::new(111, 52), Point::new(128, 64)));
    let mut mid = Button::with_text(ButtonPos::Middle, "AB", styles);
    assert_eq!(mid.place(area()), Rect::new(Point::new(55, 52), Point::new(72, 64)));
    mid.set_text("ABCD", area());
    assert_eq!(mid.area, Rect::new(Point::new(48, 52), Point::new(79, 64)));
    assert!(matches!(mid.content(), ButtonContent::Text("ABCD")));
}

#[test]
fn controller_paint_is_repeatable() {
    let mut c = plain_controller();
    feed(&mut c, &[press(PhysicalButton::Left)]);
    let mut canvas = Canvas::new();
    c.paint(&mut canvas);
    let once = canvas.ops.len();
    assert!(once > 0);
    c.paint(&mut canvas);
    assert_eq!(canvas.ops.len(), 2 * once);
    assert_eq!(format!("{:?}", &canvas.ops[..once]), format!("{:?}", &canvas.ops[once..]));
}

#[test]
fn timer_queue_fires_at_deadline_only() {
    let mut q = TimerQueue::new();
    let mut ctx = q.context();
    let t = ctx.request_timer(Duration::from_millis(1000));
    q.absorb(&ctx, 50);
    assert_eq!(q.next_token, 2);
    assert!(q.take_expired(1049).is_empty());
    assert_eq!(q.take_expired(1050), vec![t]);
    assert!(q.take_expired(99999).is_empty());
}
