use trezor_ui::button::{Button, ButtonPos, PressState};
use trezor_ui::button_controller::{ButtonContainer, ButtonController, ButtonType};
use trezor_ui::common::{display_bold, display_bold_center, display_bold_right, ButtonDetails};
use trezor_ui::display::{Align, Canvas, Color, DrawOp};
use trezor_ui::event::{Duration, EventCtx, TimerToken};
use trezor_ui::geometry::{Insets, Offset, Point, Rect};
use trezor_ui::hold_to_confirm::{HoldToConfirm, LoaderStyle, LoaderStyleSheet};
use trezor_ui::pad::Pad;
use trezor_ui::textbox::TextBox;
use trezor_ui::tr_theme;

fn bar() -> Rect {
    Rect::new(Point::new(0, 52), Point::new(128, 64))
}

#[test]
fn rect_splits_clamp_to_the_rectangle() {
    let r = Rect::new(Point::new(10, 10), Point::new(50, 30));
    assert_eq!(r.width(), 40);
    assert_eq!(r.height(), 20);
    let (a, b) = r.split_left(15);
    assert_eq!((a, b), (Rect::new(Point::new(10, 10), Point::new(25, 30)), Rect::new(Point::new(25, 10), Point::new(50, 30))));
    let (a, b) = r.split_left(100);
    assert_eq!(a, r);
    assert_eq!(b.width(), 0);
    let (_, b) = r.split_right(-5);
    assert_eq!(b.width(), 0);
    let (top, bottom) = r.split_bottom(12);
    assert_eq!(bottom, Rect::new(Point::new(10, 18), Point::new(50, 30)));
    assert_eq!(top, Rect::new(Point::new(10, 10), Point::new(50, 18)));
    let (top, _) = r.split_top(5);
    assert_eq!(top, Rect::new(Point::new(10, 10), Point::new(50, 15)));
    assert_eq!(r.split_center(10), Rect::new(Point::new(25, 10), Point::new(35, 30)));
    assert_eq!(r.center(), Point::new(30, 20));
    assert!(r.contains(Point::new(10, 10)));
    assert!(!r.contains(Point::new(50, 10)));
    assert_eq!(r.inset(Insets::new(1, 2, 3, 4)), Rect::new(Point::new(14, 11), Point::new(48, 27)));
    assert_eq!(Point::new(1, 2).add(Offset::new(3, -4)), Point::new(4, -2));
    assert_eq!(Rect::zero(), Rect::new(Point::zero(), Point::zero()));
}

#[test]
fn timer_tokens_count_up_and_wrap() {
    let mut ctx = EventCtx::new(u32::MAX - 1);
    let a = ctx.request_timer(Duration::from_millis(5));
    let b = ctx.request_timer(Duration::from_millis(6));
    let c = ctx.request_timer(Duration::from_millis(7));
    assert_eq!((a.id, b.id, c.id), (u32::MAX - 1, u32::MAX, 1));
    assert_eq!(ctx.next_token, 2);
    assert!(!ctx.paint_requested);
    ctx.request_paint();
    assert!(ctx.paint_requested);
    assert_eq!(Duration::from_secs(3).to_millis(), 3000);
}

#[test]
fn container_reconfiguration() {
    let mut c = ButtonContainer::new(ButtonPos::Right, "NEXT", tr_theme::button_default(), ButtonType::NormalButton);
    assert!(c.reacts_to_single_click());
    let mut ctx = EventCtx::new(1);
    c.set(&mut ctx, Some(ButtonDetails::new("CNC").with_duration(Duration::from_millis(1500))), bar());
    assert_eq!(c.button_type, ButtonType::HoldToConfirm);
    assert_eq!(c.hold_to_confirm.text, "CNC");
    assert_eq!(c.hold_to_confirm.duration, Duration::from_millis(1500));
    assert!(!c.reacts_to_single_click());
    assert!(ctx.paint_requested);
    c.set(&mut ctx, Some(ButtonDetails::new("MENU")), bar());
    assert_eq!(c.button_type, ButtonType::NormalButton);
    // four glyphs of 7 pixels, minus one, plus a border of 2 on each side
    assert_eq!(c.button.area, Rect::new(Point::new(97, 52), Point::new(128, 64)));
    let mut ctx = EventCtx::new(1);
    c.set(&mut ctx, None, bar());
    assert_eq!(c.button_type, ButtonType::Nothing);
    assert!(!ctx.paint_requested);
}

#[test]
fn controller_configuration() {
    assert_eq!(ButtonController::get_button_type(None), ButtonType::Nothing);
    assert_eq!(ButtonController::get_button_type(Some(ButtonDetails::new("A"))), ButtonType::NormalButton);
    assert_eq!(
        ButtonController::get_button_type(Some(ButtonDetails::new("A").with_duration(Duration::from_millis(1)))),
        ButtonType::HoldToConfirm
    );
    let mut c = ButtonController::new(None, None, None);
    c.place(bar());
    let mut ctx = EventCtx::new(1);
    c.set_left(&mut ctx, Some(ButtonDetails::new("BACK")));
    c.set_middle(&mut ctx, Some(ButtonDetails::new("OK").with_duration(Duration::from_millis(700))));
    c.set_right(&mut ctx, None);
    assert_eq!(c.left_btn.button_type, ButtonType::NormalButton);
    assert_eq!(c.middle_btn.button_type, ButtonType::HoldToConfirm);
    assert_eq!(c.middle_btn.hold_to_confirm.duration, Duration::from_millis(700));
    assert_eq!(c.right_btn.button_type, ButtonType::Nothing);
    let mut canvas = Canvas::new();
    c.paint(&mut canvas);
    // background, the left button's two primitives, the hold's one text
    assert_eq!(canvas.ops.len(), 4);
}

#[test]
fn pressed_button_paints_inverted() {
    let mut b = Button::with_text(ButtonPos::Left, "X", tr_theme::button_default());
    b.place(bar());
    let mut canvas = Canvas::new();
    b.paint_pressed(true, &mut canvas);
    assert_eq!(b.state, PressState::Pressed);
    match (&canvas.ops[0], &canvas.ops[1]) {
        (DrawOp::FillRounded { color, .. }, DrawOp::Text { fg, bg, .. }) => {
            assert_eq!(color.value, 0x0000);
            assert_eq!(fg.value, 0xFFFF);
            assert_eq!(bg.value, 0x0000);
        },
        _ => panic!("expected a rounded fill and text"),
    }
    b.set_pressed(false);
    assert_eq!(b.state, PressState::Released);
}

#[test]
fn hold_widget_setters() {
    let style = LoaderStyleSheet {
        normal: LoaderStyle {
            font: tr_theme::FONT_BOLD,
            fg_color: Color { value: tr_theme::FG },
            bg_color: Color { value: tr_theme::BG },
        },
    };
    let mut h = HoldToConfirm::new(ButtonPos::Middle, "HOLD", style, Duration::from_millis(1000));
    h.set_text("OK", bar());
    assert_eq!(h.text, "OK");
    assert_eq!(h.area, Rect::new(Point::new(57, 52), Point::new(70, 64)));
    h.set_duration(Duration::from_millis(250));
    assert_eq!(h.duration, Duration::from_millis(250));
    h.timer = Some(TimerToken { id: 3 });
    h.reset();
    assert_eq!(h.timer, None);
}

#[test]
fn text_box_capacity_and_delete() {
    let mut t = TextBox::empty();
    let mut ctx = EventCtx::new(1);
    t.delete_last(&mut ctx);
    assert_eq!(t.len(), 0);
    assert!(!ctx.paint_requested);
    for _ in 0..60 {
        t.append(&mut ctx, 'z');
    }
    assert_eq!(t.len(), 50);
    assert!(t.is_full());
    t.delete_last(&mut ctx);
    assert_eq!(t.len(), 49);
    assert!(!t.is_full());
    assert_eq!(t.content(), "z".repeat(49));
}

#[test]
fn pad_fills_only_when_cleared() {
    let mut p = Pad::with_background(Color { value: 7 });
    p.place(bar());
    let mut canvas = Canvas::new();
    p.paint(&mut canvas);
    assert!(canvas.ops.is_empty());
    p.clear();
    p.paint(&mut canvas);
    assert_eq!(canvas.ops.len(), 1);
}

#[test]
fn bold_text_alignments() {
    let mut canvas = Canvas::new();
    display_bold(Point::new(1, 2), "l", &mut canvas);
    display_bold_center(Point::new(1, 2), "c", &mut canvas);
    display_bold_right(Point::new(1, 2), "r", &mut canvas);
    let aligns: Vec<Align> = canvas
        .ops
        .iter()
        .map(|o| match o {
            DrawOp::Text { align, .. } => *align,
            _ => panic!("expected text"),
        })
        .collect();
    assert_eq!(aligns, vec![Align::Left, Align::Center, Align::Right]);
}

#[test]
fn text_box_takes_any_character() {
    let mut t = TextBox::empty();
    let mut ctx = EventCtx::new(1);
    t.append(&mut ctx, 'é');
    t.append(&mut ctx, 'a');
    assert_eq!(t.content(), "éa");
    assert!(ctx.paint_requested);
    t.delete_last(&mut ctx);
    assert_eq!(t.content(), "é");
}
